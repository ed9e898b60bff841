//! External tools and context, reached through a registry of servers: the
//! names of such tools, their description, and what a server's answers mean.

use crate::json::{
    elements_of, empty_object, json_elements, json_member, json_members, json_rendered,
    json_text, json_text_member, member, render, text_member, text_of,
};
use crate::paths::{path_file_stem, path_from, path_of, path_stem};
use crate::text::{
    chars_of, contains, contains_sub, ends_with, find, first_match, has_prefix, has_suffix,
    opt_view, same_text, slice_chars, starts_with, string_of, trim_chars, trimmed,
};
use vstd::prelude::*;
use vstd::string::StringExecFns;

verus! {

/// Why a server could not be used.
#[derive(Debug, Clone)]
pub enum McpError {
    Config(String),
    Http(String),
    JsonRpc(String),
    Timeout,
    Io(String),
}

impl McpError {
    /// The text that `message` renders.
    pub open spec fn message_text(&self) -> Seq<char> {
        match self {
            McpError::Config(detail) => "config: "@ + detail@,
            McpError::Http(detail) => "HTTP: "@ + detail@,
            McpError::JsonRpc(detail) => "JSON-RPC error: "@ + detail@,
            McpError::Timeout => "timeout"@,
            McpError::Io(detail) => "IO: "@ + detail@,
        }
    }

    /// The error as text.
    pub fn message(&self) -> (r: String)
        ensures
            r@ == self.message_text(),
    {
        match self {
            McpError::Config(detail) => {
                let mut s = String::from_str("config: ");
                s.append(detail.as_str());
                s
            },
            McpError::Http(detail) => {
                let mut s = String::from_str("HTTP: ");
                s.append(detail.as_str());
                s
            },
            McpError::JsonRpc(detail) => {
                let mut s = String::from_str("JSON-RPC error: ");
                s.append(detail.as_str());
                s
            },
            McpError::Timeout => String::from_str("timeout"),
            McpError::Io(detail) => {
                let mut s = String::from_str("IO: ");
                s.append(detail.as_str());
                s
            },
        }
    }
}

/// How one server is reached.
#[derive(Debug, Clone)]
pub struct McpServerConfig {
    pub url: String,
    pub headers: Vec<(String, String)>,
}

/// The servers of a configuration, each under its name. A configuration
/// is a map from names to servers: no name occurs twice in one that is
/// well formed, and `insert` keeps it so.
#[derive(Debug, Clone)]
pub struct McpConfig {
    pub mcp_servers: Vec<(String, McpServerConfig)>,
}

impl Default for McpConfig {
    fn default() -> (r: McpConfig)
        ensures
            r.mcp_servers@.len() == 0,
            r.wf(),
    {
        McpConfig { mcp_servers: Vec::new() }
    }
}

impl McpConfig {
    /// No name occurs twice.
    pub open spec fn wf(&self) -> bool {
        forall|i: int, j: int|
            0 <= i < j < self.mcp_servers@.len() ==> (#[trigger] self.mcp_servers@[i]).0@ != (
            #[trigger] self.mcp_servers@[j]).0@
    }

    /// Tests whether no name occurs twice.
    pub fn is_well_formed(&self) -> (r: bool)
        ensures
            r == self.wf(),
    {
        let mut j: usize = 0;
        while j < self.mcp_servers.len()
            invariant
                j <= self.mcp_servers.len(),
                forall|a: int, b: int|
                    0 <= a < b < j ==> (#[trigger] self.mcp_servers@[a]).0@ != (
                    #[trigger] self.mcp_servers@[b]).0@,
            decreases self.mcp_servers.len() - j,
        {
            let mut i: usize = 0;
            while i < j
                invariant
                    i <= j < self.mcp_servers.len(),
                    forall|a: int|
                        0 <= a < i ==> (#[trigger] self.mcp_servers@[a]).0@
                            != self.mcp_servers@[j as int].0@,
                decreases j - i,
            {
                if same_text(self.mcp_servers[i].0.as_str(), self.mcp_servers[j].0.as_str()) {
                    return false;
                }
                i += 1;
            }
            j += 1;
        }
        true
    }

    /// Puts `server` under `name`, in place of the server that was under
    /// that name. The other servers stay, in their order.
    pub fn insert(&mut self, name: String, server: McpServerConfig)
        requires
            old(self).wf(),
        ensures
            final(self).wf(),
            final(self).mcp_servers@.len() > 0,
            final(self).mcp_servers@.last() == (name, server),
            final(self).mcp_servers@.drop_last() == old(self).mcp_servers@.filter(
                |entry: (String, McpServerConfig)| entry.0@ != name@,
            ),
    {
        let ghost other = |entry: (String, McpServerConfig)| entry.0@ != name@;
        let ghost all = self.mcp_servers@;
        let mut i: usize = 0;
        while i < self.mcp_servers.len()
            invariant
                i <= self.mcp_servers.len(),
                self.mcp_servers@ == all,
                all == old(self).mcp_servers@,
                other == |entry: (String, McpServerConfig)| entry.0@ != name@,
                self.wf(),
                forall|j: int| 0 <= j < i ==> (#[trigger] all[j]).0@ != name@,
            decreases self.mcp_servers.len() - i,
        {
            if same_text(self.mcp_servers[i].0.as_str(), name.as_str()) {
                self.mcp_servers.remove(i);
                let ghost without = self.mcp_servers@;
                proof {
                    assert forall|k: int| 0 <= k < without.len() implies other(
                        #[trigger] without[k],
                    ) by {
                        if k < i {
                            assert(without[k] == all[k]);
                        } else {
                            assert(without[k] == all[k + 1]);
                            assert(all[i as int].0@ != all[k + 1].0@);
                        }
                    }
                    assert forall|a: int, b: int| 0 <= a < b < without.len() implies (
                    #[trigger] without[a]).0@ != (#[trigger] without[b]).0@ by {
                        let x = if a < i {
                            a
                        } else {
                            a + 1
                        };
                        let y = if b < i {
                            b
                        } else {
                            b + 1
                        };
                        assert(without[a] == all[x] && without[b] == all[y]);
                    }
                    lemma_filter_one_out(all, other, i as int);
                }
                self.mcp_servers.push((name, server));
                proof {
                    assert(self.mcp_servers@.drop_last() =~= without);
                }
                return ;
            }
            i += 1;
        }
        proof {
            lemma_filter_all(all, other);
        }
        self.mcp_servers.push((name, server));
        proof {
            assert(self.mcp_servers@.drop_last() =~= all);
        }
    }
}

/// Filtering keeps a list whose entries all pass.
pub proof fn lemma_filter_all<A>(s: Seq<A>, pred: spec_fn(A) -> bool)
    requires
        forall|i: int| 0 <= i < s.len() ==> pred(#[trigger] s[i]),
    ensures
        s.filter(pred) == s,
    decreases s.len(),
{
    reveal(Seq::filter);
    if s.len() > 0 {
        lemma_filter_all(s.drop_last(), pred);
        assert(s.drop_last().push(s.last()) =~= s);
    }
}

/// Filtering a list in which all entries pass but the one at `at` takes
/// out that one.
pub proof fn lemma_filter_one_out<A>(s: Seq<A>, pred: spec_fn(A) -> bool, at: int)
    requires
        0 <= at < s.len(),
        !pred(s[at]),
        forall|i: int| 0 <= i < s.len() && i != at ==> pred(#[trigger] s[i]),
    ensures
        s.filter(pred) == s.remove(at),
    decreases s.len(),
{
    reveal(Seq::filter);
    if at == s.len() - 1 {
        lemma_filter_all(s.drop_last(), pred);
        assert(s.remove(at) =~= s.drop_last());
    } else {
        lemma_filter_one_out(s.drop_last(), pred, at);
        assert(s.drop_last().remove(at).push(s.last()) =~= s.remove(at));
    }
}

/// One piece of context from a server.
#[derive(Debug, Clone)]
pub struct McpContextChunk {
    pub server: String,
    pub content: String,
}

/// One tool of a server.
#[derive(Debug, Clone)]
pub struct McpToolDescriptor {
    pub server: String,
    pub name: String,
    pub description: Option<String>,
    pub input_schema: serde_json::Value,
}

impl McpToolDescriptor {
    /// The name under which the agent calls the tool.
    pub open spec fn full_name(&self) -> Seq<char> {
        "mcp::"@ + self.server@ + "::"@ + self.name@
    }

    /// The name under which the agent calls the tool: `mcp::server::tool`.
    pub fn namespaced_name(&self) -> (r: String)
        ensures
            r@ == self.full_name(),
    {
        let mut s = String::from_str("mcp::");
        s.append(self.server.as_str());
        s.append("::");
        s.append(self.name.as_str());
        s
    }
}

/// A client of one server.
#[derive(Debug, Clone)]
pub struct McpClient {
    pub url: String,
    pub headers: Vec<(String, String)>,
    /// The id of the next request.
    pub request_id: u64,
}

impl McpClient {
    pub fn new(config: &McpServerConfig) -> (r: McpClient)
        ensures
            r.url == config.url,
            r.headers@ == config.headers@,
            r.request_id == 0,
    {
        let mut headers: Vec<(String, String)> = Vec::new();
        let mut i: usize = 0;
        while i < config.headers.len()
            invariant
                i <= config.headers.len(),
                headers@ == config.headers@.take(i as int),
            decreases config.headers.len() - i,
        {
            headers.push((config.headers[i].0.clone(), config.headers[i].1.clone()));
            proof {
                assert(headers@ =~= config.headers@.take(i + 1));
            }
            i += 1;
        }
        proof {
            assert(config.headers@.take(config.headers@.len() as int) =~= config.headers@);
        }
        McpClient { url: config.url.clone(), headers, request_id: 0 }
    }

    /// The id for the next request. Ids count up from zero and start over
    /// after the largest.
    pub fn next_request_id(&mut self) -> (id: u64)
        ensures
            id == old(self).request_id,
            final(self).request_id == if old(self).request_id == u64::MAX {
                0
            } else {
                (old(self).request_id + 1) as u64
            },
            final(self).url == old(self).url,
            final(self).headers == old(self).headers,
    {
        let id = self.request_id;
        self.request_id = if id == u64::MAX {
            0
        } else {
            id + 1
        };
        id
    }
}

/// The clients are those of the servers of the configuration, one for
/// each server and in their order, with the server's address and headers
/// and no request made yet. Each stands under the key of its server, or,
/// where `normalise` is set, under the name that the key stands for.
pub open spec fn clients_match(
    clients: Seq<(String, McpClient)>,
    config: McpConfig,
    normalise: bool,
) -> bool {
    &&& clients.len() == config.mcp_servers@.len()
    &&& forall|i: int|
        0 <= i < clients.len() ==> {
            &&& (#[trigger] clients[i]).0@ == if normalise {
                server_name_of(config.mcp_servers@[i].0@)
            } else {
                config.mcp_servers@[i].0@
            }
            &&& clients[i].1.url == config.mcp_servers@[i].1.url
            &&& clients[i].1.headers@ == config.mcp_servers@[i].1.headers@
            &&& clients[i].1.request_id == 0
        }
}

/// The servers of a configuration with their clients.
fn clients_of(config: &McpConfig, normalise: bool) -> (r: Vec<(String, McpClient)>)
    ensures
        clients_match(r@, *config, normalise),
{
    let mut servers: Vec<(String, McpClient)> = Vec::new();
    let mut i: usize = 0;
    while i < config.mcp_servers.len()
        invariant
            i <= config.mcp_servers.len(),
            servers@.len() == i,
            forall|j: int|
                0 <= j < i ==> {
                    &&& (#[trigger] servers@[j]).0@ == if normalise {
                        server_name_of(config.mcp_servers@[j].0@)
                    } else {
                        config.mcp_servers@[j].0@
                    }
                    &&& servers@[j].1.url == config.mcp_servers@[j].1.url
                    &&& servers@[j].1.headers@ == config.mcp_servers@[j].1.headers@
                    &&& servers@[j].1.request_id == 0
                },
        decreases config.mcp_servers.len() - i,
    {
        let key = config.mcp_servers[i].0.as_str();
        let name = if normalise {
            server_name(key)
        } else {
            String::from_str(key)
        };
        servers.push((name, McpClient::new(&config.mcp_servers[i].1)));
        i += 1;
    }
    servers
}

/// Fetches context from the servers of a configuration.
#[derive(Debug, Clone)]
pub struct McpContextProvider {
    pub servers: Vec<(String, McpClient)>,
}

impl McpContextProvider {
    /// The provider for the configuration that was loaded; the failure to
    /// load it, where there is one.
    pub fn from_config_file(loaded: Result<McpConfig, McpError>) -> (r: Result<
        McpContextProvider,
        McpError,
    >)
        ensures
            match loaded {
                Ok(config) => r matches Ok(p) && clients_match(p.servers@, config, false),
                Err(e) => r matches Err(f) && f == e,
            },
    {
        match loaded {
            Ok(config) => Self::from_config(config),
            Err(e) => Err(e),
        }
    }

    /// The provider for a configuration: one client for each server, under
    /// the server's key.
    pub fn from_config(config: McpConfig) -> (r: Result<McpContextProvider, McpError>)
        ensures
            r matches Ok(p) && clients_match(p.servers@, config, false),
    {
        Ok(McpContextProvider { servers: clients_of(&config, false) })
    }
}

/// The external tools of the servers of a configuration.
#[derive(Debug, Clone)]
pub struct McpToolRegistry {
    pub servers: Vec<(String, McpClient)>,
}

impl McpToolRegistry {
    /// The registry for the configuration that was loaded.
    pub fn from_config_file(loaded: Result<McpConfig, McpError>) -> (r: Result<
        McpToolRegistry,
        McpError,
    >)
        ensures
            match loaded {
                Ok(config) => r matches Ok(p) && clients_match(p.servers@, config, true),
                Err(e) => r matches Err(f) && f == e,
            },
    {
        match loaded {
            Ok(config) => Self::from_config(config),
            Err(e) => Err(e),
        }
    }

    /// The registry for a configuration: one client for each server, under
    /// the name that its key stands for.
    pub fn from_config(config: McpConfig) -> (r: Result<McpToolRegistry, McpError>)
        ensures
            r matches Ok(p) && clients_match(p.servers@, config, true),
    {
        Ok(McpToolRegistry { servers: clients_of(&config, true) })
    }

    /// There is at least one server.
    pub fn has_servers(&self) -> (r: bool)
        ensures
            r == (self.servers@.len() > 0),
    {
        self.servers.len() > 0
    }

    /// The client of the first server of the given name.
    pub fn get_client(&self, server_name: &str) -> (r: Option<&McpClient>)
        ensures
            match r {
                Some(client) => exists|i: int|
                    0 <= i < self.servers@.len() && (#[trigger] self.servers@[i]).0@
                        == server_name@ && self.servers@[i].1 == *client && forall|j: int|
                        0 <= j < i ==> (#[trigger] self.servers@[j]).0@ != server_name@,
                None => forall|j: int|
                    0 <= j < self.servers@.len() ==> (#[trigger] self.servers@[j]).0@
                        != server_name@,
            },
    {
        let mut i: usize = 0;
        while i < self.servers.len()
            invariant
                i <= self.servers.len(),
                forall|j: int| 0 <= j < i ==> (#[trigger] self.servers@[j]).0@ != server_name@,
            decreases self.servers.len() - i,
        {
            if same_text(self.servers[i].0.as_str(), server_name) {
                return Some(&self.servers[i].1);
            }
            i += 1;
        }
        None
    }
}

/// The server and the tool that a name of the form `mcp::server::tool`
/// speaks of. The server ends at the first `::` after the prefix; neither
/// part may be empty.
pub open spec fn mcp_name_parts(name: Seq<char>) -> Option<(Seq<char>, Seq<char>)> {
    if !has_prefix(name, "mcp::"@) {
        None
    } else {
        let rest = trimmed(name.subrange("mcp::"@.len() as int, name.len() as int));
        match first_match(rest, "::"@, 0) {
            None => None,
            Some(at) => {
                let server = rest.subrange(0, at);
                let tool = rest.subrange(at + "::"@.len(), rest.len() as int);
                if server.len() == 0 || tool.len() == 0 {
                    None
                } else {
                    Some((server, tool))
                }
            },
        }
    }
}

/// Splits the name of an external tool into server and tool.
pub fn parse_mcp_tool_name(name: &str) -> (r: Option<(String, String)>)
    ensures
        match r {
            Some((server, tool)) => mcp_name_parts(name@) == Some((server@, tool@)),
            None => mcp_name_parts(name@) is None,
        },
{
    let text = chars_of(name);
    let prefix = chars_of("mcp::");
    if !starts_with(&text, &prefix) {
        return None;
    }
    let rest = trim_chars(&slice_chars(&text, prefix.len(), text.len()));
    let sep = chars_of("::");
    let at = match find(&rest, &sep) {
        Some(at) => at,
        None => {
            return None;
        },
    };
    let server = slice_chars(&rest, 0, at);
    let tool = slice_chars(&rest, at + sep.len(), rest.len());
    if server.len() == 0 || tool.len() == 0 {
        return None;
    }
    Some((string_of(&server), string_of(&tool)))
}

/// A key of a configuration looks like a path rather than a name.
pub open spec fn looks_like_path(key: Seq<char>) -> bool {
    contains_sub(key, "\\"@) || contains_sub(key, "/"@) || has_suffix(key, ".json"@)
}

/// Tests whether a key of a configuration looks like a path.
pub fn is_path_like(key: &str) -> (r: bool)
    ensures
        r == looks_like_path(key@),
{
    let text = chars_of(key);
    contains(&text, &chars_of("\\")) || contains(&text, &chars_of("/")) || ends_with(
        &text,
        &chars_of(".json"),
    )
}

/// The name of the server that a key of a configuration stands for: the
/// key itself, or, for a key that looks like a path, the stem of its file
/// name, and `default` where it has none.
pub open spec fn server_name_of(key: Seq<char>) -> Seq<char> {
    if looks_like_path(key) {
        match path_file_stem(path_of(key)) {
            Some(stem) => stem,
            None => "default"@,
        }
    } else {
        key
    }
}

/// The name of the server that a key of a configuration stands for.
pub fn server_name(key: &str) -> (r: String)
    ensures
        r@ == server_name_of(key@),
{
    if is_path_like(key) {
        match path_stem(&path_from(key)) {
            Some(stem) => stem,
            None => String::from_str("default"),
        }
    } else {
        String::from_str(key)
    }
}

/// Index of the first server of the given name, at or after `from`.
pub open spec fn server_index(servers: Seq<String>, name: Seq<char>, from: int) -> Option<int>
    decreases servers.len() - from,
{
    if from < 0 || from >= servers.len() {
        None
    } else if servers[from]@ == name {
        Some(from)
    } else {
        server_index(servers, name, from + 1)
    }
}

/// The text of the error for a server that is not configured.
pub open spec fn unknown_server_text(server: Seq<char>) -> Seq<char> {
    if looks_like_path(server) {
        "MCP server not found. In mcp.json the key in mcpServers must be a short name (e.g. \"context7\"), not a file path. Example: \"mcpServers\": { \"myserver\": { \"url\": \"http://...\" } }. Got key: "@
            + server
    } else {
        "MCP server not found: "@ + server
            + ". Check that the server name in mcp.json mcpServers matches the name in the tool call."@
    }
}

/// Finds the server that a call of an external tool goes to. The result
/// is the index of the server among those configured and the name of the
/// tool on it. A name of another form and a server that is not configured
/// are errors that say so.
pub fn route_tool_call(servers: &Vec<String>, namespaced_name: &str) -> (r: Result<
    (usize, String),
    McpError,
>)
    ensures
        match mcp_name_parts(namespaced_name@) {
            None => r matches Err(McpError::JsonRpc(text)) && text@
                == "invalid MCP tool name: "@ + namespaced_name@,
            Some((server, tool)) => match server_index(servers@, server, 0) {
                Some(at) => r matches Ok((index, name)) && index == at && name@ == tool,
                None => r matches Err(McpError::JsonRpc(text)) && text@ == unknown_server_text(
                    server,
                ),
            },
        },
{
    let (server, tool) = match parse_mcp_tool_name(namespaced_name) {
        Some(parts) => parts,
        None => {
            let mut text = String::from_str("invalid MCP tool name: ");
            text.append(namespaced_name);
            return Err(McpError::JsonRpc(text));
        },
    };
    let mut i: usize = 0;
    while i < servers.len()
        invariant
            i <= servers.len(),
            mcp_name_parts(namespaced_name@) == Some((server@, tool@)),
            server_index(servers@, server@, 0) == server_index(servers@, server@, i as int),
        decreases servers.len() - i,
    {
        if same_text(servers[i].as_str(), server.as_str()) {
            return Ok((i, tool));
        }
        i += 1;
    }
    let text = if is_path_like(server.as_str()) {
        let mut text = String::from_str(
            "MCP server not found. In mcp.json the key in mcpServers must be a short name (e.g. \"context7\"), not a file path. Example: \"mcpServers\": { \"myserver\": { \"url\": \"http://...\" } }. Got key: ",
        );
        text.append(server.as_str());
        text
    } else {
        let mut text = String::from_str("MCP server not found: ");
        text.append(server.as_str());
        text.append(
            ". Check that the server name in mcp.json mcpServers matches the name in the tool call.",
        );
        text
    };
    Err(McpError::JsonRpc(text))
}

/// The elements of the member `tools` of a server's answer, where it has
/// such a member and that is an array.
pub open spec fn listed_tools(result: serde_json::Value) -> Option<Seq<serde_json::Value>> {
    match json_member(result, "tools"@) {
        Some(tools) => json_elements(tools),
        None => None,
    }
}

/// A descriptor says of a tool what the item of a server's list says: the
/// name, the description where it is a string, and the schema of the
/// input, which is the empty object where the item gives none.
pub open spec fn describes_item(
    tool: McpToolDescriptor,
    item: serde_json::Value,
    server: Seq<char>,
) -> bool {
    &&& tool.server@ == server
    &&& json_text_member(item, "name"@) == Some(tool.name@)
    &&& opt_view(tool.description) == json_text_member(item, "description"@)
    &&& match json_member(item, "inputSchema"@) {
        Some(schema) => tool.input_schema == schema,
        None => json_rendered(tool.input_schema) == "{}"@ && forall|key: Seq<char>|
            !json_members(tool.input_schema).contains_key(key),
    }
}

/// Reads the list of a server's tools from its answer. The answer must
/// hold an array `tools`, and each of its items a string `name`; the
/// first item without one fails the whole list.
pub fn tools_from_result(result: &serde_json::Value, server_name: &str) -> (r: Result<
    Vec<McpToolDescriptor>,
    McpError,
>)
    ensures
        match listed_tools(*result) {
            None => r matches Err(McpError::JsonRpc(text)) && text@
                == "tools/list: missing tools array"@,
            Some(items) => if forall|i: int|
                0 <= i < items.len() ==> json_text_member(#[trigger] items[i], "name"@) is Some {
                &&& r matches Ok(tools)
                &&& tools@.len() == items.len()
                &&& forall|i: int|
                    0 <= i < items.len() ==> describes_item(
                        #[trigger] tools@[i],
                        items[i],
                        server_name@,
                    )
            } else {
                r matches Err(McpError::JsonRpc(text)) && text@
                    == "tools/list: tool missing name"@
            },
        },
{
    let items = match member(result, "tools") {
        Some(tools) => match elements_of(tools) {
            Some(items) => items,
            None => {
                return Err(
                    McpError::JsonRpc(String::from_str("tools/list: missing tools array")),
                );
            },
        },
        None => {
            return Err(McpError::JsonRpc(String::from_str("tools/list: missing tools array")));
        },
    };
    let mut out: Vec<McpToolDescriptor> = Vec::new();
    let mut i: usize = 0;
    while i < items.len()
        invariant
            i <= items.len(),
            listed_tools(*result) == Some(items@),
            out@.len() == i,
            forall|j: int| 0 <= j < i ==> json_text_member(#[trigger] items@[j], "name"@) is Some,
            forall|j: int|
                0 <= j < i ==> describes_item(#[trigger] out@[j], items@[j], server_name@),
        decreases items.len() - i,
    {
        let item = &items[i];
        let name = match text_member(item, "name") {
            Some(name) => name,
            None => {
                return Err(McpError::JsonRpc(String::from_str("tools/list: tool missing name")));
            },
        };
        let description = text_member(item, "description");
        let input_schema = match member(item, "inputSchema") {
            Some(schema) => schema.clone(),
            None => empty_object(),
        };
        out.push(
            McpToolDescriptor {
                server: String::from_str(server_name),
                name,
                description,
                input_schema,
            },
        );
        i += 1;
    }
    Ok(out)
}

/// The text that a tool's result is fed back as: the result itself where
/// it is a string; else its member `content`, as it stands where that is
/// a string and written as JSON where it is not; else the whole result
/// written as JSON.
pub open spec fn result_text(v: serde_json::Value) -> Seq<char> {
    match json_text(v) {
        Some(text) => text,
        None => match json_member(v, "content"@) {
            Some(content) => match json_text(content) {
                Some(text) => text,
                None => json_rendered(content),
            },
            None => json_rendered(v),
        },
    }
}

/// The text that a tool's result is fed back as.
pub fn tool_result_text(v: &serde_json::Value) -> (r: String)
    ensures
        r@ == result_text(*v),
{
    match text_of(v) {
        Some(text) => String::from_str(text),
        None => match member(v, "content") {
            Some(content) => match text_of(content) {
                Some(text) => String::from_str(text),
                None => render(content),
            },
            None => render(v),
        },
    }
}

/// What the run is told of a call of an external tool: the text of the
/// result, or the error. `None` says that no registry is configured.
pub fn external_tool_outcome(answer: Option<Result<serde_json::Value, McpError>>) -> (r: (
    bool,
    String,
))
    ensures
        match answer {
            Some(Ok(v)) => r.0 && r.1@ == result_text(v),
            Some(Err(e)) => !r.0 && r.1@ == "MCP error: "@ + e.message_text(),
            None => !r.0 && r.1@ == "MCP not configured"@,
        },
{
    match answer {
        Some(Ok(v)) => (true, tool_result_text(&v)),
        Some(Err(e)) => {
            let mut text = String::from_str("MCP error: ");
            let inner = e.message();
            text.append(inner.as_str());
            (false, text)
        },
        None => (false, String::from_str("MCP not configured")),
    }
}

/// The text of a server's answer to a query for context: the answer
/// itself where it is a string, its member `content` where that is a
/// string, and nothing otherwise.
pub open spec fn content_of(v: serde_json::Value) -> Seq<char> {
    match json_text(v) {
        Some(text) => text,
        None => match json_text_member(v, "content"@) {
            Some(text) => text,
            None => Seq::<char>::empty(),
        },
    }
}

/// The text of a server's answer to a query for context.
pub fn extract_content(v: &serde_json::Value) -> (r: String)
    ensures
        r@ == content_of(*v),
{
    match text_of(v) {
        Some(text) => String::from_str(text),
        None => match text_member(v, "content") {
            Some(text) => text,
            None => String::new(),
        },
    }
}

/// Adds the context that one server gave to the chunks gathered so far.
/// An empty text adds nothing.
pub fn add_context(chunks: &mut Vec<McpContextChunk>, server: &str, answer: &serde_json::Value)
    ensures
        if content_of(*answer).len() == 0 {
            final(chunks)@ == old(chunks)@
        } else {
            &&& final(chunks)@.len() == old(chunks)@.len() + 1
            &&& final(chunks)@.take(old(chunks)@.len() as int) == old(chunks)@
            &&& final(chunks)@.last().server@ == server@
            &&& final(chunks)@.last().content@ == content_of(*answer)
        },
{
    let content = extract_content(answer);
    if chars_of(content.as_str()).len() > 0 {
        chunks.push(McpContextChunk { server: String::from_str(server), content });
        proof {
            assert(chunks@.take(old(chunks)@.len() as int) =~= old(chunks)@);
        }
    }
}

/// How long a list of tools is kept, in nanoseconds: five minutes.
pub const CACHE_TTL_NANOS: u128 = 300_000_000_000;

/// Whether a cached list of tools must be fetched again: there is none,
/// or it is older than five minutes. The age is given in nanoseconds.
pub fn needs_refresh(age_nanos: Option<u128>) -> (r: bool)
    ensures
        r == match age_nanos {
            Some(age) => age > CACHE_TTL_NANOS,
            None => true,
        },
{
    match age_nanos {
        Some(age) => age > CACHE_TTL_NANOS,
        None => true,
    }
}

} // verus!
