//! Prompts: the system prompt of each mode, the catalogue of tools that the
//! agent is told of, the block of external context, and the prompt of a
//! request with its context.

use crate::agent::guardrails::MCP_CONTEXT_MAX_CHARS;
use crate::context::{Context, FileContext};
use crate::error::AiRuntimeError;
use crate::mcp::{McpContextChunk, McpToolDescriptor};
use crate::paths::{path_text, path_to_text};
use crate::providers::AiMode;
use crate::text::{
    byte_len, byte_length, cut_to_bytes, first_chars, join_strings, joined, replace_char,
    take_chars, texts, truncate_bytes, with_char_replaced,
};
use std::path::PathBuf;
use vstd::prelude::*;
use vstd::string::StringExecFns;

verus! {

/// The rules that open the agent's system prompt.
pub const AGENT_SYSTEM_PROMPT_BASE: &'static str =
    r#"You are an IDE agent. Your goal is to MODIFY THE PROJECT using tools. NEVER output code as plain text — ALWAYS use tool_call.

Rules:
1. Your FIRST response MUST be a tool_call (list_files, read_file, create_file, or apply_patch).
2. When user asks to create/implement/add/generate — use tools immediately. No explanations, no code in text.
3. For new projects: create_project first, then MUST implement with create_file/apply_patch. Never stop with just skeleton.
4. For existing files: use ONLY apply_patch. Never overwrite a file wholly.
5. After each tool result, send the next tool_call until done.

"#;

/// The tools of the executor, as the agent is told of them.
pub const LOCAL_TOOLS: &'static str =
    "You have access to the following tools:\n- create_project(template: string, name?: string) — create skeleton only. After this you MUST use create_file/apply_patch to add the actual implementation. Never stop with just hello world.\n- list_files(path?: string) — list directory contents\n- read_file(path: string) — read file content\n- create_file(path: string, content: string) — create new file (or overwrite only when creating from scratch)\n- apply_patch(path: string, before: string, after: string) — apply contextual diff: exact \"before\" block is replaced by \"after\" (once). Use for all edits to existing files.\n";

/// How the agent writes a tool call.
pub const OUTPUT_FORMAT: &'static str =
    r#"
Output format for tool calls (use exactly this):
```tool_call
{"name": "create_project", "arguments": {"template": "rust", "name": "my-app"}}
```
or:
```tool_call
{"name": "create_file", "arguments": {"path": "relative/path", "content": "..."}}
```
or for edits:
```tool_call
{"name": "apply_patch", "arguments": {"path": "relative/path", "before": "exact text to find", "after": "replacement"}}
```
or for MCP tools (use exact name mcp::server::tool):
```tool_call
{"name": "mcp::server::tool", "arguments": {...}}
```

If the task is unclear, ask ONE clarifying question.
Otherwise, proceed immediately."#;

/// The system prompt of the agent mode where no external tools are known.
pub const AGENT_SYSTEM_PROMPT: &'static str =
    r#"You are an IDE agent, not a chat assistant.

Your goal is to MODIFY THE PROJECT, not to explain code.

You may receive additional context from external knowledge providers (MCP). Use it to improve accuracy and decisions, but never blindly trust it.

You may call external tools provided via MCP when helpful. MCP tools return factual or structured data. Always reason after receiving tool results before answering the user.

Rules:
1. NEVER output code as plain text if a tool can be used.
2. NEVER call the same tool with the same arguments twice. Use the result you already have. After list_files, proceed to read_file or apply_patch; do not list again.
3. When a user asks to "create", "implement", "add", or "generate":
   - You MUST create or modify files using tools.
4. For creating a NEW PROJECT: use create_project(template, name?) first. Then you MUST implement the user's request with create_file/apply_patch. create_project creates only a skeleton (hello world). NEVER stop after create_project — always add the real code.
5. First, create a PLAN.
6. Then EXECUTE the plan step by step using tools.
7. After each tool call, reassess the state.
8. Stop only when the task is fully completed.

You MUST NEVER overwrite a file wholly. For existing files use ONLY apply_patch.
If a patch fails (BeforeBlockNotFound, AmbiguousPatch, FileNotFound, IOError) — fix the context and try again.

You have access to the following tools:
- create_project(template: string, name?: string) — create new project from template (empty|rust|python|node). Use ONLY this for new projects. If path exists, returns success — use list_files/read_file to work with it.
- list_files(path?: string) — list directory contents
- read_file(path: string) — read file content
- create_file(path: string, content: string) — create new file (or overwrite only when creating from scratch)
- apply_patch(path: string, before: string, after: string) — apply contextual diff: exact "before" block is replaced by "after" (once). Use for all edits to existing files.

Output format for tool calls (use exactly this):
```tool_call
{"name": "create_project", "arguments": {"template": "rust", "name": "my-app"}}
```
or:
```tool_call
{"name": "create_file", "arguments": {"path": "relative/path", "content": "..."}}
```
or for edits:
```tool_call
{"name": "apply_patch", "arguments": {"path": "relative/path", "before": "exact text to find", "after": "replacement"}}
```

If the task is unclear, ask ONE clarifying question.
Otherwise, proceed immediately."#;

/// The description of an external tool as the catalogue shows it: on one
/// line, and cut to 117 bytes and marked where it takes more than 120. The
/// cut falls between characters.
pub open spec fn short_description(description: Option<String>) -> Seq<char> {
    let text = with_char_replaced(
        match description {
            Some(d) => d@,
            None => "MCP tool"@,
        },
        '\n',
        ' ',
    );
    if byte_len(text) > 120 {
        cut_to_bytes(text, 117) + "..."@
    } else {
        text
    }
}

/// The line of the catalogue for one external tool.
pub open spec fn tool_line(tool: McpToolDescriptor) -> Seq<char> {
    "- "@ + tool.full_name() + " — "@ + short_description(tool.description) + "\n"@
}

/// The lines of the catalogue for the first `n` external tools.
pub open spec fn tool_lines(tools: Seq<McpToolDescriptor>, n: int) -> Seq<char>
    decreases n,
{
    if n <= 0 || n > tools.len() {
        Seq::<char>::empty()
    } else {
        tool_lines(tools, n - 1) + tool_line(tools[n - 1])
    }
}

/// The agent's system prompt: the rules, the tools of the executor, one
/// line for each external tool, and the format of a call.
pub open spec fn agent_system_prompt(tools: Seq<McpToolDescriptor>) -> Seq<char> {
    AGENT_SYSTEM_PROMPT_BASE@ + LOCAL_TOOLS@ + tool_lines(tools, tools.len() as int)
        + OUTPUT_FORMAT@
}

fn shorten(description: &Option<String>) -> (r: String)
    ensures
        r@ == short_description(*description),
{
    let text = match description {
        Some(d) => replace_char(d.as_str(), '\n', ' '),
        None => replace_char("MCP tool", '\n', ' '),
    };
    if byte_length(text.as_str()) > 120 {
        let mut cut = truncate_bytes(text.as_str(), 117);
        cut.append("...");
        cut
    } else {
        text
    }
}

/// Builds the agent's system prompt for a list of external tools.
pub fn build_agent_system_prompt(mcp_tools: &Vec<McpToolDescriptor>) -> (r: String)
    ensures
        r@ == agent_system_prompt(mcp_tools@),
{
    let mut s = String::from_str(AGENT_SYSTEM_PROMPT_BASE);
    s.append(LOCAL_TOOLS);
    let ghost head = s@;
    let mut i: usize = 0;
    while i < mcp_tools.len()
        invariant
            i <= mcp_tools.len(),
            s@ == head + tool_lines(mcp_tools@, i as int),
        decreases mcp_tools.len() - i,
    {
        let tool = &mcp_tools[i];
        let name = tool.namespaced_name();
        let short = shorten(&tool.description);
        s.append("- ");
        s.append(name.as_str());
        s.append(" — ");
        s.append(short.as_str());
        s.append("\n");
        proof {
            assert(s@ =~= head + (tool_lines(mcp_tools@, i as int) + tool_line(
                mcp_tools@[i as int],
            )));
        }
        i += 1;
    }
    s.append(OUTPUT_FORMAT);
    s
}

/// The heading of the block of external context.
pub const CONTEXT_HEADING: &'static str =
    "\n\nAdditional context from external knowledge systems:\n";

/// The line of the block for one chunk of context.
pub open spec fn chunk_line(chunk: McpContextChunk) -> Seq<char> {
    "- ["@ + chunk.server@ + "]: "@ + chunk.content@ + "\n"@
}

/// The lines of the block from chunk `i` on, where `total` bytes are used
/// already. A line that would take the block over its limit ends it: where
/// more than twenty bytes are left, as many characters of the line are
/// shown, followed by a mark; else nothing.
pub open spec fn chunk_lines(chunks: Seq<McpContextChunk>, i: int, total: nat) -> Seq<char>
    decreases chunks.len() - i,
{
    if i < 0 || i >= chunks.len() {
        Seq::<char>::empty()
    } else {
        let line = chunk_line(chunks[i]);
        if total + byte_len(line) > MCP_CONTEXT_MAX_CHARS {
            let rest: nat = if total >= MCP_CONTEXT_MAX_CHARS {
                0
            } else {
                (MCP_CONTEXT_MAX_CHARS - total) as nat
            };
            if rest > 20 {
                first_chars(line, rest) + "...\n"@
            } else {
                Seq::<char>::empty()
            }
        } else {
            line + chunk_lines(chunks, i + 1, total + byte_len(line))
        }
    }
}

/// The block of external context that goes into the agent's prompt:
/// nothing without chunks; else the heading and the lines, within the limit.
pub open spec fn context_block(chunks: Seq<McpContextChunk>) -> Seq<char> {
    if chunks.len() == 0 {
        Seq::<char>::empty()
    } else {
        CONTEXT_HEADING@ + chunk_lines(chunks, 0, byte_len(CONTEXT_HEADING@))
    }
}

/// Builds the block of external context that goes into the agent's prompt.
pub fn format_mcp_context_block(chunks: &Vec<McpContextChunk>) -> (r: String)
    ensures
        r@ == context_block(chunks@),
{
    if chunks.len() == 0 {
        return String::new();
    }
    let mut s = String::from_str(CONTEXT_HEADING);
    let mut total: usize = byte_length(CONTEXT_HEADING);
    let ghost head = s@;
    let ghost start = total as nat;
    let ghost mut shown = Seq::<char>::empty();
    let mut i: usize = 0;
    while i < chunks.len()
        invariant
            i <= chunks.len(),
            chunks@.len() > 0,
            head == CONTEXT_HEADING@,
            start == byte_len(CONTEXT_HEADING@),
            s@ == head + shown,
            chunk_lines(chunks@, 0, start) == shown + chunk_lines(chunks@, i as int, total as nat),
        decreases chunks.len() - i,
    {
        let mut line = String::from_str("- [");
        line.append(chunks[i].server.as_str());
        line.append("]: ");
        line.append(chunks[i].content.as_str());
        line.append("\n");
        let size = byte_length(line.as_str());
        proof {
            assert(line@ == chunk_line(chunks@[i as int]));
        }
        if total > MCP_CONTEXT_MAX_CHARS || size > MCP_CONTEXT_MAX_CHARS - total {
            let rest: usize = if total >= MCP_CONTEXT_MAX_CHARS {
                0
            } else {
                MCP_CONTEXT_MAX_CHARS - total
            };
            if rest > 20 {
                let part = take_chars(line.as_str(), rest);
                s.append(part.as_str());
                s.append("...\n");
                proof {
                    assert(s@ =~= head + (shown + (first_chars(line@, rest as nat) + "...\n"@)));
                }
            } else {
                proof {
                    assert(s@ =~= head + (shown + Seq::<char>::empty()));
                }
            }
            return s;
        }
        total = total + size;
        s.append(line.as_str());
        proof {
            assert(shown + (line@ + chunk_lines(chunks@, i + 1, total as nat)) =~= (shown + line@)
                + chunk_lines(chunks@, i + 1, total as nat));
            shown = shown + line@;
            assert(s@ =~= head + shown);
        }
        i += 1;
    }
    proof {
        assert(shown + Seq::<char>::empty() =~= shown);
    }
    s
}

/// The part of a context for one file.
pub open spec fn file_part(file: FileContext) -> Seq<char> {
    "File: "@ + path_text(file.path) + "\n```\n"@ + file.content@ + "\n```"@
}

/// The texts of a list of paths.
pub open spec fn path_texts(paths: Seq<PathBuf>) -> Seq<Seq<char>> {
    paths.map_values(|p: PathBuf| path_text(p))
}

/// The parts of a context, in order: the current file, the selection, the
/// project tree, and the further files.
pub open spec fn context_parts(context: Context) -> Seq<Seq<char>> {
    (match context.current_file {
        Some(f) => seq![file_part(f)],
        None => Seq::<Seq<char>>::empty(),
    }) + (match context.selection {
        Some(s) => seq!["Selection:\n```\n"@ + s@ + "\n```"@],
        None => Seq::<Seq<char>>::empty(),
    }) + (if context.project_tree@.len() > 0 {
        seq!["Project tree:\n"@ + joined(path_texts(context.project_tree@), "\n"@)]
    } else {
        Seq::<Seq<char>>::empty()
    }) + context.extra_files@.map_values(|f: FileContext| file_part(f))
}

/// A context as text: its parts, an empty line between any two;
/// `(no context)` where it has none.
pub open spec fn formatted_context(context: Context) -> Seq<char> {
    let parts = context_parts(context);
    if parts.len() == 0 {
        "(no context)"@
    } else {
        joined(parts, "\n\n"@)
    }
}

/// The system prompt of a mode.
pub open spec fn system_prompt_of(mode: AiMode) -> Seq<char> {
    match mode {
        AiMode::Chat => "You are a helpful coding assistant."@,
        AiMode::Explain => "Explain the code clearly. Focus on logic and structure."@,
        AiMode::Refactor => "Refactor the selected code according to the instruction."@,
        AiMode::Generate => "Generate code according to the prompt."@,
        AiMode::Agent => AGENT_SYSTEM_PROMPT@,
    }
}

/// A prompt: the system prompt, the context, and what the user asks.
pub open spec fn assembled(system: Seq<char>, user_input: Seq<char>, context: Seq<char>) -> Seq<
    char,
> {
    system + "\n\nContext:\n"@ + context + "\n\nUser: "@ + user_input
}

fn file_text(file: &FileContext) -> (r: String)
    ensures
        r@ == file_part(*file),
{
    let mut s = String::from_str("File: ");
    let path = path_to_text(&file.path);
    s.append(path.as_str());
    s.append("\n```\n");
    s.append(file.content.as_str());
    s.append("\n```");
    s
}

/// Builds the prompt of a request.
pub struct PromptBuilder;

impl PromptBuilder {
    /// Builds the prompt of a request from its mode, its context and what
    /// the user asks. It never fails.
    pub fn build(mode: AiMode, context: &Context, user_input: &str) -> (r: Result<
        String,
        AiRuntimeError,
    >)
        ensures
            r matches Ok(prompt) && prompt@ == assembled(
                system_prompt_of(mode),
                user_input@,
                formatted_context(*context),
            ),
    {
        let formatted = match Self::format_context(context) {
            Ok(text) => text,
            Err(e) => {
                return Err(e);
            },
        };
        let system = match Self::system_prompt(mode) {
            Ok(text) => text,
            Err(e) => {
                return Err(e);
            },
        };
        Self::assemble(system, user_input, formatted.as_str())
    }

    /// Writes a context as text.
    pub fn format_context(context: &Context) -> (r: Result<String, AiRuntimeError>)
        ensures
            r matches Ok(text) && text@ == formatted_context(*context),
    {
        let mut parts: Vec<String> = Vec::new();
        match &context.current_file {
            Some(f) => {
                parts.push(file_text(f));
            },
            None => {},
        }
        match &context.selection {
            Some(s) => {
                let mut part = String::from_str("Selection:\n```\n");
                part.append(s.as_str());
                part.append("\n```");
                parts.push(part);
            },
            None => {},
        }
        if context.project_tree.len() > 0 {
            let mut tree: Vec<String> = Vec::new();
            let mut i: usize = 0;
            while i < context.project_tree.len()
                invariant
                    i <= context.project_tree.len(),
                    texts(tree@) == path_texts(context.project_tree@).take(i as int),
                decreases context.project_tree.len() - i,
            {
                let ghost before = texts(tree@);
                let text = path_to_text(&context.project_tree[i]);
                let ghost shown = text@;
                tree.push(text);
                proof {
                    assert(path_texts(context.project_tree@)[i as int] == shown);
                    assert(texts(tree@) =~= before.push(shown));
                    assert(path_texts(context.project_tree@).take(i + 1) =~= path_texts(
                        context.project_tree@,
                    ).take(i as int).push(shown));
                }
                i += 1;
            }
            proof {
                assert(path_texts(context.project_tree@).take(
                    context.project_tree@.len() as int,
                ) =~= path_texts(context.project_tree@));
            }
            let mut part = String::from_str("Project tree:\n");
            let lines = join_strings(&tree, "\n");
            part.append(lines.as_str());
            parts.push(part);
        }
        let ghost head = texts(parts@);
        let ghost files = context.extra_files@.map_values(|f: FileContext| file_part(f));
        proof {
            assert(texts(parts@) =~= head + files.take(0));
        }
        let mut k: usize = 0;
        while k < context.extra_files.len()
            invariant
                k <= context.extra_files.len(),
                files == context.extra_files@.map_values(|f: FileContext| file_part(f)),
                texts(parts@) == head + files.take(k as int),
            decreases context.extra_files.len() - k,
        {
            let ghost before = texts(parts@);
            let text = file_text(&context.extra_files[k]);
            let ghost shown = text@;
            parts.push(text);
            proof {
                assert(files[k as int] == shown);
                assert(texts(parts@) =~= before.push(shown));
                assert(files.take(k + 1) =~= files.take(k as int).push(shown));
                assert(texts(parts@) =~= head + files.take(k + 1));
            }
            k += 1;
        }
        proof {
            assert(files.take(files.len() as int) =~= files);
            assert(texts(parts@) =~= context_parts(*context));
        }
        if parts.len() == 0 {
            Ok(String::from_str("(no context)"))
        } else {
            Ok(join_strings(&parts, "\n\n"))
        }
    }

    /// The system prompt of a mode.
    pub fn system_prompt(mode: AiMode) -> (r: Result<&'static str, AiRuntimeError>)
        ensures
            r matches Ok(text) && text@ == system_prompt_of(mode),
    {
        let prompt = match mode {
            AiMode::Chat => "You are a helpful coding assistant.",
            AiMode::Explain => "Explain the code clearly. Focus on logic and structure.",
            AiMode::Refactor => "Refactor the selected code according to the instruction.",
            AiMode::Generate => "Generate code according to the prompt.",
            AiMode::Agent => AGENT_SYSTEM_PROMPT,
        };
        Ok(prompt)
    }

    /// Puts the system prompt, the context and the user's input together.
    pub fn assemble(system: &str, user_input: &str, context: &str) -> (r: Result<
        String,
        AiRuntimeError,
    >)
        ensures
            r matches Ok(prompt) && prompt@ == assembled(system@, user_input@, context@),
    {
        let mut prompt = String::from_str(system);
        prompt.append("\n\nContext:\n");
        prompt.append(context);
        prompt.append("\n\nUser: ");
        prompt.append(user_input);
        Ok(prompt)
    }
}

} // verus!
