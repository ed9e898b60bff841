//! Role orchestration: a task is classified into a role by fixed keyword
//! rules, and a role is resolved to a model by a policy table. No model
//! takes part in either step.

use crate::providers::AiMode;
use crate::text::{chars_of, contains, contains_sub, lowercase, lowercased, same_text};
use vstd::prelude::*;
use vstd::string::StringExecFns;

verus! {

/// The coarse category of a task.
#[derive(Debug, Clone, Copy, PartialEq, Eq, Hash, Structural)]
pub enum TaskRole {
    Chat,
    Coding,
    Planning,
    Analysis,
    Documentation,
}

impl TaskRole {
    /// The name of the role in a policy table.
    pub open spec fn name(&self) -> Seq<char> {
        match self {
            TaskRole::Chat => "chat"@,
            TaskRole::Coding => "coding"@,
            TaskRole::Planning => "planning"@,
            TaskRole::Analysis => "analysis"@,
            TaskRole::Documentation => "documentation"@,
        }
    }

    pub fn as_str(&self) -> (r: &'static str)
        ensures
            r@ == self.name(),
    {
        match self {
            TaskRole::Chat => "chat",
            TaskRole::Coding => "coding",
            TaskRole::Planning => "planning",
            TaskRole::Analysis => "analysis",
            TaskRole::Documentation => "documentation",
        }
    }
}

/// The model of one role, and why.
#[derive(Debug, Clone)]
pub struct RoleConfig {
    pub model: String,
    pub reason: Option<String>,
}

/// The policy table: a model for each listed role, and a default for the
/// rest. A table is a map from roles to models: no role is listed twice
/// in a table that is well formed, and `insert` keeps it so. Where a role
/// is listed twice all the same, the later entry counts.
#[derive(Debug, Clone)]
pub struct ModelRolesConfig {
    pub default: String,
    pub roles: Vec<(String, RoleConfig)>,
}

/// The model that the first `n` entries give the role `name`.
pub open spec fn listed_model(entries: Seq<(String, RoleConfig)>, name: Seq<char>, n: int) -> Option<
    Seq<char>,
>
    decreases n,
{
    if n <= 0 || n > entries.len() {
        None
    } else if entries[n - 1].0@ == name {
        Some(entries[n - 1].1.model@)
    } else {
        listed_model(entries, name, n - 1)
    }
}

impl ModelRolesConfig {
    /// No role is listed twice.
    pub open spec fn wf(&self) -> bool {
        forall|i: int, j: int|
            0 <= i < j < self.roles@.len() ==> (#[trigger] self.roles@[i]).0@ != (
            #[trigger] self.roles@[j]).0@
    }

    /// Tests whether no role is listed twice.
    pub fn is_well_formed(&self) -> (r: bool)
        ensures
            r == self.wf(),
    {
        let mut j: usize = 0;
        while j < self.roles.len()
            invariant
                j <= self.roles.len(),
                forall|a: int, b: int|
                    0 <= a < b < j ==> (#[trigger] self.roles@[a]).0@ != (
                    #[trigger] self.roles@[b]).0@,
            decreases self.roles.len() - j,
        {
            let mut i: usize = 0;
            while i < j
                invariant
                    i <= j < self.roles.len(),
                    forall|a: int| 0 <= a < i ==> (#[trigger] self.roles@[a]).0@ != self.roles@[j as int].0@,
                decreases j - i,
            {
                if same_text(self.roles[i].0.as_str(), self.roles[j].0.as_str()) {
                    return false;
                }
                i += 1;
            }
            j += 1;
        }
        true
    }

    /// An empty table with the given default.
    pub fn new(default: String) -> (r: ModelRolesConfig)
        ensures
            r.wf(),
            r.default == default,
            r.roles@.len() == 0,
    {
        ModelRolesConfig { default, roles: Vec::new() }
    }

    /// Lists `config` for the role `name`, in place of what the table held
    /// for that role. What the table holds for other roles stays.
    pub fn insert(&mut self, name: String, config: RoleConfig)
        requires
            old(self).wf(),
        ensures
            final(self).wf(),
            final(self).default == old(self).default,
            final(self).model_of(name@) == Some(config.model@),
            forall|other: Seq<char>|
                other != name@ ==> final(self).model_of(other) == old(self).model_of(other),
    {
        let mut i: usize = 0;
        while i < self.roles.len()
            invariant
                i <= self.roles.len(),
                *self == *old(self),
                self.wf(),
                forall|j: int| 0 <= j < i ==> (#[trigger] self.roles@[j]).0@ != name@,
            decreases self.roles.len() - i,
        {
            if same_text(self.roles[i].0.as_str(), name.as_str()) {
                let ghost before = self.roles@;
                self.roles.remove(i);
                let ghost without = self.roles@;
                self.roles.push((name, config));
                proof {
                    assert forall|k: int| 0 <= k < without.len() implies (
                    #[trigger] without[k]).0@ != name@ by {
                        if k < i {
                            assert(without[k] == before[k]);
                        } else {
                            assert(without[k] == before[k + 1]);
                            assert(before[i as int].0@ != before[k + 1].0@);
                        }
                    }
                    assert forall|a: int, b: int| 0 <= a < b < without.len() implies (
                    #[trigger] without[a]).0@ != (#[trigger] without[b]).0@ by {
                        let x = if a < i {
                            a
                        } else {
                            a + 1
                        };
                        let y = if b < i {
                            b
                        } else {
                            b + 1
                        };
                        assert(without[a] == before[x] && without[b] == before[y]);
                    }
                    let after = self.roles@;
                    assert forall|other: Seq<char>| other != name@ implies listed_model(
                        after,
                        other,
                        after.len() as int,
                    ) == listed_model(before, other, before.len() as int) by {
                        lemma_listed_without(before, other, i as int, before.len() as int);
                        lemma_listed_same_below(after, without, other, without.len() as int);
                    }
                }
                return ;
            }
            i += 1;
        }
        let ghost before = self.roles@;
        self.roles.push((name, config));
        proof {
            let after = self.roles@;
            assert forall|other: Seq<char>| other != name@ implies listed_model(
                after,
                other,
                after.len() as int,
            ) == listed_model(before, other, before.len() as int) by {
                lemma_listed_same_below(after, before, other, before.len() as int);
            }
        }
    }

    /// The model that the table lists for the role `name`.
    pub open spec fn model_of(&self, name: Seq<char>) -> Option<Seq<char>> {
        listed_model(self.roles@, name, self.roles@.len() as int)
    }

    /// The model that the table resolves `role` to.
    pub open spec fn resolved(&self, role: TaskRole) -> Seq<char> {
        match self.model_of(role.name()) {
            Some(model) => model,
            None => self.default@,
        }
    }
}

/// Taking out an entry of another role changes nothing for the role `name`.
pub proof fn lemma_listed_without(
    entries: Seq<(String, RoleConfig)>,
    name: Seq<char>,
    at: int,
    n: int,
)
    requires
        0 <= at < entries.len(),
        at < n <= entries.len(),
        entries[at].0@ != name,
    ensures
        listed_model(entries.remove(at), name, n - 1) == listed_model(entries, name, n),
    decreases n,
{
    let without = entries.remove(at);
    if n - 1 > at {
        assert(without[n - 2] == entries[n - 1]);
        if entries[n - 1].0@ != name {
            lemma_listed_without(entries, name, at, n - 1);
        }
    } else {
        lemma_listed_same_below(entries, without, name, at);
    }
}

/// Tables that agree on their first `n` entries list the same for a role
/// among those entries.
pub proof fn lemma_listed_same_below(
    a: Seq<(String, RoleConfig)>,
    b: Seq<(String, RoleConfig)>,
    name: Seq<char>,
    n: int,
)
    requires
        0 <= n <= a.len(),
        n <= b.len(),
        forall|k: int| 0 <= k < n ==> a[k] == b[k],
    ensures
        listed_model(a, name, n) == listed_model(b, name, n),
    decreases n,
{
    if n > 0 {
        lemma_listed_same_below(a, b, name, n - 1);
    }
}

/// The model used where a policy names none.
pub fn default_model() -> (r: String)
    ensures
        r@ == "gigachat3"@,
{
    String::from_str("gigachat3")
}

/// The words that mark a coding task in agent mode.
pub open spec fn mentions_coding(msg: Seq<char>) -> bool {
    ||| contains_sub(msg, "refactor"@)
    ||| contains_sub(msg, "diff"@)
    ||| contains_sub(msg, "код"@)
    ||| contains_sub(msg, "code"@)
    ||| contains_sub(msg, "create"@)
    ||| contains_sub(msg, "создай"@)
    ||| contains_sub(msg, "добавь"@)
    ||| contains_sub(msg, "implement"@)
    ||| contains_sub(msg, "исправь"@)
    ||| contains_sub(msg, "fix"@)
}

/// The words that mark a planning task in agent mode.
pub open spec fn mentions_planning(msg: Seq<char>) -> bool {
    ||| contains_sub(msg, "plan"@)
    ||| contains_sub(msg, "план"@)
    ||| contains_sub(msg, "разбей"@)
    ||| contains_sub(msg, "decompose"@)
}

/// The words that mark an analysis task in agent mode.
pub open spec fn mentions_analysis(msg: Seq<char>) -> bool {
    ||| contains_sub(msg, "log"@)
    ||| contains_sub(msg, "trace"@)
    ||| contains_sub(msg, "analyze"@)
}

/// The words that mark a documentation task in agent mode.
pub open spec fn mentions_documentation(msg: Seq<char>) -> bool {
    ||| contains_sub(msg, "doc"@)
    ||| contains_sub(msg, "readme"@)
    ||| contains_sub(msg, "документ"@)
}

/// The role of a task, by mode and by the lower-cased message `msg`.
pub open spec fn role_by_rules(mode: AiMode, msg: Seq<char>) -> TaskRole {
    match mode {
        AiMode::Chat => TaskRole::Chat,
        AiMode::Explain => if contains_sub(msg, "refactor"@) || contains_sub(msg, "рефактор"@) {
            TaskRole::Coding
        } else if contains_sub(msg, "log"@) || contains_sub(msg, "trace"@) || contains_sub(
            msg,
            "stack"@,
        ) {
            TaskRole::Analysis
        } else {
            TaskRole::Chat
        },
        AiMode::Refactor => TaskRole::Coding,
        AiMode::Generate => TaskRole::Coding,
        AiMode::Agent => if mentions_coding(msg) {
            TaskRole::Coding
        } else if mentions_planning(msg) {
            TaskRole::Planning
        } else if mentions_analysis(msg) {
            TaskRole::Analysis
        } else if mentions_documentation(msg) {
            TaskRole::Documentation
        } else {
            TaskRole::Planning
        },
    }
}

/// The role of a task: a function of the mode and the message, and of
/// nothing else.
pub open spec fn classified(mode: AiMode, message: Seq<char>) -> TaskRole {
    role_by_rules(mode, lowercased(message))
}

fn has_word(msg: &Vec<char>, word: &str) -> (r: bool)
    ensures
        r == contains_sub(msg@, word@),
{
    contains(msg, &chars_of(word))
}

/// The rule-based classifier.
pub struct TaskClassifier;

impl TaskClassifier {
    /// Classifies a task by its mode and the words of its message. The same
    /// mode and message always give the same role.
    pub fn classify(mode: AiMode, message: &str) -> (r: TaskRole)
        ensures
            r == classified(mode, message@),
    {
        let lower = lowercase(message);
        let msg = chars_of(lower.as_str());
        match mode {
            AiMode::Chat => TaskRole::Chat,
            AiMode::Explain => {
                if has_word(&msg, "refactor") || has_word(&msg, "рефактор") {
                    TaskRole::Coding
                } else if has_word(&msg, "log") || has_word(&msg, "trace") || has_word(
                    &msg,
                    "stack",
                ) {
                    TaskRole::Analysis
                } else {
                    TaskRole::Chat
                }
            },
            AiMode::Refactor => TaskRole::Coding,
            AiMode::Generate => TaskRole::Coding,
            AiMode::Agent => {
                if has_word(&msg, "refactor") || has_word(&msg, "diff") || has_word(&msg, "код")
                    || has_word(&msg, "code") || has_word(&msg, "create") || has_word(
                    &msg,
                    "создай",
                ) || has_word(&msg, "добавь") || has_word(&msg, "implement") || has_word(
                    &msg,
                    "исправь",
                ) || has_word(&msg, "fix") {
                    TaskRole::Coding
                } else if has_word(&msg, "plan") || has_word(&msg, "план") || has_word(
                    &msg,
                    "разбей",
                ) || has_word(&msg, "decompose") {
                    TaskRole::Planning
                } else if has_word(&msg, "log") || has_word(&msg, "trace") || has_word(
                    &msg,
                    "analyze",
                ) {
                    TaskRole::Analysis
                } else if has_word(&msg, "doc") || has_word(&msg, "readme") || has_word(
                    &msg,
                    "документ",
                ) {
                    TaskRole::Documentation
                } else {
                    TaskRole::Planning
                }
            },
        }
    }
}

/// Resolves a role to a model by a policy table.
pub struct RoleResolver;

impl RoleResolver {
    /// The model that the table lists for the role; the table's default
    /// where the role is not listed.
    pub fn resolve(role: TaskRole, config: &ModelRolesConfig) -> (r: String)
        ensures
            r@ == config.resolved(role),
    {
        let name = role.as_str();
        let mut n: usize = config.roles.len();
        while n > 0
            invariant
                n <= config.roles.len(),
                name@ == role.name(),
                config.model_of(role.name()) == listed_model(config.roles@, role.name(), n as int),
            decreases n,
        {
            if same_text(config.roles[n - 1].0.as_str(), name) {
                return config.roles[n - 1].1.model.clone();
            }
            n -= 1;
        }
        config.default.clone()
    }
}

fn role_entry(role: &str, model: &str, reason: &str) -> (r: (String, RoleConfig))
    ensures
        is_entry(r, role@, model@, reason@),
{
    (
        String::from_str(role),
        RoleConfig { model: String::from_str(model), reason: Some(String::from_str(reason)) },
    )
}

/// The built-in policy table: three roles, each with one of two models
/// and the reason for the choice; every other role goes by the default.
pub open spec fn is_default_table(r: ModelRolesConfig) -> bool {
    &&& r.default@ == "gigachat3"@
    &&& r.roles@.len() == 3
    &&& is_entry(r.roles@[0], "chat"@, "gigachat3"@, "dialog, explanations, legal-safe"@)
    &&& is_entry(r.roles@[1], "coding"@, "deepseek-coder"@, "code generation, refactor, diff"@)
    &&& is_entry(r.roles@[2], "analysis"@, "deepseek-coder"@, "log analysis, stack traces"@)
}

/// An entry of a policy table with the given role, model and reason.
pub open spec fn is_entry(
    entry: (String, RoleConfig),
    role: Seq<char>,
    model: Seq<char>,
    reason: Seq<char>,
) -> bool {
    &&& entry.0@ == role
    &&& entry.1.model@ == model
    &&& (entry.1.reason matches Some(text) && text@ == reason)
}

/// The names of the five roles differ from one another.
pub proof fn lemma_role_names_differ()
    ensures
        forall|a: TaskRole, b: TaskRole| a != b ==> #[trigger] a.name() != #[trigger] b.name(),
{
    reveal_strlit("chat");
    reveal_strlit("coding");
    reveal_strlit("planning");
    reveal_strlit("analysis");
    reveal_strlit("documentation");
    assert forall|a: TaskRole, b: TaskRole| a != b implies #[trigger] a.name() != #[trigger] b.name() by {
        let x = a.name();
        let y = b.name();
        if x.len() == y.len() {
            assert(x[0] != y[0] || x[1] != y[1]);
        }
    }
}

/// What the built-in table resolves each role to: coding and analysis to
/// `deepseek-coder`, every other role to `gigachat3`. No role is listed
/// twice in it.
pub proof fn law_default_table_resolution(table: ModelRolesConfig)
    requires
        is_default_table(table),
    ensures
        table.wf(),
        table.resolved(TaskRole::Chat) == "gigachat3"@,
        table.resolved(TaskRole::Coding) == "deepseek-coder"@,
        table.resolved(TaskRole::Planning) == "gigachat3"@,
        table.resolved(TaskRole::Analysis) == "deepseek-coder"@,
        table.resolved(TaskRole::Documentation) == "gigachat3"@,
{
    lemma_role_names_differ();
    let entries = table.roles@;
    assert(entries[0].0@ == TaskRole::Chat.name());
    assert(entries[1].0@ == TaskRole::Coding.name());
    assert(entries[2].0@ == TaskRole::Analysis.name());
    assert(TaskRole::Chat.name() != TaskRole::Coding.name());
    assert(TaskRole::Chat.name() != TaskRole::Analysis.name());
    assert(TaskRole::Coding.name() != TaskRole::Analysis.name());
    assert(TaskRole::Planning.name() != TaskRole::Chat.name());
    assert(TaskRole::Planning.name() != TaskRole::Coding.name());
    assert(TaskRole::Planning.name() != TaskRole::Analysis.name());
    assert(TaskRole::Documentation.name() != TaskRole::Chat.name());
    assert(TaskRole::Documentation.name() != TaskRole::Coding.name());
    assert(TaskRole::Documentation.name() != TaskRole::Analysis.name());
    reveal_with_fuel(listed_model, 4);
}

/// The policy used where no policy file is found.
pub fn default_model_roles() -> (r: ModelRolesConfig)
    ensures
        is_default_table(r),
        r.wf(),
{
    let mut roles: Vec<(String, RoleConfig)> = Vec::new();
    roles.push(role_entry("chat", "gigachat3", "dialog, explanations, legal-safe"));
    roles.push(role_entry("coding", "deepseek-coder", "code generation, refactor, diff"));
    roles.push(role_entry("analysis", "deepseek-coder", "log analysis, stack traces"));
    let table = ModelRolesConfig { default: default_model(), roles };
    proof {
        law_default_table_resolution(table);
    }
    table
}

/// The first candidate at or after `i` that is present.
pub open spec fn first_present(
    candidates: Seq<Option<ModelRolesConfig>>,
    i: int,
) -> Option<ModelRolesConfig>
    decreases candidates.len() - i,
{
    if i < 0 || i >= candidates.len() {
        None
    } else if candidates[i] is Some {
        candidates[i]
    } else {
        first_present(candidates, i + 1)
    }
}

/// The policy in force. The candidates are what the policy files gave, in
/// the order of their priority, `None` for a file that is missing or cannot
/// be read as a policy. The first present candidate wins; without one, the
/// built-in table is used.
pub fn first_valid_roles(candidates: Vec<Option<ModelRolesConfig>>) -> (r: ModelRolesConfig)
    ensures
        match first_present(candidates@, 0) {
            Some(config) => r == config,
            None => is_default_table(r),
        },
{
    let mut pool = candidates;
    let mut i: usize = 0;
    while i < pool.len()
        invariant
            i <= pool.len(),
            pool@.len() == candidates@.len(),
            first_present(candidates@, 0) == first_present(candidates@, i as int),
            forall|j: int| i <= j < pool@.len() ==> pool@[j] == candidates@[j],
        decreases pool.len() - i,
    {
        if pool[i].is_some() {
            let found = pool.swap_remove(i);
            match found {
                Some(config) => {
                    return config;
                },
                None => {},
            }
        }
        i += 1;
    }
    default_model_roles()
}

} // verus!
