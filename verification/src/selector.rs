//! Provider selection: the role's model where a provider that serves it is
//! available, any available provider otherwise.
//!
//! Whether a provider is available is found out by a probe that only the
//! caller can make. `SelectionRun` says which provider to probe next and
//! takes the answer; `ProviderSelector::select` runs it on a table of
//! answers.

use crate::error::AiRuntimeError;
use crate::orchestration::{classified, ModelRolesConfig, RoleResolver, TaskClassifier, TaskRole};
use crate::providers::{AiMode, ProviderCapabilities, ProviderError};
use crate::text::{opt_text, same_text};
use vstd::prelude::*;
use vstd::string::StringExecFns;

verus! {

/// What a provider says of itself, without being probed.
#[derive(Debug, Clone)]
pub struct ProviderInfo {
    pub id: String,
    pub name: String,
    pub model_id: Option<String>,
    pub capabilities: ProviderCapabilities,
}

impl ProviderInfo {
    /// The model that the provider reports: its model id, or its name
    /// where it has none.
    pub open spec fn reported_model(&self) -> Seq<char> {
        match self.model_id {
            Some(m) => m@,
            None => self.name@,
        }
    }

    /// The provider's model is `target`.
    pub open spec fn has_model(&self, target: Seq<char>) -> bool {
        self.model_id matches Some(m) && m@ == target
    }
}

/// The outcome of a selection. `provider` is the index of the chosen
/// provider in the list that was given.
#[derive(Debug, Clone)]
pub struct ProviderSelection {
    pub provider: usize,
    pub role: TaskRole,
    pub model_id: String,
    pub policy_source: Option<String>,
}

impl ProviderSelection {
    /// The selection names this provider, role, model and source.
    pub open spec fn is(
        &self,
        provider: int,
        role: TaskRole,
        model: Seq<char>,
        source: Seq<char>,
    ) -> bool {
        &&& self.provider == provider
        &&& self.role == role
        &&& self.model_id@ == model
        &&& (self.policy_source matches Some(s) && s@ == source)
    }
}

/// The two passes over the candidates.
#[derive(Debug, Clone, Copy, PartialEq, Eq, Structural)]
pub enum Pass {
    /// Looking for an available provider of the role's model.
    PolicyMatch,
    /// Looking for any available provider.
    Fallback,
}

/// What a probe's answer leads to.
#[derive(Debug)]
pub enum ProbeStep {
    Selected(ProviderSelection),
    Failed(AiRuntimeError),
    Continue,
}

/// Index of the first provider with the given id, at or after `from`.
pub open spec fn index_of_id(providers: Seq<ProviderInfo>, id: Seq<char>, from: int) -> Option<int>
    decreases providers.len() - from,
{
    if from < 0 || from >= providers.len() {
        None
    } else if providers[from].id@ == id {
        Some(from)
    } else {
        index_of_id(providers, id, from + 1)
    }
}

/// The provider that the caller prefers, where it is among those given.
pub open spec fn preferred_index(providers: Seq<ProviderInfo>, preferred: Option<Seq<char>>) -> Option<
    int,
> {
    match preferred {
        Some(id) => index_of_id(providers, id, 0),
        None => None,
    }
}

/// The candidates `0..n` in order, with `front` moved to the first place.
pub open spec fn preferred_first(n: nat, front: Option<int>) -> Seq<usize> {
    match front {
        Some(p) => Seq::new(
            n,
            |k: int|
                if k == 0 {
                    p as usize
                } else if k <= p {
                    (k - 1) as usize
                } else {
                    k as usize
                },
        ),
        None => Seq::new(n, |k: int| k as usize),
    }
}

/// The provider at place `k` of `order` serves `mode`.
pub open spec fn capable_at(
    providers: Seq<ProviderInfo>,
    order: Seq<usize>,
    mode: AiMode,
    k: int,
) -> bool {
    providers[order[k] as int].capabilities.serves(mode)
}

/// The provider at place `k` of `order` serves `mode` and is available.
pub open spec fn usable_at(
    providers: Seq<ProviderInfo>,
    available: Seq<bool>,
    order: Seq<usize>,
    mode: AiMode,
    k: int,
) -> bool {
    capable_at(providers, order, mode, k) && available[order[k] as int]
}

/// The first place at or after `from` whose provider is usable and, where
/// `target` is given, has that model.
pub open spec fn first_usable(
    providers: Seq<ProviderInfo>,
    available: Seq<bool>,
    order: Seq<usize>,
    mode: AiMode,
    target: Option<Seq<char>>,
    from: int,
) -> Option<int>
    decreases order.len() - from,
{
    if from < 0 || from >= order.len() {
        None
    } else if usable_at(providers, available, order, mode, from) && (target matches Some(t)
        ==> providers[order[from] as int].has_model(t)) {
        Some(from)
    } else {
        first_usable(providers, available, order, mode, target, from + 1)
    }
}

/// What a selection owes, given which providers are available: the first
/// usable candidate with the role's model, tagged `model_roles`; without
/// one, the first usable candidate, tagged `fallback`, with the model that
/// it reports; without one, the error `NoProvider`.
pub open spec fn selection_ok(
    providers: Seq<ProviderInfo>,
    available: Seq<bool>,
    order: Seq<usize>,
    mode: AiMode,
    role: TaskRole,
    target: Seq<char>,
    r: Result<ProviderSelection, AiRuntimeError>,
) -> bool {
    match first_usable(providers, available, order, mode, Some(target), 0) {
        Some(k) => r matches Ok(s) && s.is(order[k] as int, role, target, "model_roles"@),
        None => match first_usable(providers, available, order, mode, None, 0) {
            Some(k) => r matches Ok(s) && s.is(
                order[k] as int,
                role,
                providers[order[k] as int].reported_model(),
                "fallback"@,
            ),
            None => r matches Err(e) && e is NoProvider,
        },
    }
}

/// No place in `from..to` holds a provider that is usable and has the
/// model asked for: the search may start at `to` as well.
pub proof fn lemma_first_usable_skip(
    providers: Seq<ProviderInfo>,
    available: Seq<bool>,
    order: Seq<usize>,
    mode: AiMode,
    target: Option<Seq<char>>,
    from: int,
    to: int,
)
    requires
        0 <= from <= to <= order.len(),
        forall|j: int|
            from <= j < to ==> !(usable_at(providers, available, order, mode, j) && (
            target matches Some(t) ==> providers[order[j] as int].has_model(t))),
    ensures
        first_usable(providers, available, order, mode, target, from) == first_usable(
            providers,
            available,
            order,
            mode,
            target,
            to,
        ),
    decreases to - from,
{
    if from < to {
        lemma_first_usable_skip(providers, available, order, mode, target, from + 1, to);
    }
}

/// A place at or after `from` whose provider is usable and has the model
/// asked for is found by the search: the search gives a place at or before it.
pub proof fn lemma_first_usable_finds(
    providers: Seq<ProviderInfo>,
    available: Seq<bool>,
    order: Seq<usize>,
    mode: AiMode,
    target: Option<Seq<char>>,
    from: int,
    k: int,
)
    requires
        0 <= from <= k < order.len(),
        usable_at(providers, available, order, mode, k),
        target matches Some(t) ==> providers[order[k] as int].has_model(t),
    ensures
        first_usable(providers, available, order, mode, target, from) matches Some(at) && from
            <= at <= k,
    decreases k - from,
{
    if from < k {
        if !(usable_at(providers, available, order, mode, from) && (target matches Some(t)
            ==> providers[order[from] as int].has_model(t))) {
            lemma_first_usable_finds(providers, available, order, mode, target, from + 1, k);
        }
    }
}

/// The policy is honoured where it can be: while a candidate that serves
/// the mode and is available has the role's model, the selection is such a
/// candidate, tagged `model_roles`, with the role's model.
pub proof fn law_policy_is_honoured(
    providers: Seq<ProviderInfo>,
    available: Seq<bool>,
    order: Seq<usize>,
    mode: AiMode,
    role: TaskRole,
    target: Seq<char>,
    r: Result<ProviderSelection, AiRuntimeError>,
    k: int,
)
    requires
        selection_ok(providers, available, order, mode, role, target, r),
        0 <= k < order.len(),
        usable_at(providers, available, order, mode, k),
        providers[order[k] as int].has_model(target),
    ensures
        r matches Ok(s) && s.model_id@ == target && (s.policy_source matches Some(source)
            && source@ == "model_roles"@) && providers[s.provider as int].has_model(target),
{
    lemma_first_usable_finds(providers, available, order, mode, Some(target), 0, k);
    lemma_first_usable_is_usable(providers, available, order, mode, Some(target), 0);
}

/// The selection never blocks: while any candidate serves the mode and is
/// available, a provider is selected.
pub proof fn law_selection_makes_progress(
    providers: Seq<ProviderInfo>,
    available: Seq<bool>,
    order: Seq<usize>,
    mode: AiMode,
    role: TaskRole,
    target: Seq<char>,
    r: Result<ProviderSelection, AiRuntimeError>,
    k: int,
)
    requires
        selection_ok(providers, available, order, mode, role, target, r),
        0 <= k < order.len(),
        usable_at(providers, available, order, mode, k),
    ensures
        r is Ok,
{
    lemma_first_usable_finds(providers, available, order, mode, None, 0, k);
}

/// What the search gives is a place of a usable provider with the model
/// asked for.
pub proof fn lemma_first_usable_is_usable(
    providers: Seq<ProviderInfo>,
    available: Seq<bool>,
    order: Seq<usize>,
    mode: AiMode,
    target: Option<Seq<char>>,
    from: int,
)
    requires
        0 <= from,
    ensures
        first_usable(providers, available, order, mode, target, from) matches Some(at) ==> from
            <= at < order.len() && usable_at(providers, available, order, mode, at) && (
        target matches Some(t) ==> providers[order[at] as int].has_model(t)),
    decreases order.len() - from,
{
    if from < order.len() {
        if !(usable_at(providers, available, order, mode, from) && (target matches Some(t)
            ==> providers[order[from] as int].has_model(t))) {
            lemma_first_usable_is_usable(providers, available, order, mode, target, from + 1);
        }
    }
}

/// One selection in progress: which pass it is in, and which candidate
/// comes next.
#[derive(Debug)]
pub struct SelectionRun {
    pub mode: AiMode,
    pub role: TaskRole,
    pub target_model: String,
    pub order: Vec<usize>,
    pub pass: Pass,
    pub pos: usize,
}

impl SelectionRun {
    /// The run speaks of providers that exist, and its place is within the
    /// candidates.
    pub open spec fn wf(&self, providers: Seq<ProviderInfo>) -> bool {
        &&& self.pos <= self.order@.len()
        &&& forall|k: int| 0 <= k < self.order@.len() ==> self.order@[k] < providers.len()
    }

    /// Tests whether the run speaks of providers that exist, with its
    /// place within the candidates.
    pub fn is_well_formed(&self, providers: &Vec<ProviderInfo>) -> (r: bool)
        ensures
            r == self.wf(providers@),
    {
        if self.pos > self.order.len() {
            return false;
        }
        let mut k: usize = 0;
        while k < self.order.len()
            invariant
                k <= self.order.len(),
                self.pos <= self.order@.len(),
                forall|j: int| 0 <= j < k ==> self.order@[j] < providers@.len(),
            decreases self.order.len() - k,
        {
            if self.order[k] >= providers.len() {
                return false;
            }
            k += 1;
        }
        true
    }

    /// Nothing but the pass and the place differs between the two runs.
    pub open spec fn same_task(&self, other: &SelectionRun) -> bool {
        &&& self.mode == other.mode
        &&& self.role == other.role
        &&& self.target_model@ == other.target_model@
        &&& self.order@ == other.order@
    }

    /// Moves to the next candidate that serves the mode, into the second
    /// pass where the first is through, and returns the provider to probe.
    /// `None` says that both passes are through: there is no provider.
    pub fn next_probe(&mut self, providers: &Vec<ProviderInfo>) -> (r: Option<usize>)
        requires
            old(self).wf(providers@),
        ensures
            final(self).wf(providers@),
            final(self).same_task(old(self)),
            match r {
                Some(idx) => {
                    &&& final(self).pos < final(self).order@.len()
                    &&& idx == final(self).order@[final(self).pos as int]
                    &&& capable_at(
                        providers@,
                        final(self).order@,
                        final(self).mode,
                        final(self).pos as int,
                    )
                    &&& if final(self).pass == old(self).pass {
                        &&& old(self).pos <= final(self).pos
                        &&& forall|j: int|
                            old(self).pos <= j < final(self).pos ==> !capable_at(
                                providers@,
                                old(self).order@,
                                old(self).mode,
                                j,
                            )
                    } else {
                        &&& old(self).pass == Pass::PolicyMatch
                        &&& final(self).pass == Pass::Fallback
                        &&& forall|j: int|
                            old(self).pos <= j < old(self).order@.len() ==> !capable_at(
                                providers@,
                                old(self).order@,
                                old(self).mode,
                                j,
                            )
                        &&& forall|j: int|
                            0 <= j < final(self).pos ==> !capable_at(
                                providers@,
                                old(self).order@,
                                old(self).mode,
                                j,
                            )
                    }
                },
                None => {
                    &&& final(self).pass == Pass::Fallback
                    &&& final(self).pos == final(self).order@.len()
                    &&& forall|j: int|
                        old(self).pos <= j < old(self).order@.len() ==> !capable_at(
                            providers@,
                            old(self).order@,
                            old(self).mode,
                            j,
                        )
                    &&& old(self).pass == Pass::PolicyMatch ==> forall|j: int|
                        0 <= j < old(self).order@.len() ==> !capable_at(
                            providers@,
                            old(self).order@,
                            old(self).mode,
                            j,
                        )
                },
            },
    {
        let ghost start = self.pos;
        while self.pos < self.order.len()
            invariant
                self.wf(providers@),
                self.same_task(old(self)),
                self.pass == old(self).pass,
                start <= self.pos,
                start == old(self).pos,
                forall|j: int|
                    start <= j < self.pos ==> !capable_at(providers@, self.order@, self.mode, j),
            decreases self.order.len() - self.pos,
        {
            if providers[self.order[self.pos]].capabilities.supports(self.mode) {
                return Some(self.order[self.pos]);
            }
            self.pos = self.pos + 1;
        }
        if self.pass == Pass::Fallback {
            return None;
        }
        self.pass = Pass::Fallback;
        self.pos = 0;
        while self.pos < self.order.len()
            invariant
                self.wf(providers@),
                self.same_task(old(self)),
                self.pass == Pass::Fallback,
                old(self).pass == Pass::PolicyMatch,
                forall|j: int|
                    old(self).pos <= j < self.order@.len() ==> !capable_at(
                        providers@,
                        self.order@,
                        self.mode,
                        j,
                    ),
                forall|j: int|
                    0 <= j < self.pos ==> !capable_at(providers@, self.order@, self.mode, j),
            decreases self.order.len() - self.pos,
        {
            if providers[self.order[self.pos]].capabilities.supports(self.mode) {
                return Some(self.order[self.pos]);
            }
            self.pos = self.pos + 1;
        }
        None
    }

    /// Takes the answer of the probe of the current candidate. A failed
    /// probe ends the selection with its error. An available provider is
    /// selected in the first pass where it has the role's model, and in
    /// the second pass in any case. Otherwise the next candidate is due.
    pub fn on_probe(&mut self, providers: &Vec<ProviderInfo>, answer: Result<bool, ProviderError>) -> (r:
        ProbeStep)
        requires
            old(self).wf(providers@),
            old(self).pos < old(self).order@.len(),
        ensures
            final(self).wf(providers@),
            final(self).same_task(old(self)),
            final(self).pass == old(self).pass,
            ({
                let idx = old(self).order@[old(self).pos as int] as int;
                let target = old(self).target_model@;
                match answer {
                    Err(e) => r matches ProbeStep::Failed(AiRuntimeError::Provider(inner))
                        && inner == e && final(self).pos == old(self).pos,
                    Ok(false) => r is Continue && final(self).pos == old(self).pos + 1,
                    Ok(true) => if old(self).pass == Pass::PolicyMatch {
                        if providers@[idx].has_model(target) {
                            &&& r matches ProbeStep::Selected(s) && s.is(
                                idx,
                                old(self).role,
                                target,
                                "model_roles"@,
                            )
                            &&& final(self).pos == old(self).pos
                        } else {
                            r is Continue && final(self).pos == old(self).pos + 1
                        }
                    } else {
                        &&& r matches ProbeStep::Selected(s) && s.is(
                            idx,
                            old(self).role,
                            providers@[idx].reported_model(),
                            "fallback"@,
                        )
                        &&& final(self).pos == old(self).pos
                    },
                }
            }),
    {
        assert(self.pos < self.order.len());
        let idx = self.order[self.pos];
        let available = match answer {
            Err(e) => {
                return ProbeStep::Failed(AiRuntimeError::Provider(e));
            },
            Ok(a) => a,
        };
        if !available {
            self.pos = self.pos + 1;
            return ProbeStep::Continue;
        }
        let provider = &providers[idx];
        match self.pass {
            Pass::PolicyMatch => {
                let hit = match &provider.model_id {
                    Some(m) => same_text(m.as_str(), self.target_model.as_str()),
                    None => false,
                };
                if hit {
                    ProbeStep::Selected(
                        ProviderSelection {
                            provider: idx,
                            role: self.role,
                            model_id: self.target_model.clone(),
                            policy_source: Some(String::from_str("model_roles")),
                        },
                    )
                } else {
                    self.pos = self.pos + 1;
                    ProbeStep::Continue
                }
            },
            Pass::Fallback => {
                let model_id = match &provider.model_id {
                    Some(m) => m.clone(),
                    None => provider.name.clone(),
                };
                ProbeStep::Selected(
                    ProviderSelection {
                        provider: idx,
                        role: self.role,
                        model_id,
                        policy_source: Some(String::from_str("fallback")),
                    },
                )
            },
        }
    }
}

/// Selects a provider by role.
pub struct ProviderSelector;

impl ProviderSelector {
    /// Index of the first provider with the given id.
    pub fn position_of(providers: &Vec<ProviderInfo>, id: &str) -> (r: Option<usize>)
        ensures
            match r {
                Some(p) => index_of_id(providers@, id@, 0) == Some(p as int) && p
                    < providers@.len(),
                None => index_of_id(providers@, id@, 0) is None,
            },
    {
        let mut i: usize = 0;
        while i < providers.len()
            invariant
                i <= providers.len(),
                index_of_id(providers@, id@, 0) == index_of_id(providers@, id@, i as int),
            decreases providers.len() - i,
        {
            if same_text(providers[i].id.as_str(), id) {
                return Some(i);
            }
            i += 1;
        }
        None
    }

    /// The order in which candidates are tried: all providers as given,
    /// with the preferred one, where it is among them, moved to the front.
    pub fn candidate_order(providers: &Vec<ProviderInfo>, preferred_id: Option<&str>) -> (r: Vec<
        usize,
    >)
        ensures
            r@ == preferred_first(
                providers@.len(),
                preferred_index(providers@, opt_text(preferred_id)),
            ),
            forall|k: int| 0 <= k < r@.len() ==> r@[k] < providers@.len(),
    {
        let n = providers.len();
        let front: Option<usize> = match preferred_id {
            Some(id) => Self::position_of(providers, id),
            None => None,
        };
        let ghost model = preferred_first(
            providers@.len(),
            preferred_index(providers@, opt_text(preferred_id)),
        );
        let mut order: Vec<usize> = Vec::new();
        let mut k: usize = 0;
        while k < n
            invariant
                k <= n,
                n == providers@.len(),
                model.len() == n,
                order@.len() == k,
                match front {
                    Some(p) => preferred_index(providers@, opt_text(preferred_id)) == Some(
                        p as int,
                    ) && p < n,
                    None => preferred_index(providers@, opt_text(preferred_id)) is None,
                },
                model == preferred_first(
                    providers@.len(),
                    preferred_index(providers@, opt_text(preferred_id)),
                ),
                forall|j: int| 0 <= j < k ==> order@[j] == model[j] && order@[j] < n,
            decreases n - k,
        {
            let item: usize = match front {
                Some(p) => if k == 0 {
                    p
                } else if k <= p {
                    k - 1
                } else {
                    k
                },
                None => k,
            };
            order.push(item);
            k += 1;
        }
        proof {
            assert(order@ =~= model);
        }
        order
    }

    /// Starts a selection: classifies the task, resolves the role to its
    /// model and fixes the order of the candidates.
    pub fn begin(
        providers: &Vec<ProviderInfo>,
        mode: AiMode,
        user_message: &str,
        preferred_id: Option<&str>,
        config: &ModelRolesConfig,
    ) -> (r: SelectionRun)
        ensures
            r.wf(providers@),
            r.mode == mode,
            r.role == classified(mode, user_message@),
            r.target_model@ == config.resolved(r.role),
            r.order@ == preferred_first(
                providers@.len(),
                preferred_index(providers@, opt_text(preferred_id)),
            ),
            r.pass == Pass::PolicyMatch,
            r.pos == 0,
    {
        let role = TaskClassifier::classify(mode, user_message);
        let target_model = RoleResolver::resolve(role, config);
        let order = Self::candidate_order(providers, preferred_id);
        SelectionRun { mode, role, target_model, order, pass: Pass::PolicyMatch, pos: 0 }
    }

    /// Selects a provider, given for each provider whether it is available.
    pub fn select(
        providers: &Vec<ProviderInfo>,
        available: &Vec<bool>,
        mode: AiMode,
        user_message: &str,
        preferred_id: Option<&str>,
        config: &ModelRolesConfig,
    ) -> (r: Result<ProviderSelection, AiRuntimeError>)
        requires
            available@.len() == providers@.len(),
        ensures
            selection_ok(
                providers@,
                available@,
                preferred_first(
                    providers@.len(),
                    preferred_index(providers@, opt_text(preferred_id)),
                ),
                mode,
                classified(mode, user_message@),
                config.resolved(classified(mode, user_message@)),
                r,
            ),
    {
        let mut run = Self::begin(providers, mode, user_message, preferred_id, config);
        let ghost order = run.order@;
        let ghost target = run.target_model@;
        let ghost role = run.role;
        loop
            invariant
                available@.len() == providers@.len(),
                run.wf(providers@),
                run.order@ == order,
                run.target_model@ == target,
                run.role == role,
                run.mode == mode,
                order == preferred_first(
                    providers@.len(),
                    preferred_index(providers@, opt_text(preferred_id)),
                ),
                role == classified(mode, user_message@),
                target == config.resolved(role),
                run.pass == Pass::PolicyMatch ==> first_usable(
                    providers@,
                    available@,
                    order,
                    mode,
                    Some(target),
                    0,
                ) == first_usable(providers@, available@, order, mode, Some(target), run.pos as int),
                run.pass == Pass::Fallback ==> first_usable(
                    providers@,
                    available@,
                    order,
                    mode,
                    Some(target),
                    0,
                ) is None && first_usable(providers@, available@, order, mode, None, 0)
                    == first_usable(providers@, available@, order, mode, None, run.pos as int),
            decreases
                    (if run.pass == Pass::PolicyMatch {
                        order.len() + 1
                    } else {
                        0
                    }) + order.len() - run.pos,
        {
            let ghost before = run;
            let idx = match run.next_probe(providers) {
                Some(idx) => idx,
                None => {
                    proof {
                        let n = order.len() as int;
                        if before.pass == Pass::PolicyMatch {
                            lemma_first_usable_skip(
                                providers@,
                                available@,
                                order,
                                mode,
                                Some(target),
                                0,
                                n,
                            );
                            lemma_first_usable_skip(providers@, available@, order, mode, None, 0, n);
                        } else {
                            lemma_first_usable_skip(
                                providers@,
                                available@,
                                order,
                                mode,
                                None,
                                before.pos as int,
                                n,
                            );
                        }
                    }
                    return Err(AiRuntimeError::NoProvider);
                },
            };
            proof {
                let n = order.len() as int;
                if run.pass == before.pass {
                    if run.pass == Pass::PolicyMatch {
                        lemma_first_usable_skip(
                            providers@,
                            available@,
                            order,
                            mode,
                            Some(target),
                            before.pos as int,
                            run.pos as int,
                        );
                    } else {
                        lemma_first_usable_skip(
                            providers@,
                            available@,
                            order,
                            mode,
                            None,
                            before.pos as int,
                            run.pos as int,
                        );
                    }
                } else {
                    lemma_first_usable_skip(
                        providers@,
                        available@,
                        order,
                        mode,
                        Some(target),
                        before.pos as int,
                        n,
                    );
                    lemma_first_usable_skip(
                        providers@,
                        available@,
                        order,
                        mode,
                        None,
                        0,
                        run.pos as int,
                    );
                }
            }
            let ghost at = run.pos as int;
            match run.on_probe(providers, Ok(available[idx])) {
                ProbeStep::Selected(selection) => {
                    return Ok(selection);
                },
                ProbeStep::Failed(e) => {
                    return Err(e);
                },
                ProbeStep::Continue => {
                    proof {
                        if run.pass == Pass::PolicyMatch {
                            lemma_first_usable_skip(
                                providers@,
                                available@,
                                order,
                                mode,
                                Some(target),
                                at,
                                at + 1,
                            );
                        } else {
                            lemma_first_usable_skip(
                                providers@,
                                available@,
                                order,
                                mode,
                                None,
                                at,
                                at + 1,
                            );
                        }
                    }
                },
            }
        }
    }

    /// Starts a selection without regard to roles: any available candidate
    /// that serves the mode will do, so the run is in its second pass from
    /// the start. It carries the role `Chat` and no model.
    pub fn begin_legacy(providers: &Vec<ProviderInfo>, mode: AiMode, preferred_id: Option<&str>) -> (r:
        SelectionRun)
        ensures
            r.wf(providers@),
            r.mode == mode,
            r.role == TaskRole::Chat,
            r.target_model@.len() == 0,
            r.order@ == preferred_first(
                providers@.len(),
                preferred_index(providers@, opt_text(preferred_id)),
            ),
            r.pass == Pass::Fallback,
            r.pos == 0,
    {
        let order = Self::candidate_order(providers, preferred_id);
        SelectionRun {
            mode,
            role: TaskRole::Chat,
            target_model: String::new(),
            order,
            pass: Pass::Fallback,
            pos: 0,
        }
    }

    /// Selects the first available candidate that serves the mode, without
    /// regard to roles, given for each provider whether it is available.
    pub fn select_legacy(
        providers: &Vec<ProviderInfo>,
        available: &Vec<bool>,
        mode: AiMode,
        preferred_id: Option<&str>,
    ) -> (r: Result<usize, AiRuntimeError>)
        requires
            available@.len() == providers@.len(),
        ensures
            ({
                let order = preferred_first(
                    providers@.len(),
                    preferred_index(providers@, opt_text(preferred_id)),
                );
                match first_usable(providers@, available@, order, mode, None, 0) {
                    Some(k) => r == Ok::<usize, AiRuntimeError>(order[k]),
                    None => r matches Err(e) && e is NoProvider,
                }
            }),
    {
        let mut run = Self::begin_legacy(providers, mode, preferred_id);
        let ghost order = run.order@;
        loop
            invariant
                available@.len() == providers@.len(),
                run.wf(providers@),
                run.order@ == order,
                run.mode == mode,
                run.pass == Pass::Fallback,
                order == preferred_first(
                    providers@.len(),
                    preferred_index(providers@, opt_text(preferred_id)),
                ),
                first_usable(providers@, available@, order, mode, None, 0) == first_usable(
                    providers@,
                    available@,
                    order,
                    mode,
                    None,
                    run.pos as int,
                ),
            decreases order.len() - run.pos,
        {
            let ghost before = run;
            let idx = match run.next_probe(providers) {
                Some(idx) => idx,
                None => {
                    proof {
                        lemma_first_usable_skip(
                            providers@,
                            available@,
                            order,
                            mode,
                            None,
                            before.pos as int,
                            order.len() as int,
                        );
                    }
                    return Err(AiRuntimeError::NoProvider);
                },
            };
            proof {
                lemma_first_usable_skip(
                    providers@,
                    available@,
                    order,
                    mode,
                    None,
                    before.pos as int,
                    run.pos as int,
                );
            }
            let ghost at = run.pos as int;
            match run.on_probe(providers, Ok(available[idx])) {
                ProbeStep::Selected(selection) => {
                    return Ok(selection.provider);
                },
                ProbeStep::Failed(e) => {
                    return Err(e);
                },
                ProbeStep::Continue => {
                    proof {
                        lemma_first_usable_skip(
                            providers@,
                            available@,
                            order,
                            mode,
                            None,
                            at,
                            at + 1,
                        );
                    }
                },
            }
        }
    }
}

} // verus!
