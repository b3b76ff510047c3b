//! Rewrites the workflow-state names of a filter expression to the spelling
//! that the service uses.
//!
//! A view's author may type a state name in any case. The service matches
//! names exactly, so before a filter is sent each name is replaced by the
//! canonical name that equals it when both are lowercased.

use crate::filter::{
    FilterClause, FilterClauseView, FilterExpr, FilterExprView, StateNames, StateNamesView,
};
use crate::search::{first_true, first_true_below, lemma_first_true, lemma_first_true_found};
use crate::seqs::{lemma_deep_view_push, lemma_deep_view_update};
use crate::text::{lowercase, to_lowercase};
use crate::types::{WorkflowState, WorkflowStateView};
use vstd::prelude::*;

verus! {

/// A state name of a filter that no workflow state of the service matches.
#[derive(Debug, Clone, Copy, PartialEq, Eq, Structural)]
pub struct UnknownState {
    /// Where the name stands in the predicate's list.
    pub position: usize,
}

/// For each element of `hay`, whether it equals `needle`.
pub open spec fn matches_of(hay: Seq<Seq<char>>, needle: Seq<char>) -> Seq<bool> {
    hay.map_values(|h: Seq<char>| h == needle)
}

/// The first index at which `hay` holds `needle`.
pub open spec fn position(hay: Seq<Seq<char>>, needle: Seq<char>) -> Option<int> {
    first_true(matches_of(hay, needle))
}

/// The lowercased names of the workflow states, in order.
pub open spec fn folded_names(states: Seq<WorkflowStateView>) -> Seq<Seq<char>> {
    states.map_values(|s: WorkflowStateView| lowercase(s.name))
}

/// The first workflow state whose name equals `value` when both are lowercased.
pub open spec fn canonical_index(value: Seq<char>, states: Seq<WorkflowStateView>) -> Option<int> {
    position(folded_names(states), lowercase(value))
}

/// The service's spelling of `value`, if the service knows such a state.
pub open spec fn canonical_name(value: Seq<char>, states: Seq<WorkflowStateView>) -> Option<
    Seq<char>,
> {
    match canonical_index(value, states) {
        Some(i) => Some(states[i].name),
        None => None,
    }
}

/// For each value, whether it names no known state.
pub open spec fn unknown_of(values: Seq<Seq<char>>, states: Seq<WorkflowStateView>) -> Seq<bool> {
    values.map_values(|v: Seq<char>| canonical_name(v, states) is None)
}

/// The canonical spelling of each value, or the position of the first value
/// that names no known state.
pub open spec fn canonical_names(values: Seq<Seq<char>>, states: Seq<WorkflowStateView>) -> Result<
    Seq<Seq<char>>,
    int,
> {
    match first_true(unknown_of(values, states)) {
        Some(k) => Err(k),
        None => Ok(values.map_values(|v: Seq<char>| canonical_name(v, states).unwrap())),
    }
}

/// For each predicate, whether it is one on the workflow state.
pub open spec fn state_clauses_of(clauses: Seq<FilterClauseView>) -> Seq<bool> {
    clauses.map_values(|c: FilterClauseView| c is State)
}

/// The first predicate on the workflow state.
pub open spec fn state_clause(clauses: Seq<FilterClauseView>) -> Option<int> {
    first_true(state_clauses_of(clauses))
}

/// The names of a predicate in canonical spelling; a predicate that lists no
/// names stays as it is.
pub open spec fn normalized_names(names: StateNamesView, states: Seq<WorkflowStateView>) -> Result<
    StateNamesView,
    int,
> {
    match names {
        StateNamesView::In(values) => match canonical_names(values, states) {
            Ok(canon) => Ok(StateNamesView::In(canon)),
            Err(k) => Err(k),
        },
        StateNamesView::NotIn(values) => match canonical_names(values, states) {
            Ok(canon) => Ok(StateNamesView::NotIn(canon)),
            Err(k) => Err(k),
        },
        StateNamesView::Neither => Ok(StateNamesView::Neither),
    }
}

/// The filter with the names of its first state predicate in canonical
/// spelling and everything else untouched, or the position of the first name
/// that the service does not know.
pub open spec fn normalized(filter: FilterExprView, states: Seq<WorkflowStateView>) -> Result<
    FilterExprView,
    int,
> {
    match state_clause(filter.and) {
        None => Ok(filter),
        Some(at) => match filter.and[at] {
            FilterClauseView::State { names, rest } => match normalized_names(names, states) {
                Ok(canon) => Ok(
                    FilterExprView {
                        and: filter.and.update(at, FilterClauseView::State { names: canon, rest }),
                    },
                ),
                Err(k) => Err(k),
            },
            FilterClauseView::Other(_) => Ok(filter),
        },
    }
}

/// The names that a predicate lists.
pub open spec fn listed(names: StateNamesView) -> Seq<Seq<char>> {
    match names {
        StateNamesView::In(values) => values,
        StateNamesView::NotIn(values) => values,
        StateNamesView::Neither => Seq::empty(),
    }
}

/// Whether a workflow state has this name but for the case of its letters.
pub open spec fn spells(state: WorkflowStateView, value: Seq<char>) -> bool {
    lowercase(state.name) == lowercase(value)
}

/// A value has a canonical name exactly if some workflow state has its name
/// but for case; the canonical name is the name of the first such state.
pub proof fn lemma_canonical_name(value: Seq<char>, states: Seq<WorkflowStateView>)
    ensures
        match canonical_name(value, states) {
            Some(name) => exists|j: int|
                0 <= j < states.len() && spells(#[trigger] states[j], value) && states[j].name
                    == name && forall|i: int| 0 <= i < j ==> !spells(#[trigger] states[i], value),
            None => forall|j: int| 0 <= j < states.len() ==> !spells(#[trigger] states[j], value),
        },
{
    let hits = matches_of(folded_names(states), lowercase(value));
    lemma_first_true(hits);
    match first_true(hits) {
        Some(first) => {
            assert(spells(states[first], value));
            assert forall|i: int| 0 <= i < first implies !spells(#[trigger] states[i], value) by {
                assert(!hits[i]);
            }
        },
        None => {
            assert forall|j: int| 0 <= j < states.len() implies !spells(
                #[trigger] states[j],
                value,
            ) by {
                assert(!hits[j]);
            }
        },
    }
}

/// What normalization does to a filter.
///
/// If it succeeds, the filter has as many predicates as before and all but
/// the first predicate on the workflow state are untouched. In that one the
/// rest is untouched and the list is of the same kind and length; each of
/// its names is now the name of a workflow state that equals the old name
/// but for case. If it fails, it names a value of that list that no workflow
/// state equals but for case.
pub proof fn lemma_normalized(filter: FilterExprView, states: Seq<WorkflowStateView>)
    ensures
        match normalized(filter, states) {
            Ok(out) => {
                &&& out.and.len() == filter.and.len()
                &&& forall|i: int|
                    0 <= i < filter.and.len() && state_clause(filter.and) != Some(i)
                        ==> #[trigger] out.and[i] == filter.and[i]
                &&& state_clause(filter.and) matches Some(at) ==> {
                    &&& 0 <= at < filter.and.len()
                    &&& filter.and[at] matches FilterClauseView::State { names, rest }
                    &&& out.and[at] matches FilterClauseView::State { names: canon, rest: kept }
                    &&& kept == rest
                    &&& canon is In <==> names is In
                    &&& canon is NotIn <==> names is NotIn
                    &&& listed(canon).len() == listed(names).len()
                    &&& forall|k: int|
                        0 <= k < listed(names).len() ==> canonical_name(listed(names)[k], states)
                            == Some(#[trigger] listed(canon)[k])
                }
            },
            Err(k) => {
                &&& state_clause(filter.and) matches Some(at)
                &&& 0 <= at < filter.and.len()
                &&& filter.and[at] matches FilterClauseView::State { names, rest }
                &&& 0 <= k < listed(names).len()
                &&& canonical_name(listed(names)[k], states) is None
                &&& forall|j: int| 0 <= j < k ==> canonical_name(
                    #[trigger] listed(names)[j],
                    states,
                ) is Some
            },
        },
{
    lemma_first_true(state_clauses_of(filter.and));
    match state_clause(filter.and) {
        Some(at) => {
            match filter.and[at] {
                FilterClauseView::State { names, rest } => {
                    let values = listed(names);
                    let unknown = unknown_of(values, states);
                    lemma_first_true(unknown);
                    if names !is Neither {
                        match first_true(unknown) {
                            Some(k) => {
                                assert forall|j: int| 0 <= j < k implies canonical_name(
                                    #[trigger] values[j],
                                    states,
                                ) is Some by {
                                    assert(!unknown[j]);
                                }
                            },
                            None => {
                                assert forall|k: int| 0 <= k < values.len() implies canonical_name(
                                    values[k],
                                    states,
                                ) is Some by {
                                    assert(!unknown[k]);
                                }
                            },
                        }
                    }
                },
                FilterClauseView::Other(_) => {},
            }
        },
        None => {},
    }
}

/// Finds the first element of `hay` that equals `needle`.
pub fn find_position(hay: &Vec<String>, needle: &String) -> (res: Option<usize>)
    ensures
        match res {
            Some(i) => i < hay.len() && position(hay.deep_view(), needle@) == Some(i as int),
            None => position(hay.deep_view(), needle@) is None,
        },
{
    let ghost hits = matches_of(hay.deep_view(), needle@);
    let mut i: usize = 0;
    while i < hay.len()
        invariant
            i <= hay.len(),
            hits == matches_of(hay.deep_view(), needle@),
            first_true_below(hits, i as int) is None,
        decreases hay.len() - i,
    {
        if hay[i] == *needle {
            proof {
                lemma_first_true_found(hits, i as int, hits.len() as int);
            }
            return Some(i);
        }
        i += 1;
    }
    None
}

/// Lowercases the name of every workflow state.
pub fn fold_names(states: &Vec<WorkflowState>) -> (res: Vec<String>)
    ensures
        res.deep_view() == folded_names(states.deep_view()),
{
    let mut out: Vec<String> = Vec::new();
    let mut i: usize = 0;
    while i < states.len()
        invariant
            i <= states.len(),
            out.deep_view() == folded_names(states.deep_view()).take(i as int),
        decreases states.len() - i,
    {
        let ghost before = out;
        let folded = to_lowercase(states[i].name.as_str());
        out.push(folded);
        proof {
            lemma_deep_view_push(before, out, folded);
            assert(out.deep_view() =~= folded_names(states.deep_view()).take(i + 1));
        }
        i += 1;
    }
    assert(folded_names(states.deep_view()).take(states.len() as int) =~= folded_names(
        states.deep_view(),
    ));
    out
}

/// Replaces each value by the name of the first workflow state that equals
/// it when both are lowercased.
pub fn canonicalize(values: &Vec<String>, states: &Vec<WorkflowState>) -> (res: Result<
    Vec<String>,
    UnknownState,
>)
    ensures
        match res {
            Ok(canon) => canonical_names(values.deep_view(), states.deep_view()) == Ok::<
                Seq<Seq<char>>,
                int,
            >(canon.deep_view()),
            Err(e) => canonical_names(values.deep_view(), states.deep_view()) == Err::<
                Seq<Seq<char>>,
                int,
            >(e.position as int),
        },
{
    let folded = fold_names(states);
    let ghost unknown = unknown_of(values.deep_view(), states.deep_view());
    let mut out: Vec<String> = Vec::new();
    let mut k: usize = 0;
    while k < values.len()
        invariant
            k <= values.len(),
            folded.deep_view() == folded_names(states.deep_view()),
            unknown == unknown_of(values.deep_view(), states.deep_view()),
            first_true_below(unknown, k as int) is None,
            out@.len() == k,
            forall|j: int|
                0 <= j < k ==> Some(#[trigger] out@[j]@) == canonical_name(
                    values.deep_view()[j],
                    states.deep_view(),
                ),
        decreases values.len() - k,
    {
        let needle = to_lowercase(values[k].as_str());
        match find_position(&folded, &needle) {
            Some(i) => {
                out.push(states[i].name.clone());
            },
            None => {
                proof {
                    lemma_first_true_found(unknown, k as int, unknown.len() as int);
                }
                return Err(UnknownState { position: k });
            },
        }
        k += 1;
    }
    assert(out.deep_view() =~= values.deep_view().map_values(
        |v: Seq<char>| canonical_name(v, states.deep_view()).unwrap(),
    ));
    Ok(out)
}

/// Finds the first predicate on the workflow state.
pub fn find_state_clause(filter: &FilterExpr) -> (res: Option<usize>)
    ensures
        match res {
            Some(i) => {
                &&& i < filter.and.len()
                &&& filter@.and[i as int] is State
                &&& state_clause(filter@.and) == Some(i as int)
            },
            None => state_clause(filter@.and) is None,
        },
{
    let ghost hits = state_clauses_of(filter@.and);
    let mut i: usize = 0;
    while i < filter.and.len()
        invariant
            i <= filter.and.len(),
            hits == state_clauses_of(filter@.and),
            first_true_below(hits, i as int) is None,
        decreases filter.and.len() - i,
    {
        match &filter.and[i] {
            FilterClause::State { .. } => {
                proof {
                    lemma_first_true_found(hits, i as int, hits.len() as int);
                }
                return Some(i);
            },
            FilterClause::Other(_) => {},
        }
        i += 1;
    }
    None
}

/// Puts the names of a predicate into canonical spelling.
pub fn normalize_names(names: &StateNames, states: &Vec<WorkflowState>) -> (res: Result<
    StateNames,
    UnknownState,
>)
    ensures
        match res {
            Ok(canon) => normalized_names(names@, states.deep_view()) == Ok::<StateNamesView, int>(
                canon@,
            ),
            Err(e) => normalized_names(names@, states.deep_view()) == Err::<StateNamesView, int>(
                e.position as int,
            ),
        },
{
    match names {
        StateNames::In(values) => match canonicalize(values, states) {
            Ok(canon) => Ok(StateNames::In(canon)),
            Err(e) => Err(e),
        },
        StateNames::NotIn(values) => match canonicalize(values, states) {
            Ok(canon) => Ok(StateNames::NotIn(canon)),
            Err(e) => Err(e),
        },
        StateNames::Neither => Ok(StateNames::Neither),
    }
}

/// Rewrites the state names of `filter` to the spelling of `states`.
///
/// Only the first predicate on the workflow state is looked at. On an
/// unknown name the filter is left as it was.
pub fn normalize_state_filter(filter: &mut FilterExpr, states: &Vec<WorkflowState>) -> (res: Result<
    (),
    UnknownState,
>)
    ensures
        match res {
            Ok(()) => normalized(old(filter)@, states.deep_view()) == Ok::<FilterExprView, int>(
                final(filter)@,
            ),
            Err(e) => {
                &&& normalized(old(filter)@, states.deep_view()) == Err::<FilterExprView, int>(
                    e.position as int,
                )
                &&& final(filter)@ == old(filter)@
            },
        },
{
    let at = match find_state_clause(filter) {
        Some(at) => at,
        None => {
            return Ok(());
        },
    };
    let replacement = match &filter.and[at] {
        FilterClause::State { names, rest } => {
            match normalize_names(names, states) {
                Ok(canon) => FilterClause::State { names: canon, rest: rest.clone() },
                Err(e) => {
                    return Err(e);
                },
            }
        },
        FilterClause::Other(_) => {
            return Ok(());
        },
    };
    let ghost before = filter.and;
    filter.and.set(at, replacement);
    proof {
        lemma_deep_view_update(before, filter.and, at as int, replacement);
    }
    Ok(())
}

/// The workflow states that the service knows, loaded once and kept.
///
/// Whoever needs the list asks `begin_load` first. Only one asker at a time
/// is told to load, and nobody is once the list is there.
#[derive(Debug, PartialEq, Eq)]
pub struct WorkflowStateCache {
    /// The list, once it is loaded.
    pub states: Option<Vec<WorkflowState>>,
    /// Whether a load is under way.
    pub loading: bool,
}

/// The view of [`WorkflowStateCache`]: what it holds, as mathematical values.
pub struct StateCacheView {
    pub states: Option<Seq<WorkflowStateView>>,
    pub loading: bool,
}

impl StateCacheView {
    /// Whether an asker is told to load the list: nothing is kept yet and
    /// nobody else is loading.
    pub open spec fn wants_load(self) -> bool {
        self.states is None && !self.loading
    }

    /// The cache after an asker was told whether to load.
    pub open spec fn begin_load(self) -> StateCacheView {
        if self.wants_load() {
            StateCacheView { loading: true, ..self }
        } else {
            self
        }
    }

    /// The cache after a load came to its end: the guard is given back, and
    /// the list is kept if it came and none was kept before.
    pub open spec fn finish_load(self, loaded: Option<Seq<WorkflowStateView>>) -> StateCacheView {
        StateCacheView {
            states: match self.states {
                Some(kept) => Some(kept),
                None => loaded,
            },
            loading: false,
        }
    }
}

impl DeepView for WorkflowStateCache {
    type V = StateCacheView;

    open spec fn deep_view(&self) -> StateCacheView {
        StateCacheView { states: self.states.deep_view(), loading: self.loading }
    }
}

impl View for WorkflowStateCache {
    type V = StateCacheView;

    open spec fn view(&self) -> StateCacheView {
        self.deep_view()
    }
}

impl WorkflowStateCache {
    /// A cache that holds nothing.
    pub fn new() -> (res: Self)
        ensures
            res@ == (StateCacheView { states: None, loading: false }),
    {
        WorkflowStateCache { states: None, loading: false }
    }

    /// Says whether the caller is to load the list now, and takes the
    /// loading guard if so.
    pub fn begin_load(&mut self) -> (res: bool)
        ensures
            res == old(self)@.wants_load(),
            final(self)@ == old(self)@.begin_load(),
    {
        if self.states.is_none() && !self.loading {
            self.loading = true;
            true
        } else {
            false
        }
    }

    /// Takes in what a load brought; `None` if it failed.
    pub fn finish_load(&mut self, loaded: Option<Vec<WorkflowState>>)
        ensures
            final(self)@ == old(self)@.finish_load(loaded.deep_view()),
    {
        self.loading = false;
        if self.states.is_none() {
            self.states = loaded;
        }
    }
}

/// The list of workflow states is loaded at most once: when it is kept,
/// nobody is told to load, and no load that ends replaces it.
pub proof fn lemma_cache_loads_once(cache: StateCacheView, loaded: Option<Seq<WorkflowStateView>>)
    requires
        cache.states is Some,
    ensures
        !cache.wants_load(),
        cache.begin_load() == cache,
        cache.finish_load(loaded).states == cache.states,
{
}

/// While a load is under way nobody else is told to load.
pub proof fn lemma_cache_load_is_guarded(cache: StateCacheView)
    ensures
        !cache.begin_load().wants_load(),
{
}

} // verus!
