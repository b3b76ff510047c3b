//! Saved views and their filter expressions.

use crate::seqs::lemma_deep_view_push;
use crate::text::{clone_opt_text, same_opt_text};
use vstd::prelude::*;
use vstd::std_specs::cmp::PartialEqSpecImpl;

verus! {

/// The kinds of filter that a view can be built from.
#[derive(Debug, PartialEq, Eq, Hash, Clone, Copy, Structural)]
pub enum FilterType {
    SelectedTeam,
    AllTeams,
    // Only one Content filter per view
    Content,
    SelectedState,
    SelectedCreator,
    SelectedLabel,
    SelectedAssignee,
    SelectedProject,
    SelectedPriority,
    SelectedSubscriber,
    DueToday,
    Overdue,
    HasDueDate,
    DueSoon,
    NoDueDate,
    NoLabel,
    NoAssignee,
    NoProject,
}

/// One filter of a view: its kind and the record it refers to, if any.
#[derive(Debug)]
pub struct Filter {
    pub filter_type: FilterType,
    pub ref_id: Option<String>,
}

/// The view of [`Filter`]: what it holds, as mathematical values.
pub struct FilterView {
    pub filter_type: FilterType,
    pub ref_id: Option<Seq<char>>,
}

impl DeepView for Filter {
    type V = FilterView;

    open spec fn deep_view(&self) -> FilterView {
        FilterView { filter_type: self.filter_type, ref_id: self.ref_id.deep_view() }
    }
}

impl View for Filter {
    type V = FilterView;

    open spec fn view(&self) -> FilterView {
        self.deep_view()
    }
}

impl Clone for Filter {
    fn clone(&self) -> (res: Self)
        ensures
            res == *self,
    {
        Filter { filter_type: self.filter_type, ref_id: clone_opt_text(&self.ref_id) }
    }
}

impl PartialEq for Filter {
    fn eq(&self, other: &Self) -> (res: bool) {
        self.filter_type == other.filter_type && same_opt_text(&self.ref_id, &other.ref_id)
    }
}

impl PartialEqSpecImpl for Filter {
    open spec fn obeys_eq_spec() -> bool {
        true
    }

    open spec fn eq_spec(&self, other: &Self) -> bool {
        self@ == other@
    }
}

/// The names that a predicate on `state.name` lists.
#[derive(Debug, PartialEq, Eq)]
pub enum StateNames {
    /// `state.name in [..]`
    In(Vec<String>),
    /// `state.name not in [..]`
    NotIn(Vec<String>),
    /// The predicate constrains something other than the name.
    Neither,
}

/// The view of [`StateNames`]: what it holds, as mathematical values.
pub enum StateNamesView {
    In(Seq<Seq<char>>),
    NotIn(Seq<Seq<char>>),
    Neither,
}

impl DeepView for StateNames {
    type V = StateNamesView;

    open spec fn deep_view(&self) -> StateNamesView {
        match self {
            StateNames::In(names) => StateNamesView::In(names.deep_view()),
            StateNames::NotIn(names) => StateNamesView::NotIn(names.deep_view()),
            StateNames::Neither => StateNamesView::Neither,
        }
    }
}

impl View for StateNames {
    type V = StateNamesView;

    open spec fn view(&self) -> StateNamesView {
        self.deep_view()
    }
}

/// One predicate of a filter expression.
#[derive(Debug, PartialEq, Eq)]
pub enum FilterClause {
    /// A predicate on the workflow state. `rest` is whatever the predicate
    /// holds besides its list of names, in the service's own notation.
    State { names: StateNames, rest: String },
    /// Any other predicate, in the service's own notation.
    Other(String),
}

/// The view of [`FilterClause`]: what it holds, as mathematical values.
pub enum FilterClauseView {
    State { names: StateNamesView, rest: Seq<char> },
    Other(Seq<char>),
}

impl DeepView for FilterClause {
    type V = FilterClauseView;

    open spec fn deep_view(&self) -> FilterClauseView {
        match self {
            FilterClause::State { names, rest } => FilterClauseView::State {
                names: names@,
                rest: rest@,
            },
            FilterClause::Other(raw) => FilterClauseView::Other(raw@),
        }
    }
}

impl View for FilterClause {
    type V = FilterClauseView;

    open spec fn view(&self) -> FilterClauseView {
        self.deep_view()
    }
}

/// A filter expression: the conjunction of its predicates.
#[derive(Debug, PartialEq, Eq)]
pub struct FilterExpr {
    pub and: Vec<FilterClause>,
}

/// The view of [`FilterExpr`]: what it holds, as mathematical values.
pub struct FilterExprView {
    pub and: Seq<FilterClauseView>,
}

impl DeepView for FilterExpr {
    type V = FilterExprView;

    open spec fn deep_view(&self) -> FilterExprView {
        FilterExprView { and: self.and.deep_view() }
    }
}

impl View for FilterExpr {
    type V = FilterExprView;

    open spec fn view(&self) -> FilterExprView {
        self.deep_view()
    }
}

/// Copies a list of texts.
pub fn clone_texts(texts: &Vec<String>) -> (res: Vec<String>)
    ensures
        res@ == texts@,
{
    let mut out: Vec<String> = Vec::new();
    let mut i: usize = 0;
    while i < texts.len()
        invariant
            i <= texts.len(),
            out@ == texts@.take(i as int),
        decreases texts.len() - i,
    {
        out.push(texts[i].clone());
        assert(texts@.take(i + 1) == texts@.take(i as int).push(texts@[i as int]));
        i += 1;
    }
    assert(texts@.take(texts.len() as int) == texts@);
    out
}

impl Clone for StateNames {
    fn clone(&self) -> (res: Self)
        ensures
            res@ == self@,
    {
        match self {
            StateNames::In(names) => StateNames::In(clone_texts(names)),
            StateNames::NotIn(names) => StateNames::NotIn(clone_texts(names)),
            StateNames::Neither => StateNames::Neither,
        }
    }
}

impl Clone for FilterClause {
    fn clone(&self) -> (res: Self)
        ensures
            res@ == self@,
    {
        match self {
            FilterClause::State { names, rest } => FilterClause::State {
                names: names.clone(),
                rest: rest.clone(),
            },
            FilterClause::Other(raw) => FilterClause::Other(raw.clone()),
        }
    }
}

impl Clone for FilterExpr {
    fn clone(&self) -> (res: Self)
        ensures
            res@ == self@,
    {
        let mut out: Vec<FilterClause> = Vec::new();
        let mut i: usize = 0;
        while i < self.and.len()
            invariant
                i <= self.and.len(),
                out.deep_view() == self.and.deep_view().take(i as int),
            decreases self.and.len() - i,
        {
            let ghost before = out;
            let clause = self.and[i].clone();
            out.push(clause);
            proof {
                lemma_deep_view_push(before, out, clause);
                assert(out.deep_view() =~= self.and.deep_view().take(i + 1));
            }
            i += 1;
        }
        assert(self.and.deep_view().take(self.and.len() as int) =~= self.and.deep_view());
        FilterExpr { and: out }
    }
}

/// A saved view: what the dashboard shows of it, and the filter expression
/// that selects its issues. Two descriptors denote the same view when their
/// identifiers are equal.
#[derive(Debug, PartialEq, Eq)]
pub struct CustomView {
    pub id: String,
    pub name: Option<String>,
    pub color: Option<String>,
    pub description: Option<String>,
    pub organization_name: Option<String>,
    pub team_key: Option<String>,
    pub filter_data: FilterExpr,
}

/// The view of [`CustomView`]: what it holds, as mathematical values.
pub struct CustomViewView {
    pub id: Seq<char>,
    pub name: Option<Seq<char>>,
    pub color: Option<Seq<char>>,
    pub description: Option<Seq<char>>,
    pub organization_name: Option<Seq<char>>,
    pub team_key: Option<Seq<char>>,
    pub filter_data: FilterExprView,
}

impl DeepView for CustomView {
    type V = CustomViewView;

    open spec fn deep_view(&self) -> CustomViewView {
        CustomViewView {
            id: self.id@,
            name: self.name.deep_view(),
            color: self.color.deep_view(),
            description: self.description.deep_view(),
            organization_name: self.organization_name.deep_view(),
            team_key: self.team_key.deep_view(),
            filter_data: self.filter_data@,
        }
    }
}

impl View for CustomView {
    type V = CustomViewView;

    open spec fn view(&self) -> CustomViewView {
        self.deep_view()
    }
}

impl Clone for CustomView {
    fn clone(&self) -> (res: Self)
        ensures
            res@ == self@,
    {
        CustomView {
            id: self.id.clone(),
            name: clone_opt_text(&self.name),
            color: clone_opt_text(&self.color),
            description: clone_opt_text(&self.description),
            organization_name: clone_opt_text(&self.organization_name),
            team_key: clone_opt_text(&self.team_key),
            filter_data: self.filter_data.clone(),
        }
    }
}

} // verus!
