//! The paginated fetch of one view's issues.
//!
//! A fetch asks the service for page after page until it holds as many
//! records as one panel page takes, or the service has no more. The transport
//! is not part of this library: a `ViewLoader` says which query comes next
//! and takes in the answer, and whoever owns the connection moves the two
//! between it and the service.

use crate::cursor::{CursorView, GraphQLCursor, PageInfo, PageInfoView};
use crate::filter::{CustomView, FilterExpr, FilterExprView};
use crate::normalize::{normalize_state_filter, normalized, UnknownState};
use crate::seqs::{lemma_deep_view_append, lemma_deep_view_same};
use crate::types::{clone_issues, Issue, IssueView, LinearConfig, WorkflowState};
use vstd::prelude::*;

verus! {

/// Why the transport could not answer a query.
#[derive(Debug, PartialEq, Eq)]
pub struct LinearClientError {
    pub message: String,
}

/// One page of a view's issues as the service returned it.
#[derive(Debug, PartialEq, Eq)]
pub struct IssuePage {
    /// The issues of the page; `None` when the response held no list.
    pub issue_nodes: Option<Vec<Issue>>,
    pub cursor_info: PageInfo,
}

/// The view of [`IssuePage`]: what it holds, as mathematical values.
pub struct IssuePageView {
    pub issue_nodes: Option<Seq<IssueView>>,
    pub cursor_info: PageInfoView,
}

impl DeepView for IssuePage {
    type V = IssuePageView;

    open spec fn deep_view(&self) -> IssuePageView {
        IssuePageView {
            issue_nodes: self.issue_nodes.deep_view(),
            cursor_info: self.cursor_info@,
        }
    }
}

impl View for IssuePage {
    type V = IssuePageView;

    open spec fn view(&self) -> IssuePageView {
        self.deep_view()
    }
}

impl Clone for IssuePage {
    fn clone(&self) -> (res: Self)
        ensures
            res@ == self@,
    {
        let nodes = match &self.issue_nodes {
            Some(nodes) => {
                let copy = clone_issues(nodes);
                proof {
                    lemma_deep_view_same(copy, *nodes);
                }
                Some(copy)
            },
            None => None,
        };
        IssuePage { issue_nodes: nodes, cursor_info: self.cursor_info.clone() }
    }
}

/// What the transport hands back for one query.
pub type QueryResult = Result<IssuePage, LinearClientError>;

/// The page of an answer, or `None` for a failed query.
pub open spec fn answer_view(answer: QueryResult) -> Option<IssuePageView> {
    match answer {
        Ok(page) => Some(page@),
        Err(_) => None,
    }
}

/// Copies an answer.
pub fn clone_answer(answer: &QueryResult) -> (res: QueryResult)
    ensures
        answer_view(res) == answer_view(*answer),
{
    match answer {
        Ok(page) => Ok(page.clone()),
        Err(e) => Err(LinearClientError { message: e.message.clone() }),
    }
}

/// The pages of a sequence of answers.
pub open spec fn answers_view(answers: Seq<QueryResult>) -> Seq<Option<IssuePageView>> {
    answers.map_values(|a: QueryResult| answer_view(a))
}

/// Why a fetch was given up.
#[derive(Debug, Clone, Copy, PartialEq, Eq, Structural)]
pub enum FetchError {
    /// The filter names a workflow state that the service does not know.
    UnknownState(UnknownState),
    /// The transport could not answer a query.
    QueryFailed,
    /// An answer held no list of issues.
    MalformedNodes,
    /// An answer's page info lacked a required field.
    MalformedPageInfo,
}

/// The next query of a fetch.
#[derive(Debug, PartialEq, Eq)]
pub struct IssueQuery {
    pub filter: FilterExpr,
    pub cursor: GraphQLCursor,
}

/// The state of one fetch.
#[derive(Debug, PartialEq, Eq)]
pub struct ViewLoader {
    /// The filter that every query of this fetch carries.
    pub filter: FilterExpr,
    /// Where the next page starts.
    pub cursor: GraphQLCursor,
    /// The records gathered so far.
    pub found: Vec<Issue>,
    /// How many queries this fetch has had answered.
    pub request_num: u32,
    /// How many records the fetch tries to gather.
    pub page_size: u32,
}

/// The view of [`ViewLoader`]: what it holds, as mathematical values.
pub struct LoaderView {
    pub filter: FilterExprView,
    pub cursor: CursorView,
    pub found: Seq<IssueView>,
    pub request_num: nat,
    pub page_size: nat,
}

/// What a fetch ends with.
pub struct Outcome {
    /// The state in which the fetch stopped.
    pub state: LoaderView,
    /// Why it stopped early, if it did.
    pub error: Option<FetchError>,
}

impl LoaderView {
    /// A fetch that has asked nothing yet.
    pub open spec fn fresh(filter: FilterExprView, cursor: CursorView, page_size: nat) -> LoaderView {
        LoaderView { filter, cursor, found: Seq::empty(), request_num: 0, page_size }
    }

    /// A fetch is done when the service has no more pages, or when at least
    /// one query was answered and the page is full.
    pub open spec fn is_done(self) -> bool {
        self.cursor.is_exhausted() || (self.request_num > 0 && self.found.len() >= self.page_size)
    }

    /// The state after one answer: its records are appended, the cursor is
    /// the one its page info describes, and the answer is counted.
    pub open spec fn absorb(self, answer: Option<IssuePageView>) -> Result<LoaderView, FetchError> {
        match answer {
            None => Err(FetchError::QueryFailed),
            Some(page) => match page.issue_nodes {
                None => Err(FetchError::MalformedNodes),
                Some(nodes) => match CursorView::advance(page.cursor_info) {
                    None => Err(FetchError::MalformedPageInfo),
                    Some(cursor) => Ok(
                        LoaderView {
                            cursor,
                            found: self.found + nodes,
                            request_num: self.request_num + 1,
                            ..self
                        },
                    ),
                },
            },
        }
    }

    /// The fetch run against the answers from index `at` on. Each answer is
    /// taken in until the fetch is done; an answer that cannot be taken in
    /// stops it, and so does the end of the answers, which counts as a query
    /// that failed.
    pub open spec fn run(self, answers: Seq<Option<IssuePageView>>, at: int) -> Outcome
        decreases answers.len() - at,
    {
        if self.is_done() {
            Outcome { state: self, error: None }
        } else if at < 0 || at >= answers.len() {
            Outcome { state: self, error: Some(FetchError::QueryFailed) }
        } else {
            match self.absorb(answers[at]) {
                Ok(next) => next.run(answers, at + 1),
                Err(e) => Outcome { state: self, error: Some(e) },
            }
        }
    }
}

impl DeepView for ViewLoader {
    type V = LoaderView;

    open spec fn deep_view(&self) -> LoaderView {
        LoaderView {
            filter: self.filter@,
            cursor: self.cursor@,
            found: self.found.deep_view(),
            request_num: self.request_num as nat,
            page_size: self.page_size as nat,
        }
    }
}

impl View for ViewLoader {
    type V = LoaderView;

    open spec fn view(&self) -> LoaderView {
        self.deep_view()
    }
}

impl ViewLoader {
    /// Begins a fetch at `cursor`, or at the start of the sequence when there
    /// is none, with the state names of `filter` put into the spelling of
    /// `states`.
    pub fn start(
        filter: &FilterExpr,
        cursor: Option<GraphQLCursor>,
        page_size: u32,
        states: &Vec<WorkflowState>,
    ) -> (res: Result<ViewLoader, UnknownState>)
        ensures
            match res {
                Ok(loader) => normalized(filter@, states.deep_view()) is Ok && loader@
                    == LoaderView::fresh(
                    normalized(filter@, states.deep_view())->Ok_0,
                    match cursor {
                        Some(c) => c@,
                        None => CursorView::start(),
                    },
                    page_size as nat,
                ),
                Err(e) => normalized(filter@, states.deep_view()) == Err::<FilterExprView, int>(
                    e.position as int,
                ),
            },
    {
        let mut filter = filter.clone();
        match normalize_state_filter(&mut filter, states) {
            Ok(()) => {},
            Err(e) => {
                return Err(e);
            },
        }
        let cursor = match cursor {
            Some(c) => c,
            None => GraphQLCursor::default(),
        };
        let loader = ViewLoader { filter, cursor, found: Vec::new(), request_num: 0, page_size };
        assert(loader.found.deep_view() =~= Seq::empty());
        Ok(loader)
    }

    /// Whether the fetch is done, so that no query is to be sent.
    pub fn is_done(&self) -> (res: bool)
        ensures
            res == self@.is_done(),
    {
        self.cursor.is_exhausted() || (self.request_num > 0 && self.found.len()
            >= self.page_size as usize)
    }

    /// The query to send next, or `None` when the fetch is done.
    pub fn next_query(&self) -> (res: Option<IssueQuery>)
        ensures
            res is None <==> self@.is_done(),
            res matches Some(q) ==> q.filter@ == self@.filter && q.cursor@ == self@.cursor,
    {
        if self.is_done() {
            None
        } else {
            Some(IssueQuery { filter: self.filter.clone(), cursor: self.cursor.clone() })
        }
    }

    /// Takes in the answer to the query that `next_query` gave. An answer
    /// that cannot be taken in leaves the fetch as it was.
    pub fn absorb(&mut self, answer: QueryResult) -> (res: Result<(), FetchError>)
        requires
            old(self).request_num < u32::MAX,
        ensures
            match old(self)@.absorb(answer_view(answer)) {
                Ok(next) => res is Ok && final(self)@ == next,
                Err(e) => res == Err::<(), FetchError>(e) && final(self)@ == old(self)@,
            },
    {
        let page = match answer {
            Ok(page) => page,
            Err(_) => {
                return Err(FetchError::QueryFailed);
            },
        };
        let mut nodes = match page.issue_nodes {
            Some(nodes) => nodes,
            None => {
                return Err(FetchError::MalformedNodes);
            },
        };
        let cursor = match GraphQLCursor::linear_cursor_from_page_info(&page.cursor_info) {
            Some(cursor) => cursor,
            None => {
                return Err(FetchError::MalformedPageInfo);
            },
        };
        let ghost before = self.found;
        let ghost added = nodes;
        self.found.append(&mut nodes);
        proof {
            lemma_deep_view_append(before, added, self.found);
        }
        self.request_num = self.request_num + 1;
        self.cursor = cursor;
        Ok(())
    }
}

/// Runs a whole fetch against answers that are already at hand.
///
/// The state names of `filter_data` are put into the spelling of
/// `workflow_states`; then the answers are taken in, in order, until the
/// fetch is done. `view_cursor` ends where the last answer taken in left it,
/// and `request_num` grows by the number of answers taken in. If the answers
/// end before the fetch is done, the fetch fails as on a query that the
/// transport could not answer.
pub fn single_endpoint_fetch(
    view_cursor: &mut GraphQLCursor,
    request_num: &mut u32,
    filter_data: &mut FilterExpr,
    linear_config: &LinearConfig,
    workflow_states: &Vec<WorkflowState>,
    answers: &Vec<QueryResult>,
) -> (res: Result<Vec<Issue>, FetchError>)
    requires
        *old(request_num) + answers.len() <= u32::MAX,
    ensures
        match normalized(old(filter_data)@, workflow_states.deep_view()) {
            Err(k) => {
                &&& res matches Err(FetchError::UnknownState(e)) && e.position == k
                &&& final(filter_data)@ == old(filter_data)@
                &&& final(view_cursor)@ == old(view_cursor)@
                &&& *final(request_num) == *old(request_num)
            },
            Ok(filter) => {
                let end = LoaderView::fresh(
                    filter,
                    old(view_cursor)@,
                    linear_config.view_panel_page_size as nat,
                ).run(answers_view(answers@), 0);
                &&& final(filter_data)@ == filter
                &&& final(view_cursor)@ == end.state.cursor
                &&& *final(request_num) == *old(request_num) + end.state.request_num
                &&& match end.error {
                    None => res matches Ok(found) && found.deep_view() == end.state.found,
                    Some(e) => res == Err::<Vec<Issue>, FetchError>(e),
                }
            },
        },
{
    let start = ViewLoader::start(
        filter_data,
        Some(view_cursor.clone()),
        linear_config.view_panel_page_size,
        workflow_states,
    );
    let mut loader = match start {
        Ok(loader) => loader,
        Err(e) => {
            return Err(FetchError::UnknownState(e));
        },
    };
    let ghost begin = loader@;
    let ghost script = answers_view(answers@);
    let base: u32 = *request_num;
    let mut at: usize = 0;
    let mut failure: Option<FetchError> = None;
    while failure.is_none() && !loader.is_done()
        invariant
            at <= answers.len(),
            loader.request_num == at,
            base + answers.len() <= u32::MAX,
            script == answers_view(answers@),
            loader@.filter == begin.filter,
            failure is None ==> loader@.run(script, at as int) == begin.run(script, 0),
            failure matches Some(e) ==> begin.run(script, 0) == (Outcome {
                state: loader@,
                error: Some(e),
            }),
        decreases answers.len() - at + (if failure is None { 1int } else { 0int }),
    {
        if at >= answers.len() {
            failure = Some(FetchError::QueryFailed);
        } else {
            match loader.absorb(clone_answer(&answers[at])) {
                Ok(()) => {
                    at += 1;
                },
                Err(e) => {
                    failure = Some(e);
                },
            }
        }
    }
    *filter_data = loader.filter;
    *view_cursor = loader.cursor;
    *request_num = base + loader.request_num;
    match failure {
        None => Ok(loader.found),
        Some(e) => Err(e),
    }
}

/// Fetches one page of a view's issues, from `cursor_option` on or from the
/// start, against answers that are already at hand. Returns the records, the
/// cursor to go on from, and the number of answers taken in.
pub fn optimized_view_issue_fetch(
    view_obj: &CustomView,
    cursor_option: Option<GraphQLCursor>,
    linear_config: LinearConfig,
    workflow_states: &Vec<WorkflowState>,
    answers: &Vec<QueryResult>,
) -> (res: Result<(Vec<Issue>, GraphQLCursor, u32), FetchError>)
    requires
        answers.len() <= u32::MAX,
    ensures
        match normalized(view_obj@.filter_data, workflow_states.deep_view()) {
            Err(k) => res matches Err(FetchError::UnknownState(e)) && e.position == k,
            Ok(filter) => {
                let end = LoaderView::fresh(
                    filter,
                    match cursor_option {
                        Some(c) => c@,
                        None => CursorView::start(),
                    },
                    linear_config.view_panel_page_size as nat,
                ).run(answers_view(answers@), 0);
                match end.error {
                    None => {
                        &&& res matches Ok(fetched)
                        &&& fetched.0.deep_view() == end.state.found
                        &&& fetched.1@ == end.state.cursor
                        &&& fetched.2 == end.state.request_num
                    },
                    Some(e) => res == Err::<(Vec<Issue>, GraphQLCursor, u32), FetchError>(e),
                }
            },
        },
{
    let mut filter_data = view_obj.filter_data.clone();
    let mut view_cursor = match cursor_option {
        Some(cursor) => cursor,
        None => GraphQLCursor::default(),
    };
    let mut request_num: u32 = 0;
    let found = single_endpoint_fetch(
        &mut view_cursor,
        &mut request_num,
        &mut filter_data,
        &linear_config,
        workflow_states,
        answers,
    );
    match found {
        Ok(found) => Ok((found, view_cursor, request_num)),
        Err(e) => Err(e),
    }
}

/// The records that an answer brings; none if it cannot be taken in.
pub open spec fn nodes_of(answer: Option<IssuePageView>) -> Seq<IssueView> {
    match answer {
        Some(page) => match page.issue_nodes {
            Some(nodes) => nodes,
            None => Seq::empty(),
        },
        None => Seq::empty(),
    }
}

/// Whether an answer is a page that can be taken in and holds a record.
pub open spec fn is_full_page(answer: Option<IssuePageView>) -> bool {
    &&& answer matches Some(page)
    &&& page.issue_nodes matches Some(nodes)
    &&& nodes.len() >= 1
    &&& CursorView::advance(page.cursor_info) is Some
}

/// Whether an answer says that no page follows it.
pub open spec fn is_last_page(answer: Option<IssuePageView>) -> bool {
    answer matches Some(page) && page.cursor_info.has_next_page == Some(false)
}

/// The cursor that an answer leaves the fetch with.
pub open spec fn cursor_after(answer: Option<IssuePageView>) -> CursorView {
    CursorView::advance(answer->0.cursor_info)->0
}

/// The records of the first `count` answers, in order.
pub open spec fn gathered(answers: Seq<Option<IssuePageView>>, count: int) -> Seq<IssueView>
    decreases count,
{
    if count <= 0 {
        Seq::empty()
    } else {
        gathered(answers, count - 1) + nodes_of(answers[count - 1])
    }
}

/// What holds of a fetch that ran to its end on pages of which the one at
/// `last` is the final one: it took in `end.state.request_num` of them.
pub open spec fn settled(
    start: LoaderView,
    answers: Seq<Option<IssuePageView>>,
    last: int,
    end: Outcome,
) -> bool {
    let taken = end.state.request_num as int;
    &&& end.error is None
    &&& end.state.is_done()
    &&& 1 <= taken <= last + 1
    &&& taken == 1 || taken <= start.page_size
    &&& end.state.found == gathered(answers, taken)
    &&& end.state.cursor == cursor_after(answers[taken - 1])
    &&& end.state.filter == start.filter
    &&& forall|j: int|
        0 < j < taken ==> (#[trigger] gathered(answers, j)).len() < start.page_size
            && !is_last_page(answers[j - 1])
}

proof fn lemma_run_settles(
    start: LoaderView,
    st: LoaderView,
    answers: Seq<Option<IssuePageView>>,
    at: int,
    last: int,
)
    requires
        0 <= at <= last < answers.len(),
        forall|i: int| 0 <= i <= last ==> is_full_page(#[trigger] answers[i]),
        is_last_page(answers[last]),
        st.request_num == at,
        st.found == gathered(answers, at),
        st.found.len() >= at,
        st.filter == start.filter,
        st.page_size == start.page_size,
        !st.is_done(),
        forall|j: int|
            0 < j <= at ==> (#[trigger] gathered(answers, j)).len() < start.page_size
                && !is_last_page(answers[j - 1]),
    ensures
        settled(start, answers, last, st.run(answers, at)),
    decreases last - at,
{
    assert(is_full_page(answers[at]));
    let next = st.absorb(answers[at])->Ok_0;
    assert(next.found == gathered(answers, at + 1));
    if next.is_done() {
        assert(next.run(answers, at + 1) == Outcome { state: next, error: None });
    } else {
        assert(at < last);
        lemma_run_settles(start, next, answers, at + 1, last);
    }
}

/// A fetch that is answered with pages of at least one record each, of which
/// one says that no page follows, comes to an end without an error. It stops
/// at the first page with which it holds as many records as it was to
/// gather, or else at the final page; it returns the records of the pages it
/// took in, in order, and nothing else; and it never asks more often than
/// once for each record it was to gather (but once in any case).
pub proof fn lemma_fetch_terminates(
    start: LoaderView,
    answers: Seq<Option<IssuePageView>>,
    last: int,
)
    requires
        start.request_num == 0,
        start.found.len() == 0,
        !start.cursor.is_exhausted(),
        0 <= last < answers.len(),
        forall|i: int| 0 <= i <= last ==> is_full_page(#[trigger] answers[i]),
        is_last_page(answers[last]),
    ensures
        settled(start, answers, last, start.run(answers, 0)),
{
    assert(start.found =~= gathered(answers, 0));
    lemma_run_settles(start, start, answers, 0, last);
}

/// A fetch never returns fewer records than it was to gather unless the
/// service has no more: whenever it ends without an error, its page is full
/// or its cursor is exhausted. Whatever way it ends, it has kept the records
/// it began with, in front, has not counted backwards, and has left filter
/// and page size alone.
pub proof fn lemma_fetch_fills_or_exhausts(
    start: LoaderView,
    answers: Seq<Option<IssuePageView>>,
    at: int,
)
    ensures
        ({
            let end = start.run(answers, at);
            &&& end.error is None ==> end.state.cursor.is_exhausted() || end.state.found.len()
                >= start.page_size
            &&& end.error is None ==> end.state.is_done()
            &&& start.found.is_prefix_of(end.state.found)
            &&& end.state.request_num >= start.request_num
            &&& end.state.filter == start.filter
            &&& end.state.page_size == start.page_size
        }),
    decreases answers.len() - at,
{
    if !start.is_done() && 0 <= at < answers.len() {
        match start.absorb(answers[at]) {
            Ok(next) => {
                lemma_fetch_fills_or_exhausts(next, answers, at + 1);
                assert(start.found.is_prefix_of(next.found));
            },
            Err(_) => {},
        }
    }
}

/// A fetch whose cursor says that the service has no more pages asks nothing
/// and returns what it holds.
pub proof fn lemma_fetch_exhausted(start: LoaderView, answers: Seq<Option<IssuePageView>>)
    requires
        start.cursor.is_exhausted(),
    ensures
        start.run(answers, 0) == (Outcome { state: start, error: None }),
{
}

} // verus!
