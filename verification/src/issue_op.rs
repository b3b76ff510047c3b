//! The bulk-edit interface: which field of the selected issue is being
//! changed, and the values that it can be set to.

use crate::cursor::{CursorView, GraphQLCursor, PageInfo, PageInfoView};
use crate::seqs::lemma_deep_view_push;
use crate::text::{graphemes, split_graphemes};
use crate::types::{
    Cycle, CycleView, IssueRelatableObject, Project, ProjectView, RelatableView, User, UserView,
    WorkflowState, WorkflowStateView,
};
use crate::view_resolver::LinearClientError;
use vstd::prelude::*;

verus! {

/// The field of an issue that a bulk edit changes.
#[derive(Debug, Clone, Copy, PartialEq, Eq, Structural)]
pub enum IssueModificationOp {
    Title,
    WorkflowState,
    Assignee,
    Project,
    Cycle,
}

impl IssueModificationOp {
    /// Whether the field takes its values from a list that the service keeps.
    pub open spec fn has_reference_list(self) -> bool {
        self != IssueModificationOp::Title
    }
}

/// The values that each field can be set to, as far as they are loaded.
#[derive(Debug, PartialEq, Eq)]
pub struct ModificationOpData {
    pub workflow_states: Vec<WorkflowState>,
    pub users: Vec<User>,
    pub projects: Vec<Project>,
    pub cycles: Vec<Cycle>,
}

/// The view of [`ModificationOpData`]: what it holds, as mathematical values.
pub struct OpDataView {
    pub workflow_states: Seq<WorkflowStateView>,
    pub users: Seq<UserView>,
    pub projects: Seq<ProjectView>,
    pub cycles: Seq<CycleView>,
}

impl OpDataView {
    /// No value is loaded for any field.
    pub open spec fn empty() -> OpDataView {
        OpDataView {
            workflow_states: Seq::empty(),
            users: Seq::empty(),
            projects: Seq::empty(),
            cycles: Seq::empty(),
        }
    }

    /// The values of the field that `op` changes, as rows of one table.
    pub open spec fn rows(self, op: Option<IssueModificationOp>) -> Option<Seq<RelatableView>> {
        match op {
            Some(IssueModificationOp::WorkflowState) => Some(
                self.workflow_states.map_values(|s: WorkflowStateView| RelatableView::WorkflowState(s)),
            ),
            Some(IssueModificationOp::Assignee) => Some(
                self.users.map_values(|u: UserView| RelatableView::Assignee(u)),
            ),
            Some(IssueModificationOp::Project) => Some(
                self.projects.map_values(|p: ProjectView| RelatableView::Project(p)),
            ),
            Some(IssueModificationOp::Cycle) => Some(
                self.cycles.map_values(|c: CycleView| RelatableView::Cycle(c)),
            ),
            _ => None,
        }
    }

    /// The data with the list of the field that `op` changes emptied.
    pub open spec fn cleared(self, op: IssueModificationOp) -> OpDataView {
        match op {
            IssueModificationOp::Title => self,
            IssueModificationOp::WorkflowState => OpDataView { workflow_states: Seq::empty(), ..self },
            IssueModificationOp::Assignee => OpDataView { users: Seq::empty(), ..self },
            IssueModificationOp::Project => OpDataView { projects: Seq::empty(), ..self },
            IssueModificationOp::Cycle => OpDataView { cycles: Seq::empty(), ..self },
        }
    }

    /// The data with one more value at the end of the list it belongs to.
    pub open spec fn with_item(self, item: RelatableView) -> OpDataView {
        match item {
            RelatableView::WorkflowState(s) => OpDataView {
                workflow_states: self.workflow_states.push(s),
                ..self
            },
            RelatableView::Assignee(u) => OpDataView { users: self.users.push(u), ..self },
            RelatableView::Project(p) => OpDataView { projects: self.projects.push(p), ..self },
            RelatableView::Cycle(c) => OpDataView { cycles: self.cycles.push(c), ..self },
        }
    }

    /// The data with the first `count` of `items` added, each to its list.
    pub open spec fn with_items(self, items: Seq<RelatableView>, count: int) -> OpDataView
        decreases count,
    {
        if count <= 0 {
            self
        } else {
            self.with_items(items, count - 1).with_item(items[count - 1])
        }
    }
}

impl DeepView for ModificationOpData {
    type V = OpDataView;

    open spec fn deep_view(&self) -> OpDataView {
        OpDataView {
            workflow_states: self.workflow_states.deep_view(),
            users: self.users.deep_view(),
            projects: self.projects.deep_view(),
            cycles: self.cycles.deep_view(),
        }
    }
}

impl View for ModificationOpData {
    type V = OpDataView;

    open spec fn view(&self) -> OpDataView {
        self.deep_view()
    }
}

impl Default for ModificationOpData {
    fn default() -> (res: Self)
        ensures
            res@ == OpDataView::empty(),
    {
        let data = ModificationOpData {
            workflow_states: Vec::new(),
            users: Vec::new(),
            projects: Vec::new(),
            cycles: Vec::new(),
        };
        assert(data.workflow_states.deep_view() =~= Seq::empty());
        assert(data.users.deep_view() =~= Seq::empty());
        assert(data.projects.deep_view() =~= Seq::empty());
        assert(data.cycles.deep_view() =~= Seq::empty());
        data
    }
}

impl ModificationOpData {
    /// Adds a value at the end of the list it belongs to.
    pub fn push(&mut self, item: IssueRelatableObject)
        ensures
            final(self)@ == old(self)@.with_item(item@),
    {
        match item {
            IssueRelatableObject::WorkflowState(s) => {
                let ghost before = self.workflow_states;
                self.workflow_states.push(s);
                proof {
                    lemma_deep_view_push(before, self.workflow_states, s);
                }
            },
            IssueRelatableObject::Assignee(u) => {
                let ghost before = self.users;
                self.users.push(u);
                proof {
                    lemma_deep_view_push(before, self.users, u);
                }
            },
            IssueRelatableObject::Project(p) => {
                let ghost before = self.projects;
                self.projects.push(p);
                proof {
                    lemma_deep_view_push(before, self.projects, p);
                }
            },
            IssueRelatableObject::Cycle(c) => {
                let ghost before = self.cycles;
                self.cycles.push(c);
                proof {
                    lemma_deep_view_push(before, self.cycles, c);
                }
            },
        }
    }

    /// Adds values, each at the end of the list it belongs to.
    pub fn extend(&mut self, items: &Vec<IssueRelatableObject>)
        ensures
            final(self)@ == old(self)@.with_items(items.deep_view(), items.len() as int),
    {
        let mut i: usize = 0;
        while i < items.len()
            invariant
                i <= items.len(),
                self@ == old(self)@.with_items(items.deep_view(), i as int),
            decreases items.len() - i,
        {
            self.push(items[i].clone());
            i += 1;
        }
    }
}

/// The list of values in an answer of the service.
#[derive(Debug, PartialEq, Eq)]
pub enum NodeList {
    /// The answer held `null` in place of a list.
    Null,
    /// The answer held a list.
    Items(Vec<IssueRelatableObject>),
    /// The answer held something that is no list.
    Malformed,
}

/// What the service answers when asked for the values of a field.
#[derive(Debug, PartialEq, Eq)]
pub struct OpDataPage {
    pub data_nodes: NodeList,
    pub cursor_info: PageInfo,
}

/// One page of the values of a field, ready to be taken into the interface.
#[derive(Debug, PartialEq, Eq)]
pub struct OpDataResponse {
    pub data: Vec<IssueRelatableObject>,
    pub cursor_info: PageInfo,
}

/// The view of [`OpDataResponse`]: what it holds, as mathematical values.
pub struct OpDataResponseView {
    pub data: Seq<RelatableView>,
    pub cursor_info: PageInfoView,
}

impl DeepView for OpDataResponse {
    type V = OpDataResponseView;

    open spec fn deep_view(&self) -> OpDataResponseView {
        OpDataResponseView { data: self.data.deep_view(), cursor_info: self.cursor_info@ }
    }
}

impl View for OpDataResponse {
    type V = OpDataResponseView;

    open spec fn view(&self) -> OpDataResponseView {
        self.deep_view()
    }
}

/// The state of the bulk-edit interface.
#[derive(Debug, PartialEq, Eq)]
pub struct LinearIssueOpInterface {
    pub current_op: Option<IssueModificationOp>,
    pub selected_idx: Option<usize>,
    /// The row that the table of values shows as selected.
    pub data_state: Option<usize>,
    /// Whether a load of values is under way.
    pub loading: bool,
    /// Where the next page of values starts.
    pub cursor: GraphQLCursor,
    pub obj_data: ModificationOpData,
}

/// The view of [`LinearIssueOpInterface`]: what it holds, as mathematical values.
pub struct OpInterfaceView {
    pub current_op: Option<IssueModificationOp>,
    pub selected_idx: Option<usize>,
    pub data_state: Option<usize>,
    pub loading: bool,
    pub cursor: CursorView,
    pub obj_data: OpDataView,
}

impl OpInterfaceView {
    /// The interface before any field was chosen.
    pub open spec fn idle() -> OpInterfaceView {
        OpInterfaceView {
            current_op: None,
            selected_idx: None,
            data_state: None,
            loading: false,
            cursor: CursorView::start(),
            obj_data: OpDataView::empty(),
        }
    }

    /// The values of the current field, as rows of one table.
    pub open spec fn rows(self) -> Option<Seq<RelatableView>> {
        self.obj_data.rows(self.current_op)
    }

    /// The value that is selected, if the selection names a row.
    pub open spec fn selected_value(self) -> Option<RelatableView> {
        match (self.rows(), self.selected_idx) {
            (Some(rows), Some(at)) => if at < rows.len() {
                Some(rows[at as int])
            } else {
                None
            },
            _ => None,
        }
    }

    /// Whether an update can be sent: a title needs `title_graphemes` to be
    /// positive, every other field needs a selected row.
    pub open spec fn can_update(self, title_graphemes: nat) -> bool {
        match self.current_op {
            Some(IssueModificationOp::Title) => title_graphemes > 0,
            Some(_) => self.selected_idx is Some,
            None => false,
        }
    }
}

impl DeepView for LinearIssueOpInterface {
    type V = OpInterfaceView;

    open spec fn deep_view(&self) -> OpInterfaceView {
        OpInterfaceView {
            current_op: self.current_op,
            selected_idx: self.selected_idx,
            data_state: self.data_state,
            loading: self.loading,
            cursor: self.cursor@,
            obj_data: self.obj_data@,
        }
    }
}

impl View for LinearIssueOpInterface {
    type V = OpInterfaceView;

    open spec fn view(&self) -> OpInterfaceView {
        self.deep_view()
    }
}

impl Default for LinearIssueOpInterface {
    fn default() -> (res: Self)
        ensures
            res@ == OpInterfaceView::idle(),
    {
        LinearIssueOpInterface {
            current_op: None,
            selected_idx: None,
            data_state: None,
            loading: false,
            cursor: GraphQLCursor::default(),
            obj_data: ModificationOpData::default(),
        }
    }
}

/// What `load_op_data` makes of an answer: a failed query and a malformed
/// list give nothing; `null` gives an empty page without page info; a list
/// gives the page as it came.
pub open spec fn shaped(answer: Result<OpDataPage, LinearClientError>) -> Option<
    OpDataResponseView,
> {
    match answer {
        Err(_) => None,
        Ok(page) => match page.data_nodes {
            NodeList::Null => Some(
                OpDataResponseView {
                    data: Seq::empty(),
                    cursor_info: PageInfoView { has_next_page: None, end_cursor: None },
                },
            ),
            NodeList::Items(items) => Some(
                OpDataResponseView { data: items.deep_view(), cursor_info: page.cursor_info@ },
            ),
            NodeList::Malformed => None,
        },
    }
}

impl LinearIssueOpInterface {
    /// Shapes the service's answer to a request for the values of the field
    /// that `op` changes.
    pub fn load_op_data(op: &IssueModificationOp, answer: Result<OpDataPage, LinearClientError>)
        -> (res: Option<OpDataResponse>)
        requires
            op.has_reference_list(),
        ensures
            res.deep_view() == shaped(answer),
    {
        let page = match answer {
            Ok(page) => page,
            Err(_) => {
                return None;
            },
        };
        match page.data_nodes {
            NodeList::Null => {
                let empty = OpDataResponse {
                    data: Vec::new(),
                    cursor_info: PageInfo { has_next_page: None, end_cursor: None },
                };
                assert(empty.data.deep_view() =~= Seq::empty());
                Some(empty)
            },
            NodeList::Items(items) => Some(
                OpDataResponse { data: items, cursor_info: page.cursor_info },
            ),
            NodeList::Malformed => None,
        }
    }

    /// The values of the current field, as rows of one table; `None` while no
    /// field with a list of values is chosen.
    pub fn table_data_from_op(&self) -> (res: Option<Vec<IssueRelatableObject>>)
        ensures
            res.deep_view() == self@.rows(),
    {
        let op = match self.current_op {
            Some(IssueModificationOp::Title) | None => {
                return None;
            },
            Some(op) => op,
        };
        let count = match op {
            IssueModificationOp::WorkflowState => self.obj_data.workflow_states.len(),
            IssueModificationOp::Assignee => self.obj_data.users.len(),
            IssueModificationOp::Project => self.obj_data.projects.len(),
            _ => self.obj_data.cycles.len(),
        };
        let ghost wanted = self@.rows()->0;
        let mut rows: Vec<IssueRelatableObject> = Vec::new();
        let mut i: usize = 0;
        while i < count
            invariant
                i <= count,
                self.current_op == Some(op),
                op.has_reference_list(),
                self@.rows() == Some(wanted),
                wanted.len() == count,
                rows.deep_view() == wanted.take(i as int),
            decreases count - i,
        {
            let ghost before = rows;
            let row = match op {
                IssueModificationOp::WorkflowState => IssueRelatableObject::WorkflowState(
                    self.obj_data.workflow_states[i].clone(),
                ),
                IssueModificationOp::Assignee => IssueRelatableObject::Assignee(
                    self.obj_data.users[i].clone(),
                ),
                IssueModificationOp::Project => IssueRelatableObject::Project(
                    self.obj_data.projects[i].clone(),
                ),
                _ => IssueRelatableObject::Cycle(self.obj_data.cycles[i].clone()),
            };
            rows.push(row);
            proof {
                lemma_deep_view_push(before, rows, row);
                assert(rows.deep_view() =~= wanted.take(i + 1));
            }
            i += 1;
        }
        assert(wanted.take(count as int) =~= wanted);
        Some(rows)
    }

    /// The value that is selected, if the selection names a row.
    pub fn selected_value(&self) -> (res: Option<IssueRelatableObject>)
        ensures
            res.deep_view() == self@.selected_value(),
    {
        let at = match self.selected_idx {
            Some(at) => at,
            None => {
                return None;
            },
        };
        match self.current_op {
            Some(IssueModificationOp::WorkflowState) => if at < self.obj_data.workflow_states.len() {
                Some(IssueRelatableObject::WorkflowState(self.obj_data.workflow_states[at].clone()))
            } else {
                None
            },
            Some(IssueModificationOp::Assignee) => if at < self.obj_data.users.len() {
                Some(IssueRelatableObject::Assignee(self.obj_data.users[at].clone()))
            } else {
                None
            },
            Some(IssueModificationOp::Project) => if at < self.obj_data.projects.len() {
                Some(IssueRelatableObject::Project(self.obj_data.projects[at].clone()))
            } else {
                None
            },
            Some(IssueModificationOp::Cycle) => if at < self.obj_data.cycles.len() {
                Some(IssueRelatableObject::Cycle(self.obj_data.cycles[at].clone()))
            } else {
                None
            },
            _ => None,
        }
    }

    /// Whether an update can be sent, given the number of grapheme clusters
    /// of the title that was typed.
    pub fn selection_allows_update(&self, title_graphemes: usize) -> (res: bool)
        ensures
            res == self@.can_update(title_graphemes as nat),
    {
        match self.current_op {
            Some(IssueModificationOp::Title) => title_graphemes > 0,
            Some(_) => self.selected_idx.is_some(),
            None => false,
        }
    }

    /// Whether an update can be sent: a new title must hold at least one
    /// grapheme cluster, every other field needs a selected row.
    pub fn is_valid_selection_for_update(&self, issue_title_input: &str) -> (res: bool)
        ensures
            res == self@.can_update(graphemes(issue_title_input@).len()),
    {
        let title_graphemes = split_graphemes(issue_title_input);
        self.selection_allows_update(title_graphemes.len())
    }

    /// Ends the current bulk edit: the values of its field are dropped, and
    /// field, selection and cursor go back to their initial state. The
    /// values loaded for other fields stay.
    pub fn reset_op(&mut self)
        requires
            old(self).current_op is Some,
        ensures
            final(self)@ == (OpInterfaceView {
                obj_data: old(self)@.obj_data.cleared(old(self).current_op->0),
                loading: old(self).loading,
                ..OpInterfaceView::idle()
            }),
    {
        match self.current_op {
            Some(IssueModificationOp::WorkflowState) => {
                self.obj_data.workflow_states = Vec::new();
                assert(self.obj_data.workflow_states.deep_view() =~= Seq::empty());
            },
            Some(IssueModificationOp::Assignee) => {
                self.obj_data.users = Vec::new();
                assert(self.obj_data.users.deep_view() =~= Seq::empty());
            },
            Some(IssueModificationOp::Project) => {
                self.obj_data.projects = Vec::new();
                assert(self.obj_data.projects.deep_view() =~= Seq::empty());
            },
            Some(IssueModificationOp::Cycle) => {
                self.obj_data.cycles = Vec::new();
                assert(self.obj_data.cycles.deep_view() =~= Seq::empty());
            },
            _ => {},
        }
        self.selected_idx = None;
        self.current_op = None;
        self.data_state = None;
        self.cursor = GraphQLCursor::default();
    }

    /// The heading of the table of values for the field that `op` changes.
    pub fn title_from_op(op: &IssueModificationOp) -> (res: String)
        requires
            op.has_reference_list(),
        ensures
            res@ == title_text(*op),
    {
        match op {
            IssueModificationOp::WorkflowState => "Select New Workflow State".to_owned(),
            IssueModificationOp::Assignee => "Select New Assignee".to_owned(),
            IssueModificationOp::Project => "Select New Project".to_owned(),
            _ => "Select New Cycle".to_owned(),
        }
    }
}

/// The heading of the table of values for the field that `op` changes.
pub open spec fn title_text(op: IssueModificationOp) -> Seq<char> {
    match op {
        IssueModificationOp::WorkflowState => "Select New Workflow State"@,
        IssueModificationOp::Assignee => "Select New Assignee"@,
        IssueModificationOp::Project => "Select New Project"@,
        _ => "Select New Cycle"@,
    }
}

} // verus!
