//! Records exchanged with the issue service.

use crate::text::clone_opt_text;
use vstd::prelude::*;

verus! {

/// Credentials and tunables that every request carries.
#[derive(Debug, PartialEq, Eq)]
pub struct LinearConfig {
    pub api_key: Option<String>,
    /// How many records one fetch tries to collect.
    pub view_panel_page_size: u32,
}

/// The view of [`LinearConfig`]: what it holds, as mathematical values.
pub struct LinearConfigView {
    pub api_key: Option<Seq<char>>,
    pub view_panel_page_size: u32,
}

impl DeepView for LinearConfig {
    type V = LinearConfigView;

    open spec fn deep_view(&self) -> LinearConfigView {
        LinearConfigView {
            api_key: self.api_key.deep_view(),
            view_panel_page_size: self.view_panel_page_size,
        }
    }
}

impl View for LinearConfig {
    type V = LinearConfigView;

    open spec fn view(&self) -> LinearConfigView {
        self.deep_view()
    }
}

impl Clone for LinearConfig {
    fn clone(&self) -> (res: Self)
        ensures
            res == *self,
    {
        LinearConfig {
            api_key: clone_opt_text(&self.api_key),
            view_panel_page_size: self.view_panel_page_size,
        }
    }
}

/// A workflow state of a team, with its name in the service's own spelling.
#[derive(Debug, PartialEq, Eq)]
pub struct WorkflowState {
    pub id: String,
    pub name: String,
    pub state_type: String,
    pub description: Option<String>,
    pub color: String,
}

/// The view of [`WorkflowState`]: what it holds, as mathematical values.
pub struct WorkflowStateView {
    pub id: Seq<char>,
    pub name: Seq<char>,
    pub state_type: Seq<char>,
    pub description: Option<Seq<char>>,
    pub color: Seq<char>,
}

impl DeepView for WorkflowState {
    type V = WorkflowStateView;

    open spec fn deep_view(&self) -> WorkflowStateView {
        WorkflowStateView {
            id: self.id@,
            name: self.name@,
            state_type: self.state_type@,
            description: self.description.deep_view(),
            color: self.color@,
        }
    }
}

impl View for WorkflowState {
    type V = WorkflowStateView;

    open spec fn view(&self) -> WorkflowStateView {
        self.deep_view()
    }
}

impl Clone for WorkflowState {
    fn clone(&self) -> (res: Self)
        ensures
            res == *self,
    {
        WorkflowState {
            id: self.id.clone(),
            name: self.name.clone(),
            state_type: self.state_type.clone(),
            description: clone_opt_text(&self.description),
            color: self.color.clone(),
        }
    }
}

/// A member of a team.
#[derive(Debug, PartialEq, Eq)]
pub struct User {
    pub id: String,
    pub name: Option<String>,
    pub display_name: Option<String>,
}

/// The view of [`User`]: what it holds, as mathematical values.
pub struct UserView {
    pub id: Seq<char>,
    pub name: Option<Seq<char>>,
    pub display_name: Option<Seq<char>>,
}

impl DeepView for User {
    type V = UserView;

    open spec fn deep_view(&self) -> UserView {
        UserView {
            id: self.id@,
            name: self.name.deep_view(),
            display_name: self.display_name.deep_view(),
        }
    }
}

impl View for User {
    type V = UserView;

    open spec fn view(&self) -> UserView {
        self.deep_view()
    }
}

impl Clone for User {
    fn clone(&self) -> (res: Self)
        ensures
            res == *self,
    {
        User {
            id: self.id.clone(),
            name: clone_opt_text(&self.name),
            display_name: clone_opt_text(&self.display_name),
        }
    }
}

/// A project of a team.
#[derive(Debug, PartialEq, Eq)]
pub struct Project {
    pub id: String,
    pub name: Option<String>,
    pub state: Option<String>,
    pub color: Option<String>,
}

/// The view of [`Project`]: what it holds, as mathematical values.
pub struct ProjectView {
    pub id: Seq<char>,
    pub name: Option<Seq<char>>,
    pub state: Option<Seq<char>>,
    pub color: Option<Seq<char>>,
}

impl DeepView for Project {
    type V = ProjectView;

    open spec fn deep_view(&self) -> ProjectView {
        ProjectView {
            id: self.id@,
            name: self.name.deep_view(),
            state: self.state.deep_view(),
            color: self.color.deep_view(),
        }
    }
}

impl View for Project {
    type V = ProjectView;

    open spec fn view(&self) -> ProjectView {
        self.deep_view()
    }
}

impl Clone for Project {
    fn clone(&self) -> (res: Self)
        ensures
            res == *self,
    {
        Project {
            id: self.id.clone(),
            name: clone_opt_text(&self.name),
            state: clone_opt_text(&self.state),
            color: clone_opt_text(&self.color),
        }
    }
}

/// A cycle of a team.
#[derive(Debug, PartialEq, Eq)]
pub struct Cycle {
    pub id: String,
    pub name: Option<String>,
    pub number: u32,
    pub starts_at: String,
    pub ends_at: String,
}

/// The view of [`Cycle`]: what it holds, as mathematical values.
pub struct CycleView {
    pub id: Seq<char>,
    pub name: Option<Seq<char>>,
    pub number: u32,
    pub starts_at: Seq<char>,
    pub ends_at: Seq<char>,
}

impl DeepView for Cycle {
    type V = CycleView;

    open spec fn deep_view(&self) -> CycleView {
        CycleView {
            id: self.id@,
            name: self.name.deep_view(),
            number: self.number,
            starts_at: self.starts_at@,
            ends_at: self.ends_at@,
        }
    }
}

impl View for Cycle {
    type V = CycleView;

    open spec fn view(&self) -> CycleView {
        self.deep_view()
    }
}

impl Clone for Cycle {
    fn clone(&self) -> (res: Self)
        ensures
            res == *self,
    {
        Cycle {
            id: self.id.clone(),
            name: clone_opt_text(&self.name),
            number: self.number,
            starts_at: self.starts_at.clone(),
            ends_at: self.ends_at.clone(),
        }
    }
}

/// A value that one field of an issue can be set to.
#[derive(Debug, PartialEq, Eq)]
pub enum IssueRelatableObject {
    WorkflowState(WorkflowState),
    Assignee(User),
    Project(Project),
    Cycle(Cycle),
}

/// The view of [`IssueRelatableObject`]: what it holds, as mathematical values.
pub enum RelatableView {
    WorkflowState(WorkflowStateView),
    Assignee(UserView),
    Project(ProjectView),
    Cycle(CycleView),
}

impl RelatableView {
    /// The service's identifier of the value.
    pub open spec fn id(self) -> Seq<char> {
        match self {
            RelatableView::WorkflowState(s) => s.id,
            RelatableView::Assignee(u) => u.id,
            RelatableView::Project(p) => p.id,
            RelatableView::Cycle(c) => c.id,
        }
    }
}

impl DeepView for IssueRelatableObject {
    type V = RelatableView;

    open spec fn deep_view(&self) -> RelatableView {
        match self {
            IssueRelatableObject::WorkflowState(s) => RelatableView::WorkflowState(s@),
            IssueRelatableObject::Assignee(u) => RelatableView::Assignee(u@),
            IssueRelatableObject::Project(p) => RelatableView::Project(p@),
            IssueRelatableObject::Cycle(c) => RelatableView::Cycle(c@),
        }
    }
}

impl View for IssueRelatableObject {
    type V = RelatableView;

    open spec fn view(&self) -> RelatableView {
        self.deep_view()
    }
}

impl Clone for IssueRelatableObject {
    fn clone(&self) -> (res: Self)
        ensures
            res == *self,
    {
        match self {
            IssueRelatableObject::WorkflowState(s) => IssueRelatableObject::WorkflowState(s.clone()),
            IssueRelatableObject::Assignee(u) => IssueRelatableObject::Assignee(u.clone()),
            IssueRelatableObject::Project(p) => IssueRelatableObject::Project(p.clone()),
            IssueRelatableObject::Cycle(c) => IssueRelatableObject::Cycle(c.clone()),
        }
    }
}

impl IssueRelatableObject {
    /// The service's identifier of the value.
    pub fn id(&self) -> (res: &String)
        ensures
            res@ == self@.id(),
    {
        match self {
            IssueRelatableObject::WorkflowState(s) => &s.id,
            IssueRelatableObject::Assignee(u) => &u.id,
            IssueRelatableObject::Project(p) => &p.id,
            IssueRelatableObject::Cycle(c) => &c.id,
        }
    }
}

/// One issue as a panel holds it.
#[derive(Debug, PartialEq, Eq)]
pub struct Issue {
    pub id: Option<String>,
    pub team_id: Option<String>,
    pub number: Option<i64>,
    pub title: Option<String>,
    pub description: Option<String>,
    pub created_at: Option<String>,
    pub state: Option<WorkflowState>,
    pub assignee: Option<User>,
    pub project: Option<Project>,
    pub cycle: Option<Cycle>,
}

/// The view of [`Issue`]: what it holds, as mathematical values.
pub struct IssueView {
    pub id: Option<Seq<char>>,
    pub team_id: Option<Seq<char>>,
    pub number: Option<i64>,
    pub title: Option<Seq<char>>,
    pub description: Option<Seq<char>>,
    pub created_at: Option<Seq<char>>,
    pub state: Option<WorkflowStateView>,
    pub assignee: Option<UserView>,
    pub project: Option<ProjectView>,
    pub cycle: Option<CycleView>,
}

impl IssueView {
    /// Whether this is the issue that the service knows under `issue_id`.
    pub open spec fn has_id(self, issue_id: Seq<char>) -> bool {
        self.id == Some(issue_id)
    }

    /// The issue with the field that `value` belongs to set to `value`.
    pub open spec fn with_value(self, value: RelatableView) -> IssueView {
        match value {
            RelatableView::WorkflowState(s) => IssueView { state: Some(s), ..self },
            RelatableView::Assignee(u) => IssueView { assignee: Some(u), ..self },
            RelatableView::Project(p) => IssueView { project: Some(p), ..self },
            RelatableView::Cycle(c) => IssueView { cycle: Some(c), ..self },
        }
    }

    /// What a successful update of issue `issue_id` to `value` makes of this
    /// record: the target gets the value, every other record stays as it is.
    pub open spec fn patched(self, issue_id: Seq<char>, value: RelatableView) -> IssueView {
        if self.has_id(issue_id) {
            self.with_value(value)
        } else {
            self
        }
    }
}

impl DeepView for Issue {
    type V = IssueView;

    open spec fn deep_view(&self) -> IssueView {
        IssueView {
            id: self.id.deep_view(),
            team_id: self.team_id.deep_view(),
            number: self.number,
            title: self.title.deep_view(),
            description: self.description.deep_view(),
            created_at: self.created_at.deep_view(),
            state: self.state.deep_view(),
            assignee: self.assignee.deep_view(),
            project: self.project.deep_view(),
            cycle: self.cycle.deep_view(),
        }
    }
}

impl View for Issue {
    type V = IssueView;

    open spec fn view(&self) -> IssueView {
        self.deep_view()
    }
}

impl Clone for Issue {
    fn clone(&self) -> (res: Self)
        ensures
            res == *self,
    {
        Issue {
            id: clone_opt_text(&self.id),
            team_id: clone_opt_text(&self.team_id),
            number: self.number,
            title: clone_opt_text(&self.title),
            description: clone_opt_text(&self.description),
            created_at: clone_opt_text(&self.created_at),
            state: match &self.state {
                Some(s) => Some(s.clone()),
                None => None,
            },
            assignee: match &self.assignee {
                Some(u) => Some(u.clone()),
                None => None,
            },
            project: match &self.project {
                Some(p) => Some(p.clone()),
                None => None,
            },
            cycle: match &self.cycle {
                Some(c) => Some(c.clone()),
                None => None,
            },
        }
    }
}

impl Issue {
    /// Whether this is the issue that the service knows under `issue_id`.
    pub fn has_id(&self, issue_id: &String) -> (res: bool)
        ensures
            res == self@.has_id(issue_id@),
    {
        match &self.id {
            Some(own) => *own == *issue_id,
            None => false,
        }
    }

    /// Sets the field that `value` belongs to.
    pub fn set_value(&mut self, value: &IssueRelatableObject)
        ensures
            final(self)@ == old(self)@.with_value(value@),
    {
        match value {
            IssueRelatableObject::WorkflowState(s) => {
                self.state = Some(s.clone());
            },
            IssueRelatableObject::Assignee(u) => {
                self.assignee = Some(u.clone());
            },
            IssueRelatableObject::Project(p) => {
                self.project = Some(p.clone());
            },
            IssueRelatableObject::Cycle(c) => {
                self.cycle = Some(c.clone());
            },
        }
    }
}

/// Copies a list of issues.
pub fn clone_issues(issues: &Vec<Issue>) -> (res: Vec<Issue>)
    ensures
        res@ == issues@,
{
    let mut out: Vec<Issue> = Vec::new();
    let mut i: usize = 0;
    while i < issues.len()
        invariant
            i <= issues.len(),
            out@ == issues@.take(i as int),
        decreases issues.len() - i,
    {
        out.push(issues[i].clone());
        assert(issues@.take(i + 1) == issues@.take(i as int).push(issues@[i as int]));
        i += 1;
    }
    assert(issues@.take(issues.len() as int) == issues@);
    out
}

} // verus!
