use linear_dashboard::cursor::{GraphQLCursor, PageInfo, Platform};
use linear_dashboard::issue_op::{
    IssueModificationOp, LinearIssueOpInterface, ModificationOpData, NodeList, OpDataPage,
    OpDataResponse,
};
use linear_dashboard::types::{Cycle, IssueRelatableObject, Project, User, WorkflowState};
use linear_dashboard::view_resolver::LinearClientError;

fn state(name: &str) -> WorkflowState {
    WorkflowState {
        id: format!("s-{}", name),
        name: String::from(name),
        state_type: String::from("started"),
        description: None,
        color: String::from("#000000"),
    }
}

fn user(name: &str) -> User {
    User { id: format!("u-{}", name), name: Some(String::from(name)), display_name: None }
}

fn project(name: &str) -> Project {
    Project { id: format!("p-{}", name), name: Some(String::from(name)), state: None, color: None }
}

fn cycle(number: u32) -> Cycle {
    Cycle {
        id: format!("c-{}", number),
        name: None,
        number,
        starts_at: String::from("2021-01-01"),
        ends_at: String::from("2021-01-14"),
    }
}

fn filled() -> LinearIssueOpInterface {
    let mut interface = LinearIssueOpInterface::default();
    interface.obj_data.workflow_states = vec![state("Todo"), state("Done")];
    interface.obj_data.users = vec![user("ann")];
    interface.obj_data.projects = vec![project("alpha"), project("beta")];
    interface.obj_data.cycles = vec![cycle(1)];
    interface
}

#[test]
fn default_interface_is_idle() {
    let interface = LinearIssueOpInterface::default();
    assert_eq!(interface.current_op, None);
    assert_eq!(interface.selected_idx, None);
    assert_eq!(interface.data_state, None);
    assert!(!interface.loading);
    assert_eq!(interface.cursor, GraphQLCursor::default());
    assert_eq!(interface.obj_data, ModificationOpData::default());
    assert!(interface.obj_data.workflow_states.is_empty());
}

#[test]
fn title_from_op_names_the_field() {
    assert_eq!(
        LinearIssueOpInterface::title_from_op(&IssueModificationOp::WorkflowState),
        "Select New Workflow State"
    );
    assert_eq!(
        LinearIssueOpInterface::title_from_op(&IssueModificationOp::Assignee),
        "Select New Assignee"
    );
    assert_eq!(
        LinearIssueOpInterface::title_from_op(&IssueModificationOp::Project),
        "Select New Project"
    );
    assert_eq!(
        LinearIssueOpInterface::title_from_op(&IssueModificationOp::Cycle),
        "Select New Cycle"
    );
}

#[test]
fn table_data_follows_the_current_op() {
    let mut interface = filled();
    assert_eq!(interface.table_data_from_op(), None);
    interface.current_op = Some(IssueModificationOp::Title);
    assert_eq!(interface.table_data_from_op(), None);
    interface.current_op = Some(IssueModificationOp::WorkflowState);
    assert_eq!(
        interface.table_data_from_op(),
        Some(vec![
            IssueRelatableObject::WorkflowState(state("Todo")),
            IssueRelatableObject::WorkflowState(state("Done")),
        ])
    );
    interface.current_op = Some(IssueModificationOp::Assignee);
    assert_eq!(
        interface.table_data_from_op(),
        Some(vec![IssueRelatableObject::Assignee(user("ann"))])
    );
    interface.current_op = Some(IssueModificationOp::Project);
    assert_eq!(
        interface.table_data_from_op(),
        Some(vec![
            IssueRelatableObject::Project(project("alpha")),
            IssueRelatableObject::Project(project("beta")),
        ])
    );
    interface.current_op = Some(IssueModificationOp::Cycle);
    assert_eq!(interface.table_data_from_op(), Some(vec![IssueRelatableObject::Cycle(cycle(1))]));
}

#[test]
fn selected_value_needs_a_row_that_exists() {
    let mut interface = filled();
    interface.current_op = Some(IssueModificationOp::Project);
    assert_eq!(interface.selected_value(), None);
    interface.selected_idx = Some(1);
    assert_eq!(interface.selected_value(), Some(IssueRelatableObject::Project(project("beta"))));
    interface.selected_idx = Some(2);
    assert_eq!(interface.selected_value(), None);
    interface.current_op = Some(IssueModificationOp::Title);
    interface.selected_idx = Some(0);
    assert_eq!(interface.selected_value(), None);
    interface.current_op = None;
    assert_eq!(interface.selected_value(), None);
}

#[test]
fn title_update_needs_a_grapheme() {
    let mut interface = LinearIssueOpInterface::default();
    interface.current_op = Some(IssueModificationOp::Title);
    assert!(!interface.is_valid_selection_for_update(""));
    assert!(interface.is_valid_selection_for_update("a"));
    assert!(interface.is_valid_selection_for_update("e\u{301}"));
    assert!(interface.is_valid_selection_for_update(" "));
    interface.selected_idx = Some(0);
    assert!(!interface.is_valid_selection_for_update(""));
}

#[test]
fn list_update_needs_a_selection() {
    let mut interface = LinearIssueOpInterface::default();
    let ops = [
        IssueModificationOp::WorkflowState,
        IssueModificationOp::Assignee,
        IssueModificationOp::Project,
        IssueModificationOp::Cycle,
    ];
    for op in ops {
        interface.current_op = Some(op);
        interface.selected_idx = None;
        assert!(!interface.is_valid_selection_for_update("a title"));
        interface.selected_idx = Some(3);
        assert!(interface.is_valid_selection_for_update(""));
    }
    interface.current_op = None;
    assert!(!interface.is_valid_selection_for_update("a title"));
}

#[test]
fn selection_allows_update_by_count() {
    let mut interface = LinearIssueOpInterface::default();
    interface.current_op = Some(IssueModificationOp::Title);
    assert!(!interface.selection_allows_update(0));
    assert!(interface.selection_allows_update(1));
    interface.current_op = Some(IssueModificationOp::Cycle);
    assert!(!interface.selection_allows_update(5));
    interface.selected_idx = Some(0);
    assert!(interface.selection_allows_update(0));
    interface.current_op = None;
    assert!(!interface.selection_allows_update(5));
}

#[test]
fn reset_op_drops_the_values_of_the_current_field_only() {
    let mut interface = filled();
    interface.current_op = Some(IssueModificationOp::Assignee);
    interface.selected_idx = Some(0);
    interface.data_state = Some(0);
    interface.cursor =
        GraphQLCursor { platform: Platform::Linear, has_next_page: true, end_cursor: String::from("x") };
    interface.reset_op();
    assert_eq!(interface.current_op, None);
    assert_eq!(interface.selected_idx, None);
    assert_eq!(interface.data_state, None);
    assert_eq!(interface.cursor, GraphQLCursor::default());
    assert!(interface.obj_data.users.is_empty());
    assert_eq!(interface.obj_data.workflow_states, vec![state("Todo"), state("Done")]);
    assert_eq!(interface.obj_data.projects, vec![project("alpha"), project("beta")]);
    assert_eq!(interface.obj_data.cycles, vec![cycle(1)]);
}

#[test]
fn reset_op_of_a_title_edit_keeps_all_values() {
    let mut interface = filled();
    interface.current_op = Some(IssueModificationOp::Title);
    interface.reset_op();
    assert_eq!(interface.current_op, None);
    assert_eq!(interface.obj_data, filled().obj_data);
}

#[test]
fn reset_op_for_each_list() {
    let mut interface = filled();
    interface.current_op = Some(IssueModificationOp::WorkflowState);
    interface.reset_op();
    assert!(interface.obj_data.workflow_states.is_empty());
    interface.current_op = Some(IssueModificationOp::Project);
    interface.reset_op();
    assert!(interface.obj_data.projects.is_empty());
    interface.current_op = Some(IssueModificationOp::Cycle);
    interface.reset_op();
    assert!(interface.obj_data.cycles.is_empty());
    assert_eq!(interface.obj_data.users, vec![user("ann")]);
}

#[test]
fn op_data_goes_to_the_list_of_its_kind() {
    let mut data = ModificationOpData::default();
    data.push(IssueRelatableObject::Assignee(user("ann")));
    data.extend(&vec![
        IssueRelatableObject::WorkflowState(state("Todo")),
        IssueRelatableObject::Assignee(user("bob")),
        IssueRelatableObject::Cycle(cycle(2)),
        IssueRelatableObject::Project(project("alpha")),
    ]);
    assert_eq!(data.users, vec![user("ann"), user("bob")]);
    assert_eq!(data.workflow_states, vec![state("Todo")]);
    assert_eq!(data.cycles, vec![cycle(2)]);
    assert_eq!(data.projects, vec![project("alpha")]);
}

#[test]
fn load_op_data_shapes_the_answer() {
    let info = PageInfo { has_next_page: Some(true), end_cursor: Some(String::from("c")) };
    let items = vec![IssueRelatableObject::Assignee(user("ann"))];
    let listed = LinearIssueOpInterface::load_op_data(
        &IssueModificationOp::Assignee,
        Ok(OpDataPage { data_nodes: NodeList::Items(items.clone()), cursor_info: info.clone() }),
    );
    assert_eq!(listed, Some(OpDataResponse { data: items, cursor_info: info.clone() }));

    let null = LinearIssueOpInterface::load_op_data(
        &IssueModificationOp::Assignee,
        Ok(OpDataPage { data_nodes: NodeList::Null, cursor_info: info.clone() }),
    );
    assert_eq!(
        null,
        Some(OpDataResponse {
            data: Vec::new(),
            cursor_info: PageInfo { has_next_page: None, end_cursor: None },
        })
    );

    let malformed = LinearIssueOpInterface::load_op_data(
        &IssueModificationOp::Project,
        Ok(OpDataPage { data_nodes: NodeList::Malformed, cursor_info: info }),
    );
    assert_eq!(malformed, None);

    let failed = LinearIssueOpInterface::load_op_data(
        &IssueModificationOp::Cycle,
        Err(LinearClientError { message: String::from("timeout") }),
    );
    assert_eq!(failed, None);
}
