use linear_dashboard::app::{App, TokenValidationState, VIEW_SLOT_CAPACITY};
use linear_dashboard::cursor::{GraphQLCursor, PageInfo, Platform};
use linear_dashboard::filter::{CustomView, FilterExpr};
use linear_dashboard::issue_op::{IssueModificationOp, OpDataResponse};
use linear_dashboard::panel::DashboardViewPanel;
use linear_dashboard::requests::{CustomViewsPage, UpdateAnswer, ViewIssues, ViewerAnswer};
use linear_dashboard::types::{
    Cycle, Issue, IssueRelatableObject, Project, User, WorkflowState,
};
use linear_dashboard::view_resolver::FetchError;

fn view(id: &str) -> CustomView {
    CustomView {
        id: String::from(id),
        name: Some(format!("view {}", id)),
        color: None,
        description: None,
        organization_name: None,
        team_key: None,
        filter_data: FilterExpr { and: Vec::new() },
    }
}

fn issue(id: &str) -> Issue {
    Issue {
        id: Some(String::from(id)),
        team_id: Some(String::from("team-1")),
        number: Some(7),
        title: Some(format!("title {}", id)),
        description: None,
        created_at: None,
        state: None,
        assignee: None,
        project: None,
        cycle: None,
    }
}

fn cursor(token: &str, more: bool) -> GraphQLCursor {
    GraphQLCursor { platform: Platform::Linear, has_next_page: more, end_cursor: String::from(token) }
}

fn page_info(token: &str, more: bool) -> PageInfo {
    PageInfo { has_next_page: Some(more), end_cursor: Some(String::from(token)) }
}

fn panel(id: &str, issue_ids: &[&str]) -> DashboardViewPanel {
    DashboardViewPanel {
        filter: view(id),
        issue_table_data: issue_ids.iter().map(|i| issue(i)).collect(),
        view_loader: Some(cursor(id, true)),
        request_num: 1,
        loading: false,
    }
}

fn user(id: &str) -> User {
    User { id: String::from(id), name: Some(String::from(id)), display_name: None }
}

fn state(name: &str) -> WorkflowState {
    WorkflowState {
        id: format!("s-{}", name),
        name: String::from(name),
        state_type: String::from("started"),
        description: None,
        color: String::from("#000000"),
    }
}

fn app_with(panels: Vec<Option<DashboardViewPanel>>) -> App {
    let mut app = App::default();
    app.team_tz_load_done = true;
    let mut panels = panels;
    while panels.len() < VIEW_SLOT_CAPACITY {
        panels.push(None);
    }
    app.linear_dashboard_view_list =
        panels.iter().map(|p| p.as_ref().map(|p| p.filter.clone())).collect();
    app.linear_dashboard_view_panel_list = panels;
    app
}

#[test]
fn viewer_answer_with_user_makes_the_token_valid() {
    let mut app = App::default();
    app.dispatch_event("load_viewer");
    app.viewer_loaded(
        &String::from("lin_api_1"),
        Some(ViewerAnswer { error: false, viewer: Some(user("me")) }),
    );
    assert_eq!(app.config_interface_input.token_validation_state, TokenValidationState::Valid);
    assert_eq!(app.linear_config.api_key, Some(String::from("lin_api_1")));
    assert_eq!(app.viewer, Some(user("me")));
}

#[test]
fn viewer_error_or_silence_makes_the_token_invalid() {
    let mut app = App::default();
    app.dispatch_event("load_viewer");
    app.viewer_loaded(
        &String::from("bad"),
        Some(ViewerAnswer { error: true, viewer: Some(user("me")) }),
    );
    assert_eq!(app.config_interface_input.token_validation_state, TokenValidationState::Invalid);
    assert_eq!(app.linear_config.api_key, None);
    assert_eq!(app.viewer, None);

    let mut silent = App::default();
    silent.dispatch_event("load_viewer");
    silent.viewer_loaded(&String::from("bad"), None);
    assert_eq!(silent.config_interface_input.token_validation_state, TokenValidationState::Invalid);
    assert_eq!(silent.linear_config.api_key, None);
}

#[test]
fn viewer_answer_without_user_decides_nothing() {
    let mut app = App::default();
    app.dispatch_event("load_viewer");
    app.viewer_loaded(&String::from("odd"), Some(ViewerAnswer { error: false, viewer: None }));
    assert_eq!(app.config_interface_input.token_validation_state, TokenValidationState::Validating);
    assert_eq!(app.linear_config.api_key, None);
}

#[test]
fn custom_views_are_appended_and_the_cursor_advances() {
    let mut app = App::default();
    app.linear_custom_view_select.view_table_data = vec![view("a")];
    assert_eq!(app.dispatch_event("load_custom_views").len(), 1);
    let answer = CustomViewsPage {
        views: Some(vec![view("b"), view("c")]),
        cursor_info: page_info("after-c", true),
    };
    assert_eq!(app.custom_views_loaded(Some(answer)), Ok(()));
    assert_eq!(app.linear_custom_view_select.view_table_data, vec![view("a"), view("b"), view("c")]);
    assert_eq!(app.linear_custom_view_cursor, cursor("after-c", true));
    assert!(!app.linear_custom_view_select.loading);
    assert_eq!(app.dispatch_event("load_custom_views").len(), 1);
}

#[test]
fn custom_views_with_malformed_page_info_are_refused() {
    let mut app = App::default();
    app.linear_custom_view_select.view_table_data = vec![view("a")];
    app.dispatch_event("load_custom_views");
    let answer = CustomViewsPage {
        views: Some(vec![view("b")]),
        cursor_info: PageInfo { has_next_page: Some(true), end_cursor: None },
    };
    assert_eq!(app.custom_views_loaded(Some(answer)), Err(FetchError::MalformedPageInfo));
    assert_eq!(app.linear_custom_view_select.view_table_data, vec![view("a")]);
    assert_eq!(app.linear_custom_view_cursor, GraphQLCursor::default());
    assert!(!app.linear_custom_view_select.loading);
}

#[test]
fn custom_views_answer_without_list_only_moves_the_cursor() {
    let mut app = App::default();
    app.dispatch_event("load_custom_views");
    let answer = CustomViewsPage { views: None, cursor_info: page_info("x", false) };
    assert_eq!(app.custom_views_loaded(Some(answer)), Ok(()));
    assert!(app.linear_custom_view_select.view_table_data.is_empty());
    assert_eq!(app.linear_custom_view_cursor, cursor("x", false));
    assert!(!app.linear_custom_view_select.loading);
}

#[test]
fn failed_custom_views_load_gives_the_guard_back() {
    let mut app = App::default();
    app.dispatch_event("load_custom_views");
    assert_eq!(app.custom_views_loaded(None), Ok(()));
    assert!(!app.linear_custom_view_select.loading);
    assert!(app.linear_custom_view_select.view_table_data.is_empty());
}

#[test]
fn first_load_replaces_the_records() {
    let mut app = app_with(vec![Some(panel("A", &["old"])), Some(panel("B", &["b0"]))]);
    app.linear_dashboard_view_panel_list[0].as_mut().unwrap().loading = true;
    let fetched =
        ViewIssues { issues: vec![issue("n0"), issue("n1")], cursor: cursor("n", false), request_num: 2 };
    app.view_issues_loaded(&String::from("A"), Some(fetched), false);
    let first = app.linear_dashboard_view_panel_list[0].as_ref().unwrap();
    assert_eq!(first.issue_table_data, vec![issue("n0"), issue("n1")]);
    assert_eq!(first.view_loader, Some(cursor("n", false)));
    assert_eq!(first.request_num, 3);
    assert!(!first.loading);
    assert_eq!(app.linear_dashboard_view_panel_list[1], Some(panel("B", &["b0"])));
}

#[test]
fn pagination_appends_the_records() {
    let mut app = app_with(vec![Some(panel("A", &["a0"])), Some(panel("B", &["b0"]))]);
    app.view_panel_to_paginate = 1;
    assert_eq!(app.dispatch_event("paginate_dashboard_view").len(), 1);
    let fetched = ViewIssues { issues: vec![issue("b1")], cursor: cursor("b", true), request_num: 1 };
    app.view_issues_loaded(&String::from("B"), Some(fetched), true);
    let second = app.linear_dashboard_view_panel_list[1].as_ref().unwrap();
    assert_eq!(second.issue_table_data, vec![issue("b0"), issue("b1")]);
    assert_eq!(second.view_loader, Some(cursor("b", true)));
    assert_eq!(second.request_num, 2);
    assert!(!second.loading);
    assert_eq!(app.linear_dashboard_view_panel_list[0], Some(panel("A", &["a0"])));
    assert_eq!(app.dispatch_event("paginate_dashboard_view").len(), 1);
}

#[test]
fn failed_fetch_only_gives_the_guard_back() {
    let mut app = app_with(vec![Some(panel("A", &["a0"]))]);
    assert_eq!(app.dispatch_event("paginate_dashboard_view").len(), 1);
    app.view_issues_loaded(&String::from("A"), None, true);
    assert_eq!(app.linear_dashboard_view_panel_list[0], Some(panel("A", &["a0"])));
}

#[test]
fn answer_for_a_panel_that_does_not_wait_is_dropped() {
    let mut app = app_with(vec![Some(panel("A", &["a0"]))]);
    let fetched = ViewIssues { issues: vec![issue("x")], cursor: cursor("x", true), request_num: 1 };
    app.view_issues_loaded(&String::from("A"), Some(fetched), false);
    assert_eq!(app.linear_dashboard_view_panel_list[0], Some(panel("A", &["a0"])));
    let other = ViewIssues { issues: vec![issue("y")], cursor: cursor("y", true), request_num: 1 };
    app.view_issues_loaded(&String::from("Z"), Some(other), false);
    assert_eq!(app.linear_dashboard_view_panel_list[0], Some(panel("A", &["a0"])));
}

#[test]
fn dashboard_load_lands_in_the_new_panel() {
    let mut app = App::default();
    app.team_tz_load_done = true;
    app.linear_dashboard_view_list[0] = Some(view("A"));
    assert_eq!(app.dispatch_event("load_dashboard_views").len(), 1);
    let fetched = ViewIssues { issues: vec![issue("a0")], cursor: cursor("a", true), request_num: 4 };
    app.view_issues_loaded(&String::from("A"), Some(fetched), false);
    assert_eq!(
        app.linear_dashboard_view_panel_list[0],
        Some(DashboardViewPanel {
            filter: view("A"),
            issue_table_data: vec![issue("a0")],
            view_loader: Some(cursor("a", true)),
            request_num: 4,
            loading: false,
        })
    );
}

#[test]
fn op_data_is_appended_and_the_cursor_advances() {
    let mut app = App::default();
    app.linear_issue_op_interface.current_op = Some(IssueModificationOp::WorkflowState);
    app.linear_issue_op_interface.loading = true;
    app.linear_issue_op_interface.obj_data.workflow_states = vec![state("Todo")];
    let answer = OpDataResponse {
        data: vec![
            IssueRelatableObject::WorkflowState(state("Doing")),
            IssueRelatableObject::WorkflowState(state("Done")),
        ],
        cursor_info: page_info("after-done", false),
    };
    assert_eq!(app.op_data_loaded(Some(answer)), Ok(()));
    assert_eq!(
        app.linear_issue_op_interface.obj_data.workflow_states,
        vec![state("Todo"), state("Doing"), state("Done")]
    );
    assert_eq!(app.linear_issue_op_interface.cursor, cursor("after-done", false));
    assert!(!app.linear_issue_op_interface.loading);
}

#[test]
fn op_data_with_malformed_page_info_is_refused() {
    let mut app = App::default();
    app.linear_issue_op_interface.loading = true;
    let answer = OpDataResponse {
        data: vec![IssueRelatableObject::Assignee(user("ann"))],
        cursor_info: PageInfo { has_next_page: None, end_cursor: None },
    };
    assert_eq!(app.op_data_loaded(Some(answer)), Err(FetchError::MalformedPageInfo));
    assert!(app.linear_issue_op_interface.obj_data.users.is_empty());
    assert_eq!(app.linear_issue_op_interface.cursor, GraphQLCursor::default());
    assert!(!app.linear_issue_op_interface.loading);
}

#[test]
fn failed_op_data_load_gives_the_guard_back() {
    let mut app = App::default();
    app.linear_issue_op_interface.loading = true;
    assert_eq!(app.op_data_loaded(None), Ok(()));
    assert!(!app.linear_issue_op_interface.loading);
}

#[test]
fn confirmed_update_fans_out_to_every_panel() {
    let mut app = app_with(vec![
        Some(panel("A", &["X", "a1"])),
        Some(panel("B", &["b0", "b1"])),
        None,
        Some(panel("C", &["c0", "X", "X"])),
    ]);
    let value = IssueRelatableObject::Assignee(user("U"));
    app.issue_updated(&String::from("X"), &value, Some(UpdateAnswer { success: Some(true) }));

    let mut patched = issue("X");
    patched.assignee = Some(user("U"));
    let first = app.linear_dashboard_view_panel_list[0].as_ref().unwrap();
    assert_eq!(first.issue_table_data, vec![patched.clone(), issue("a1")]);
    assert_eq!(app.linear_dashboard_view_panel_list[1], Some(panel("B", &["b0", "b1"])));
    assert_eq!(app.linear_dashboard_view_panel_list[2], None);
    let fourth = app.linear_dashboard_view_panel_list[3].as_ref().unwrap();
    assert_eq!(fourth.issue_table_data, vec![issue("c0"), patched.clone(), patched]);
    assert_eq!(fourth.view_loader, Some(cursor("C", true)));
    assert_eq!(fourth.request_num, 1);
}

#[test]
fn update_sets_the_field_of_its_kind() {
    let cycle =
        Cycle { id: String::from("c"), name: None, number: 3, starts_at: String::new(), ends_at: String::new() };
    let project = Project { id: String::from("p"), name: None, state: None, color: None };
    let values = vec![
        IssueRelatableObject::WorkflowState(state("Done")),
        IssueRelatableObject::Assignee(user("U")),
        IssueRelatableObject::Project(project.clone()),
        IssueRelatableObject::Cycle(cycle.clone()),
    ];
    let mut app = app_with(vec![Some(panel("A", &["X"]))]);
    for value in values.iter() {
        app.issue_updated(&String::from("X"), value, Some(UpdateAnswer { success: Some(true) }));
    }
    let record = &app.linear_dashboard_view_panel_list[0].as_ref().unwrap().issue_table_data[0];
    assert_eq!(record.state, Some(state("Done")));
    assert_eq!(record.assignee, Some(user("U")));
    assert_eq!(record.project, Some(project));
    assert_eq!(record.cycle, Some(cycle));
    assert_eq!(record.title, Some(String::from("title X")));
    assert_eq!(record.number, Some(7));
}

#[test]
fn unconfirmed_update_changes_nothing() {
    let answers = [
        None,
        Some(UpdateAnswer { success: None }),
        Some(UpdateAnswer { success: Some(false) }),
    ];
    for answer in answers {
        let mut app = app_with(vec![Some(panel("A", &["X"]))]);
        let value = IssueRelatableObject::Assignee(user("U"));
        app.issue_updated(&String::from("X"), &value, answer);
        assert_eq!(app, app_with(vec![Some(panel("A", &["X"]))]));
    }
}

#[test]
fn record_without_identifier_is_never_patched() {
    let mut nameless = panel("A", &["X"]);
    nameless.issue_table_data[0].id = None;
    let mut app = app_with(vec![Some(nameless.clone())]);
    let value = IssueRelatableObject::Assignee(user("U"));
    app.issue_updated(&String::from("X"), &value, Some(UpdateAnswer { success: Some(true) }));
    assert_eq!(app.linear_dashboard_view_panel_list[0], Some(nameless));
}

#[test]
fn counters_must_have_room_for_the_answer() {
    let mut app = app_with(vec![Some(panel("A", &["a0"])), Some(panel("B", &["b0"]))]);
    app.linear_dashboard_view_panel_list[0].as_mut().unwrap().request_num = u32::MAX - 1;
    let fetched = |n: u32| Some(ViewIssues { issues: Vec::new(), cursor: cursor("c", true), request_num: n });
    let a = String::from("A");
    assert!(app.can_take_view_issues(&a, &fetched(5)));
    app.linear_dashboard_view_panel_list[0].as_mut().unwrap().loading = true;
    assert!(app.can_take_view_issues(&a, &fetched(1)));
    assert!(!app.can_take_view_issues(&a, &fetched(2)));
    assert!(app.can_take_view_issues(&a, &None));
    assert!(app.can_take_view_issues(&String::from("B"), &fetched(2)));
    app.view_issues_loaded(&a, fetched(1), true);
    assert_eq!(app.linear_dashboard_view_panel_list[0].as_ref().unwrap().request_num, u32::MAX);
}
