use linear_dashboard::filter::{CustomView, FilterExpr};
use linear_dashboard::table::{
    count_line_breaks, field_text, issue_heading, issue_row, row_height, value_row, view_slot_row,
};
use linear_dashboard::types::{Cycle, Issue, IssueRelatableObject, Project, User, WorkflowState};

fn texts(list: &[&str]) -> Vec<String> {
    list.iter().map(|s| String::from(*s)).collect()
}

fn bare_issue() -> Issue {
    Issue {
        id: None,
        team_id: None,
        number: None,
        title: None,
        description: None,
        created_at: None,
        state: None,
        assignee: None,
        project: None,
        cycle: None,
    }
}

#[test]
fn field_text_falls_back() {
    assert_eq!(field_text(&Some(String::from("x")), "none"), "x");
    assert_eq!(field_text(&None, "none"), "none");
    assert_eq!(field_text(&Some(String::new()), "none"), "");
}

#[test]
fn line_breaks_are_counted() {
    assert_eq!(count_line_breaks(""), 0);
    assert_eq!(count_line_breaks("one line"), 0);
    assert_eq!(count_line_breaks("a\nb\nc"), 2);
    assert_eq!(count_line_breaks("\n\n\n"), 3);
    assert_eq!(count_line_breaks("\u{10a}\u{a0a}\u{1f60a}\n\u{e9}"), 1);
    assert_eq!(count_line_breaks("a\r\nb"), 1);
}

#[test]
fn row_is_as_high_as_its_highest_cell() {
    assert_eq!(row_height(&Vec::new()), 1);
    assert_eq!(row_height(&texts(&["a", "b"])), 1);
    assert_eq!(row_height(&texts(&["a\nb", "c", "d\ne\nf"])), 3);
    assert_eq!(row_height(&texts(&["x\n\n\n", ""])), 4);
}

#[test]
fn empty_slot_says_so() {
    assert_eq!(view_slot_row(&None), texts(&["Empty Slot", "", "", ""]));
}

#[test]
fn view_slot_row_shows_the_view() {
    let view = CustomView {
        id: String::from("v"),
        name: Some(String::from("Mine")),
        color: Some(String::from("#ff0000")),
        description: Some(String::from("my issues")),
        organization_name: Some(String::from("Acme")),
        team_key: Some(String::from("ENG")),
        filter_data: FilterExpr { and: Vec::new() },
    };
    assert_eq!(view_slot_row(&Some(view)), texts(&["Mine", "my issues", "Acme", "ENG"]));
}

#[test]
fn view_without_team_is_for_all_teams() {
    let view = CustomView {
        id: String::from("v"),
        name: None,
        color: None,
        description: None,
        organization_name: None,
        team_key: None,
        filter_data: FilterExpr { and: Vec::new() },
    };
    assert_eq!(view_slot_row(&Some(view)), texts(&["", "", "", "All Teams"]));
}

#[test]
fn issue_row_shows_number_title_state_description_date() {
    let mut issue = bare_issue();
    assert_eq!(issue_row(&issue), texts(&["", "", "", "", ""]));
    issue.number = Some(42);
    issue.title = Some(String::from("Fix it"));
    issue.state = Some(WorkflowState {
        id: String::from("s"),
        name: String::from("In Progress"),
        state_type: String::from("started"),
        description: None,
        color: String::from("#00ff00"),
    });
    issue.description = Some(String::from("line one\nline two"));
    issue.created_at = Some(String::from("2021-02-06T17:47:01.039Z"));
    let row = issue_row(&issue);
    assert_eq!(
        row,
        texts(&["42", "Fix it", "In Progress", "line one\nline two", "2021-02-06T17:47:01.039Z"])
    );
    assert_eq!(row_height(&row), 2);
    issue.number = Some(-7);
    assert_eq!(issue_row(&issue)[0], "-7");
}

#[test]
fn value_row_shows_the_fields_of_its_kind() {
    let state = WorkflowState {
        id: String::from("s"),
        name: String::from("Todo"),
        state_type: String::from("unstarted"),
        description: Some(String::from("not begun")),
        color: String::from("#000000"),
    };
    assert_eq!(
        value_row(&IssueRelatableObject::WorkflowState(state)),
        texts(&["Todo", "unstarted", "not begun"])
    );
    let user = User { id: String::from("u"), name: Some(String::from("Ann")), display_name: None };
    assert_eq!(value_row(&IssueRelatableObject::Assignee(user)), texts(&["Ann", ""]));
    let project = Project {
        id: String::from("p"),
        name: None,
        state: Some(String::from("planned")),
        color: None,
    };
    assert_eq!(value_row(&IssueRelatableObject::Project(project)), texts(&["", "planned"]));
    let cycle = Cycle {
        id: String::from("c"),
        name: Some(String::from("Sprint")),
        number: 12,
        starts_at: String::from("2021-01-01"),
        ends_at: String::from("2021-01-14"),
    };
    assert_eq!(
        value_row(&IssueRelatableObject::Cycle(cycle)),
        texts(&["Sprint", "12", "2021-01-01", "2021-01-14"])
    );
}

#[test]
fn heading_joins_number_and_title() {
    let mut issue = bare_issue();
    assert_eq!(issue_heading(&issue), "0 - ERR TITLE NOT FOUND");
    issue.number = Some(11);
    issue.title = Some(String::from("Test Insomnia 1"));
    assert_eq!(issue_heading(&issue), "11 - Test Insomnia 1");
}
