use linear_dashboard::cursor::{GraphQLCursor, PageInfo, Platform};

#[test]
fn default_cursor_is_start_of_sequence() {
    let cursor = GraphQLCursor::default();
    assert_eq!(cursor.platform, Platform::Na);
    assert!(!cursor.has_next_page);
    assert_eq!(cursor.end_cursor, "");
    assert!(!cursor.is_exhausted());
}

#[test]
fn cursor_from_complete_page_info() {
    let info = PageInfo { has_next_page: Some(true), end_cursor: Some(String::from("abc")) };
    let cursor = GraphQLCursor::linear_cursor_from_page_info(&info).unwrap();
    assert_eq!(cursor.platform, Platform::Linear);
    assert!(cursor.has_next_page);
    assert_eq!(cursor.end_cursor, "abc");
    assert!(!cursor.is_exhausted());
}

#[test]
fn cursor_from_last_page_is_exhausted() {
    let info = PageInfo { has_next_page: Some(false), end_cursor: Some(String::from("z")) };
    let cursor = GraphQLCursor::linear_cursor_from_page_info(&info).unwrap();
    assert!(cursor.is_exhausted());
}

#[test]
fn cursor_from_incomplete_page_info_fails() {
    let no_flag = PageInfo { has_next_page: None, end_cursor: Some(String::from("abc")) };
    assert!(GraphQLCursor::linear_cursor_from_page_info(&no_flag).is_none());
    let no_token = PageInfo { has_next_page: Some(true), end_cursor: None };
    assert!(GraphQLCursor::linear_cursor_from_page_info(&no_token).is_none());
}
