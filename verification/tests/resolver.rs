use linear_dashboard::cursor::{GraphQLCursor, PageInfo, Platform};
use linear_dashboard::filter::{CustomView, FilterClause, FilterExpr, StateNames};
use linear_dashboard::normalize::UnknownState;
use linear_dashboard::types::{Issue, LinearConfig, WorkflowState};
use linear_dashboard::view_resolver::{
    clone_answer, optimized_view_issue_fetch, single_endpoint_fetch, FetchError, IssuePage,
    LinearClientError, QueryResult, ViewLoader,
};

fn issue(id: &str) -> Issue {
    Issue {
        id: Some(String::from(id)),
        team_id: Some(String::from("team")),
        number: None,
        title: Some(format!("title of {}", id)),
        description: None,
        created_at: None,
        state: None,
        assignee: None,
        project: None,
        cycle: None,
    }
}

fn issues(first: usize, count: usize) -> Vec<Issue> {
    (first..first + count).map(|n| issue(&format!("i{}", n))).collect()
}

fn page(first: usize, count: usize, more: bool) -> QueryResult {
    Ok(IssuePage {
        issue_nodes: Some(issues(first, count)),
        cursor_info: PageInfo {
            has_next_page: Some(more),
            end_cursor: Some(format!("after-{}", first + count)),
        },
    })
}

fn failure() -> QueryResult {
    Err(LinearClientError { message: String::from("no route to host") })
}

fn config(page_size: u32) -> LinearConfig {
    LinearConfig { api_key: Some(String::from("key")), view_panel_page_size: page_size }
}

fn state(name: &str) -> WorkflowState {
    WorkflowState {
        id: format!("id-{}", name),
        name: String::from(name),
        state_type: String::from("unstarted"),
        description: None,
        color: String::from("#ffffff"),
    }
}

fn state_filter(name: &str) -> FilterExpr {
    FilterExpr {
        and: vec![FilterClause::State {
            names: StateNames::In(vec![String::from(name)]),
            rest: String::from("{}"),
        }],
    }
}

fn no_filter() -> FilterExpr {
    FilterExpr { and: Vec::new() }
}

fn linear_cursor(more: bool, token: &str) -> GraphQLCursor {
    GraphQLCursor { platform: Platform::Linear, has_next_page: more, end_cursor: String::from(token) }
}

#[test]
fn fetch_stops_at_the_page_that_fills_the_target() {
    let mut cursor = GraphQLCursor::default();
    let mut request_num = 0u32;
    let mut filter = no_filter();
    let answers = vec![page(0, 2, true), page(2, 2, true), page(4, 2, true)];
    let found =
        single_endpoint_fetch(&mut cursor, &mut request_num, &mut filter, &config(3), &Vec::new(), &answers);
    assert_eq!(found, Ok(issues(0, 4)));
    assert_eq!(request_num, 2);
    assert_eq!(cursor, linear_cursor(true, "after-4"));
}

#[test]
fn fetch_stops_when_the_source_is_exhausted() {
    let mut cursor = GraphQLCursor::default();
    let mut request_num = 0u32;
    let mut filter = no_filter();
    let answers = vec![page(0, 2, true), page(2, 1, false), page(3, 5, true)];
    let found =
        single_endpoint_fetch(&mut cursor, &mut request_num, &mut filter, &config(10), &Vec::new(), &answers);
    assert_eq!(found, Ok(issues(0, 3)));
    assert_eq!(request_num, 2);
    assert_eq!(cursor, linear_cursor(false, "after-3"));
    assert!(cursor.is_exhausted());
}

#[test]
fn fetch_on_exhausted_cursor_asks_nothing() {
    let mut cursor = linear_cursor(false, "end");
    let mut request_num = 7u32;
    let mut filter = no_filter();
    let answers = vec![page(0, 2, true)];
    let found =
        single_endpoint_fetch(&mut cursor, &mut request_num, &mut filter, &config(10), &Vec::new(), &answers);
    assert_eq!(found, Ok(Vec::new()));
    assert_eq!(request_num, 7);
    assert_eq!(cursor, linear_cursor(false, "end"));
}

#[test]
fn fetch_with_zero_target_asks_once() {
    let mut cursor = GraphQLCursor::default();
    let mut request_num = 0u32;
    let mut filter = no_filter();
    let answers = vec![page(0, 2, true), page(2, 2, true)];
    let found =
        single_endpoint_fetch(&mut cursor, &mut request_num, &mut filter, &config(0), &Vec::new(), &answers);
    assert_eq!(found, Ok(issues(0, 2)));
    assert_eq!(request_num, 1);
}

#[test]
fn fetch_counts_on_from_the_given_request_number() {
    let mut cursor = linear_cursor(true, "after-10");
    let mut request_num = 5u32;
    let mut filter = no_filter();
    let answers = vec![page(10, 1, true), page(11, 1, true), page(12, 1, false)];
    let found =
        single_endpoint_fetch(&mut cursor, &mut request_num, &mut filter, &config(2), &Vec::new(), &answers);
    assert_eq!(found, Ok(issues(10, 2)));
    assert_eq!(request_num, 7);
    assert_eq!(cursor, linear_cursor(true, "after-12"));
}

#[test]
fn fetch_goes_on_over_empty_pages() {
    let mut cursor = GraphQLCursor::default();
    let mut request_num = 0u32;
    let mut filter = no_filter();
    let answers = vec![page(0, 0, true), page(0, 0, true), page(0, 1, true)];
    let found =
        single_endpoint_fetch(&mut cursor, &mut request_num, &mut filter, &config(1), &Vec::new(), &answers);
    assert_eq!(found, Ok(issues(0, 1)));
    assert_eq!(request_num, 3);
}

#[test]
fn failed_query_fails_the_fetch() {
    let mut cursor = GraphQLCursor::default();
    let mut request_num = 0u32;
    let mut filter = no_filter();
    let answers = vec![page(0, 1, true), failure(), page(1, 1, false)];
    let found =
        single_endpoint_fetch(&mut cursor, &mut request_num, &mut filter, &config(5), &Vec::new(), &answers);
    assert_eq!(found, Err(FetchError::QueryFailed));
    assert_eq!(request_num, 1);
    assert_eq!(cursor, linear_cursor(true, "after-1"));
}

#[test]
fn answer_without_issue_list_fails_the_fetch() {
    let mut cursor = GraphQLCursor::default();
    let mut request_num = 0u32;
    let mut filter = no_filter();
    let answers: Vec<QueryResult> = vec![Ok(IssuePage {
        issue_nodes: None,
        cursor_info: PageInfo { has_next_page: Some(false), end_cursor: Some(String::from("x")) },
    })];
    let found =
        single_endpoint_fetch(&mut cursor, &mut request_num, &mut filter, &config(5), &Vec::new(), &answers);
    assert_eq!(found, Err(FetchError::MalformedNodes));
    assert_eq!(request_num, 0);
    assert_eq!(cursor, GraphQLCursor::default());
}

#[test]
fn answer_without_page_info_fails_the_fetch() {
    let mut cursor = GraphQLCursor::default();
    let mut request_num = 0u32;
    let mut filter = no_filter();
    let answers: Vec<QueryResult> = vec![Ok(IssuePage {
        issue_nodes: Some(issues(0, 2)),
        cursor_info: PageInfo { has_next_page: None, end_cursor: None },
    })];
    let found =
        single_endpoint_fetch(&mut cursor, &mut request_num, &mut filter, &config(5), &Vec::new(), &answers);
    assert_eq!(found, Err(FetchError::MalformedPageInfo));
    assert_eq!(request_num, 0);
}

#[test]
fn answers_that_end_early_count_as_a_failed_query() {
    let mut cursor = GraphQLCursor::default();
    let mut request_num = 0u32;
    let mut filter = no_filter();
    let answers = vec![page(0, 1, true)];
    let found =
        single_endpoint_fetch(&mut cursor, &mut request_num, &mut filter, &config(5), &Vec::new(), &answers);
    assert_eq!(found, Err(FetchError::QueryFailed));
    assert_eq!(request_num, 1);
    let none: Vec<QueryResult> = Vec::new();
    let mut fresh = GraphQLCursor::default();
    let found =
        single_endpoint_fetch(&mut fresh, &mut request_num, &mut filter, &config(5), &Vec::new(), &none);
    assert_eq!(found, Err(FetchError::QueryFailed));
    assert_eq!(request_num, 1);
}

#[test]
fn unknown_state_fails_the_fetch_before_any_query() {
    let mut cursor = GraphQLCursor::default();
    let mut request_num = 0u32;
    let mut filter = state_filter("nope");
    let answers = vec![page(0, 1, false)];
    let found = single_endpoint_fetch(
        &mut cursor,
        &mut request_num,
        &mut filter,
        &config(5),
        &vec![state("Todo")],
        &answers,
    );
    assert_eq!(found, Err(FetchError::UnknownState(UnknownState { position: 0 })));
    assert_eq!(request_num, 0);
    assert_eq!(cursor, GraphQLCursor::default());
    assert_eq!(filter, state_filter("nope"));
}

#[test]
fn fetch_leaves_the_filter_normalized() {
    let mut cursor = GraphQLCursor::default();
    let mut request_num = 0u32;
    let mut filter = state_filter("todo");
    let answers = vec![page(0, 1, false)];
    let found = single_endpoint_fetch(
        &mut cursor,
        &mut request_num,
        &mut filter,
        &config(5),
        &vec![state("Todo")],
        &answers,
    );
    assert_eq!(found, Ok(issues(0, 1)));
    assert_eq!(filter, state_filter("Todo"));
}

#[test]
fn every_query_carries_the_normalized_filter() {
    let states = vec![state("Todo")];
    let mut loader = ViewLoader::start(&state_filter("TODO"), None, 2, &states).unwrap();
    let first = loader.next_query().unwrap();
    assert_eq!(first.filter, state_filter("Todo"));
    assert_eq!(first.cursor, GraphQLCursor::default());
    assert_eq!(loader.absorb(page(0, 1, true)), Ok(()));
    let second = loader.next_query().unwrap();
    assert_eq!(second.filter, state_filter("Todo"));
    assert_eq!(second.cursor, linear_cursor(true, "after-1"));
    assert_eq!(loader.absorb(page(1, 1, true)), Ok(()));
    assert!(loader.is_done());
    assert!(loader.next_query().is_none());
    assert_eq!(loader.found, issues(0, 2));
    assert_eq!(loader.request_num, 2);
}

#[test]
fn loader_start_rejects_unknown_state() {
    let states = vec![state("Todo")];
    assert_eq!(
        ViewLoader::start(&state_filter("gone"), None, 2, &states),
        Err(UnknownState { position: 0 })
    );
}

#[test]
fn loader_is_left_as_it_was_by_a_bad_answer() {
    let mut loader = ViewLoader::start(&no_filter(), Some(linear_cursor(true, "c")), 5, &Vec::new())
        .unwrap();
    assert_eq!(loader.absorb(page(0, 2, true)), Ok(()));
    assert_eq!(loader.absorb(failure()), Err(FetchError::QueryFailed));
    assert_eq!(loader.found, issues(0, 2));
    assert_eq!(loader.request_num, 1);
    assert_eq!(loader.cursor, linear_cursor(true, "after-2"));
    assert!(!loader.is_done());
}

#[test]
fn optimized_fetch_returns_records_cursor_and_count() {
    let view = CustomView {
        id: String::from("v1"),
        name: Some(String::from("Mine")),
        color: None,
        description: None,
        organization_name: None,
        team_key: None,
        filter_data: state_filter("todo"),
    };
    let answers = vec![page(0, 3, true), page(3, 3, false)];
    let fetched =
        optimized_view_issue_fetch(&view, None, config(4), &vec![state("Todo")], &answers).unwrap();
    assert_eq!(fetched.0, issues(0, 6));
    assert_eq!(fetched.1, linear_cursor(false, "after-6"));
    assert_eq!(fetched.2, 2);
    assert_eq!(view.filter_data, state_filter("todo"));
}

#[test]
fn optimized_fetch_goes_on_from_a_cursor() {
    let view = CustomView {
        id: String::from("v1"),
        name: None,
        color: None,
        description: None,
        organization_name: None,
        team_key: None,
        filter_data: no_filter(),
    };
    let answers = vec![page(6, 2, false)];
    let fetched = optimized_view_issue_fetch(
        &view,
        Some(linear_cursor(true, "after-6")),
        config(50),
        &Vec::new(),
        &answers,
    )
    .unwrap();
    assert_eq!(fetched.0, issues(6, 2));
    assert_eq!(fetched.2, 1);
    let failed =
        optimized_view_issue_fetch(&view, None, config(50), &Vec::new(), &vec![failure()]);
    assert_eq!(failed, Err(FetchError::QueryFailed));
}

#[test]
fn clone_answer_copies_pages_and_failures() {
    let good = page(0, 2, true);
    assert_eq!(clone_answer(&good), good);
    let bad = failure();
    assert_eq!(clone_answer(&bad), bad);
}

#[test]
fn pagination_terminates_with_the_accumulated_records() {
    // Page sizes drawn from a fixed pseudo-random sequence; the last page
    // says that nothing follows.
    let mut seed: u64 = 0x2545_f491_4f6c_dd1d;
    let mut next = |bound: u64| {
        seed ^= seed << 13;
        seed ^= seed >> 7;
        seed ^= seed << 17;
        seed % bound
    };
    for _ in 0..200 {
        let page_count = 1 + next(8) as usize;
        let target = next(20) as u32;
        let mut answers = Vec::new();
        let mut sizes = Vec::new();
        let mut first = 0usize;
        for p in 0..page_count {
            let size = 1 + next(5) as usize;
            answers.push(page(first, size, p + 1 < page_count));
            sizes.push(size);
            first += size;
        }
        let mut cursor = GraphQLCursor::default();
        let mut request_num = 0u32;
        let mut filter = no_filter();
        let found = single_endpoint_fetch(
            &mut cursor,
            &mut request_num,
            &mut filter,
            &config(target),
            &Vec::new(),
            &answers,
        )
        .unwrap();
        let rounds = request_num as usize;
        assert!(rounds >= 1 && rounds <= page_count);
        assert!(rounds == 1 || rounds <= target as usize);
        let taken: usize = sizes[..rounds].iter().sum();
        assert_eq!(found, issues(0, taken));
        assert!(taken >= target as usize || rounds == page_count);
        let before_last: usize = sizes[..rounds - 1].iter().sum();
        assert!(rounds == 1 || before_last < target as usize);
        assert_eq!(cursor.end_cursor, format!("after-{}", taken));
        assert_eq!(cursor.has_next_page, rounds < page_count);
    }
}
