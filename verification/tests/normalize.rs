use linear_dashboard::filter::{FilterClause, FilterExpr, StateNames};
use linear_dashboard::normalize::{
    canonicalize, find_position, find_state_clause, fold_names, normalize_names,
    normalize_state_filter, UnknownState, WorkflowStateCache,
};
use linear_dashboard::types::WorkflowState;

fn state(name: &str) -> WorkflowState {
    WorkflowState {
        id: format!("id-{}", name),
        name: String::from(name),
        state_type: String::from("unstarted"),
        description: None,
        color: String::from("#ffffff"),
    }
}

fn names(list: &[&str]) -> Vec<String> {
    list.iter().map(|s| String::from(*s)).collect()
}

fn state_in(list: &[&str]) -> FilterClause {
    FilterClause::State { names: StateNames::In(names(list)), rest: String::from("{}") }
}

fn state_not_in(list: &[&str]) -> FilterClause {
    FilterClause::State { names: StateNames::NotIn(names(list)), rest: String::from("{}") }
}

fn other(raw: &str) -> FilterClause {
    FilterClause::Other(String::from(raw))
}

#[test]
fn case_normalization_rewrites_in_list() {
    let mut filter = FilterExpr { and: vec![state_in(&["todo"])] };
    let states = vec![state("Todo")];
    assert_eq!(normalize_state_filter(&mut filter, &states), Ok(()));
    assert_eq!(filter, FilterExpr { and: vec![state_in(&["Todo"])] });
}

#[test]
fn case_normalization_rewrites_not_in_list() {
    let mut filter = FilterExpr { and: vec![state_not_in(&["DONE", "canceled"])] };
    let states = vec![state("Todo"), state("Done"), state("Canceled")];
    assert_eq!(normalize_state_filter(&mut filter, &states), Ok(()));
    assert_eq!(filter, FilterExpr { and: vec![state_not_in(&["Done", "Canceled"])] });
}

#[test]
fn value_without_canonical_match_is_an_error() {
    let mut filter = FilterExpr { and: vec![state_in(&["todo", "nope", "neither"])] };
    let before = FilterExpr { and: vec![state_in(&["todo", "nope", "neither"])] };
    let states = vec![state("Todo"), state("Done")];
    assert_eq!(normalize_state_filter(&mut filter, &states), Err(UnknownState { position: 1 }));
    assert_eq!(filter, before);
}

#[test]
fn value_against_empty_reference_list_is_an_error() {
    let mut filter = FilterExpr { and: vec![state_in(&["todo"])] };
    let states: Vec<WorkflowState> = Vec::new();
    assert_eq!(normalize_state_filter(&mut filter, &states), Err(UnknownState { position: 0 }));
}

#[test]
fn empty_value_list_is_left_empty() {
    let mut filter = FilterExpr { and: vec![state_in(&[])] };
    let states: Vec<WorkflowState> = Vec::new();
    assert_eq!(normalize_state_filter(&mut filter, &states), Ok(()));
    assert_eq!(filter, FilterExpr { and: vec![state_in(&[])] });
}

#[test]
fn only_the_first_state_clause_is_rewritten() {
    let mut filter = FilterExpr {
        and: vec![other("{\"assignee\":{}}"), state_in(&["todo"]), state_in(&["done"])],
    };
    let states = vec![state("Todo"), state("Done")];
    assert_eq!(normalize_state_filter(&mut filter, &states), Ok(()));
    assert_eq!(
        filter,
        FilterExpr {
            and: vec![other("{\"assignee\":{}}"), state_in(&["Todo"]), state_in(&["done"])],
        }
    );
}

#[test]
fn unknown_name_in_a_later_state_clause_is_not_looked_at() {
    let mut filter = FilterExpr { and: vec![state_in(&["todo"]), state_in(&["nope"])] };
    let states = vec![state("Todo")];
    assert_eq!(normalize_state_filter(&mut filter, &states), Ok(()));
    assert_eq!(filter, FilterExpr { and: vec![state_in(&["Todo"]), state_in(&["nope"])] });
}

#[test]
fn rest_of_the_state_clause_is_untouched() {
    let clause = FilterClause::State {
        names: StateNames::In(names(&["in progress"])),
        rest: String::from("{\"type\":{\"eq\":\"started\"}}"),
    };
    let mut filter = FilterExpr { and: vec![clause] };
    let states = vec![state("In Progress")];
    assert_eq!(normalize_state_filter(&mut filter, &states), Ok(()));
    assert_eq!(
        filter.and[0],
        FilterClause::State {
            names: StateNames::In(names(&["In Progress"])),
            rest: String::from("{\"type\":{\"eq\":\"started\"}}"),
        }
    );
}

#[test]
fn filter_without_state_clause_is_unchanged() {
    let mut filter = FilterExpr { and: vec![other("a"), other("b")] };
    let states = vec![state("Todo")];
    assert_eq!(normalize_state_filter(&mut filter, &states), Ok(()));
    assert_eq!(filter, FilterExpr { and: vec![other("a"), other("b")] });
    let mut empty = FilterExpr { and: vec![] };
    assert_eq!(normalize_state_filter(&mut empty, &states), Ok(()));
    assert_eq!(empty, FilterExpr { and: vec![] });
}

#[test]
fn state_clause_without_names_is_unchanged() {
    let clause =
        FilterClause::State { names: StateNames::Neither, rest: String::from("{\"type\":1}") };
    let mut filter = FilterExpr { and: vec![clause] };
    let states: Vec<WorkflowState> = Vec::new();
    assert_eq!(normalize_state_filter(&mut filter, &states), Ok(()));
    assert_eq!(
        filter.and[0],
        FilterClause::State { names: StateNames::Neither, rest: String::from("{\"type\":1}") }
    );
}

#[test]
fn first_matching_state_gives_the_spelling() {
    let states = vec![state("Done"), state("TODO"), state("Todo")];
    assert_eq!(canonicalize(&names(&["todo", "tOdO"]), &states), Ok(names(&["TODO", "TODO"])));
}

#[test]
fn canonicalize_folds_both_sides() {
    let states = vec![state("\u{c9}tat Final")];
    assert_eq!(
        canonicalize(&names(&["\u{e9}TAT final"]), &states),
        Ok(names(&["\u{c9}tat Final"]))
    );
}

#[test]
fn canonicalize_keeps_exact_names() {
    let states = vec![state("Todo"), state("Done")];
    assert_eq!(canonicalize(&names(&["Done", "Todo"]), &states), Ok(names(&["Done", "Todo"])));
}

#[test]
fn canonicalize_reports_the_first_unknown_value() {
    let states = vec![state("Todo")];
    assert_eq!(
        canonicalize(&names(&["todo", "x", "y"]), &states),
        Err(UnknownState { position: 1 })
    );
}

#[test]
fn normalize_names_keeps_the_kind_of_list() {
    let states = vec![state("Todo")];
    assert_eq!(
        normalize_names(&StateNames::In(names(&["TODO"])), &states),
        Ok(StateNames::In(names(&["Todo"])))
    );
    assert_eq!(
        normalize_names(&StateNames::NotIn(names(&["TODO"])), &states),
        Ok(StateNames::NotIn(names(&["Todo"])))
    );
    assert_eq!(normalize_names(&StateNames::Neither, &states), Ok(StateNames::Neither));
    assert_eq!(
        normalize_names(&StateNames::NotIn(names(&["gone"])), &states),
        Err(UnknownState { position: 0 })
    );
}

#[test]
fn find_position_gives_the_first_equal_element() {
    let hay = names(&["a", "b", "a", "c"]);
    assert_eq!(find_position(&hay, &String::from("a")), Some(0));
    assert_eq!(find_position(&hay, &String::from("c")), Some(3));
    assert_eq!(find_position(&hay, &String::from("A")), None);
    assert_eq!(find_position(&Vec::new(), &String::from("a")), None);
}

#[test]
fn fold_names_lowercases_each_name() {
    let states = vec![state("Todo"), state("IN REVIEW"), state("done")];
    assert_eq!(fold_names(&states), names(&["todo", "in review", "done"]));
}

#[test]
fn find_state_clause_gives_the_first() {
    let filter = FilterExpr { and: vec![other("a"), state_in(&["x"]), state_not_in(&["y"])] };
    assert_eq!(find_state_clause(&filter), Some(1));
    assert_eq!(find_state_clause(&FilterExpr { and: vec![other("a")] }), None);
}

#[test]
fn state_cache_loads_once() {
    let mut cache = WorkflowStateCache::new();
    assert!(cache.states.is_none());
    assert!(cache.begin_load());
    assert!(cache.loading);
    assert!(!cache.begin_load());
    cache.finish_load(Some(vec![state("Todo")]));
    assert!(!cache.loading);
    assert_eq!(cache.states, Some(vec![state("Todo")]));
    assert!(!cache.begin_load());
    assert!(!cache.loading);
    cache.finish_load(Some(vec![state("Other")]));
    assert_eq!(cache.states, Some(vec![state("Todo")]));
}

#[test]
fn state_cache_can_retry_after_failed_load() {
    let mut cache = WorkflowStateCache::new();
    assert!(cache.begin_load());
    cache.finish_load(None);
    assert!(cache.states.is_none());
    assert!(cache.begin_load());
    cache.finish_load(Some(Vec::new()));
    assert_eq!(cache.states, Some(Vec::new()));
    assert!(!cache.begin_load());
}
