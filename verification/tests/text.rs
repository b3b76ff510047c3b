use linear_dashboard::filter::{
    clone_texts, CustomView, Filter, FilterClause, FilterExpr, FilterType, StateNames,
};
use linear_dashboard::text::{clone_opt_text, same_opt_text, same_text};

#[test]
fn same_text_compares_characters() {
    assert!(same_text("", ""));
    assert!(same_text("load_viewer", "load_viewer"));
    assert!(!same_text("load_viewer", "load_viewers"));
    assert!(!same_text("Todo", "todo"));
}

#[test]
fn optional_texts_are_copied_and_compared() {
    let some = Some(String::from("x"));
    assert_eq!(clone_opt_text(&some), some);
    assert_eq!(clone_opt_text(&None), None);
    assert!(same_opt_text(&some, &Some(String::from("x"))));
    assert!(same_opt_text(&None, &None));
    assert!(!same_opt_text(&some, &None));
    assert!(!same_opt_text(&None, &some));
    assert!(!same_opt_text(&some, &Some(String::from("y"))));
}

#[test]
fn filters_are_equal_by_kind_and_reference() {
    let a = Filter { filter_type: FilterType::SelectedState, ref_id: Some(String::from("s1")) };
    let b = Filter { filter_type: FilterType::SelectedState, ref_id: Some(String::from("s1")) };
    let c = Filter { filter_type: FilterType::SelectedState, ref_id: Some(String::from("s2")) };
    let d = Filter { filter_type: FilterType::NoLabel, ref_id: Some(String::from("s1")) };
    let e = Filter { filter_type: FilterType::SelectedState, ref_id: None };
    assert!(a == b);
    assert!(a != c);
    assert!(a != d);
    assert!(a != e);
    assert!(a.clone() == a);
    assert_eq!(FilterType::DueSoon, FilterType::DueSoon);
    assert_ne!(FilterType::DueSoon, FilterType::DueToday);
}

#[test]
fn filter_expressions_are_copied_whole() {
    let filter = FilterExpr {
        and: vec![
            FilterClause::Other(String::from("{\"priority\":{\"lte\":2}}")),
            FilterClause::State {
                names: StateNames::NotIn(vec![String::from("Done"), String::from("Canceled")]),
                rest: String::from("{\"state\":{\"name\":{\"nin\":null}}}"),
            },
            FilterClause::State { names: StateNames::In(Vec::new()), rest: String::new() },
            FilterClause::State { names: StateNames::Neither, rest: String::from("{}") },
        ],
    };
    assert_eq!(filter.clone(), filter);
    let view = CustomView {
        id: String::from("v"),
        name: Some(String::from("Mine")),
        color: None,
        description: Some(String::from("d")),
        organization_name: None,
        team_key: Some(String::from("ENG")),
        filter_data: filter,
    };
    assert_eq!(view.clone(), view);
    let texts = vec![String::from("a"), String::from("b")];
    assert_eq!(clone_texts(&texts), texts);
}
