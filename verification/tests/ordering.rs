use vidreprocess::models::VideoFilter;
use vidreprocess::ordering::{is_named, selection_order};

fn filter(name: &str, priority: i8) -> VideoFilter {
    VideoFilter {
        short_name: name.to_string(),
        long_name: format!("{} filter", name),
        priority,
        code: format!("{}=1", name),
    }
}

fn names(items: &[&str]) -> Vec<String> {
    items.iter().map(|s| s.to_string()).collect()
}

#[test]
fn order_is_ascending_by_priority() {
    let catalog = vec![filter("half", 10), filter("denoise", -1), filter("rot", 1), filter("w3fdif", -10)];
    let order = selection_order(&catalog, &names(&["half", "denoise", "rot", "w3fdif"]));
    assert_eq!(order, vec![3, 1, 2, 0]);
}

#[test]
fn equal_priorities_keep_catalog_order() {
    let catalog = vec![
        filter("a", 5),
        filter("b", 1),
        filter("c", 5),
        filter("d", 1),
        filter("e", 5),
        filter("f", 1),
    ];
    let order = selection_order(&catalog, &names(&["f", "e", "d", "c", "b", "a"]));
    assert_eq!(order, vec![1, 3, 5, 0, 2, 4]);
}

#[test]
fn only_selected_rows_are_ordered() {
    let catalog = vec![filter("half", 10), filter("denoise", -1), filter("rot", 1)];
    assert_eq!(selection_order(&catalog, &names(&["rot", "half"])), vec![2, 0]);
    assert_eq!(selection_order(&catalog, &names(&[])), Vec::<usize>::new());
    assert_eq!(selection_order(&Vec::new(), &names(&["half"])), Vec::<usize>::new());
}

#[test]
fn unknown_and_repeated_names() {
    let catalog = vec![filter("half", 10), filter("denoise", -1)];
    assert_eq!(selection_order(&catalog, &names(&["nope", "half", "half"])), vec![0]);
}

#[test]
fn rows_that_share_a_name_are_all_selected() {
    let catalog = vec![filter("x", 3), filter("y", 2), filter("x", 1)];
    assert_eq!(selection_order(&catalog, &names(&["x"])), vec![2, 0]);
}

#[test]
fn extreme_priorities() {
    let catalog = vec![filter("hi", 127), filter("lo", -128), filter("mid", 0)];
    assert_eq!(selection_order(&catalog, &names(&["hi", "lo", "mid"])), vec![1, 2, 0]);
}

#[test]
fn is_named_finds_exact_names() {
    let list = names(&["half", "sharp"]);
    assert!(is_named(&list, &"sharp".to_string()));
    assert!(!is_named(&list, &"shar".to_string()));
    assert!(!is_named(&names(&[]), &"".to_string()));
}
