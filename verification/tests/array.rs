use truco_boundary::{free_string_array, CStringArray};

fn strings(count: usize) -> Vec<String> {
    (0..count).map(|i| format!("orden{}", i)).collect()
}

#[test]
fn a_list_counts_its_strings() {
    for count in [0usize, 1, 2, 7, 100] {
        let list = CStringArray::from_vec(strings(count));
        assert_eq!(list.len(), count);
    }
}

#[test]
fn a_list_keeps_its_strings_in_order() {
    let list = CStringArray::from_vec(vec![
        "truco".to_string(),
        "envido".to_string(),
        "mazo".to_string(),
    ]);
    assert_eq!(list.len(), 3);
    assert_eq!(
        list.into_vec(),
        vec!["truco".to_string(), "envido".to_string(), "mazo".to_string()]
    );
}

#[test]
fn release_visits_every_string() {
    for count in [0usize, 1, 2, 7, 100] {
        let list = CStringArray::from_vec(strings(count));
        assert_eq!(free_string_array(list), count);
    }
}

#[test]
fn free_and_free_string_array_agree() {
    let list = CStringArray::from_vec(strings(5));
    assert_eq!(list.free(), 5);
    let list = CStringArray::from_vec(strings(5));
    assert_eq!(free_string_array(list), 5);
}

#[test]
fn an_empty_list_releases_nothing() {
    let list = CStringArray::from_vec(Vec::new());
    assert_eq!(list.len(), 0);
    assert_eq!(free_string_array(list), 0);
}
