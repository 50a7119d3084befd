use chunk_store::listing::dir_entry;

fn entries() -> Vec<Option<String>> {
    vec![
        Some(String::from("b")),
        None,
        Some(String::from("a")),
        Some(String::from("ab")),
        Some(String::from("a")),
    ]
}

#[test]
fn dir_entry_finds_the_first_entry_of_that_name() {
    assert_eq!(dir_entry(&entries(), &String::from("a")), Some(2));
    assert_eq!(dir_entry(&entries(), &String::from("b")), Some(0));
    assert_eq!(dir_entry(&entries(), &String::from("ab")), Some(3));
}

#[test]
fn dir_entry_finds_nothing_but_the_exact_name() {
    assert_eq!(dir_entry(&entries(), &String::from("A")), None);
    assert_eq!(dir_entry(&entries(), &String::from("")), None);
    assert_eq!(dir_entry(&entries(), &String::from("abc")), None);
    assert_eq!(dir_entry(&Vec::new(), &String::from("a")), None);
}
