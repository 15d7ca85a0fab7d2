use otel_cli::names::{contains_name, insert_name, rank_of};

fn list(names: &[&str]) -> Vec<String> {
    names.iter().map(|n| n.to_string()).collect()
}

#[test]
fn contains_name_finds_exact_names_only() {
    let names = list(&["cpu", "disk", "mem"]);
    assert!(contains_name(&names, &"cpu".to_string()));
    assert!(contains_name(&names, &"mem".to_string()));
    assert!(!contains_name(&names, &"cp".to_string()));
    assert!(!contains_name(&names, &"cpu.user".to_string()));
    assert!(!contains_name(&Vec::new(), &"cpu".to_string()));
}

#[test]
fn rank_of_counts_the_smaller_names() {
    let names = list(&["cpu", "disk", "mem"]);
    assert_eq!(rank_of(&names, &"a".to_string()), 0);
    assert_eq!(rank_of(&names, &"cpu".to_string()), 0);
    assert_eq!(rank_of(&names, &"cpu.user".to_string()), 1);
    assert_eq!(rank_of(&names, &"disk".to_string()), 1);
    assert_eq!(rank_of(&names, &"net".to_string()), 3);
    assert_eq!(rank_of(&Vec::new(), &"net".to_string()), 0);
}

#[test]
fn insert_name_keeps_the_list_sorted() {
    let mut names: Vec<String> = Vec::new();
    for name in ["mem", "cpu", "net", "disk", "a", "z"] {
        insert_name(&mut names, name.to_string());
    }
    assert_eq!(names, list(&["a", "cpu", "disk", "mem", "net", "z"]));
}

#[test]
fn insert_name_orders_as_a_sort_does() {
    let words = ["temp", "Temp", "requests", "é", "cpu.user", "cpu", "日本", "0"];
    let mut names: Vec<String> = Vec::new();
    for word in words {
        insert_name(&mut names, word.to_string());
    }
    let mut sorted = list(&words);
    sorted.sort();
    assert_eq!(names, sorted);
}
