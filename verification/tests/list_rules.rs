use todo_list::tasks::Task;
use todo_list::tasks::TaskList;
use todo_list::text::is_blank_str;

#[test]
fn submit_nonblank_adds_one() {
    let mut list = TaskList::new();
    let added = list.submit(1, String::from("Buy milk"));
    assert!(added);
    assert_eq!(list.len(), 1);
    assert_eq!(list.get(0).id, 1);
    assert_eq!(list.get(0).name, "Buy milk");
}

#[test]
fn submit_blank_adds_nothing() {
    let mut list = TaskList::new();
    assert!(!list.submit(1, String::from("")));
    assert!(!list.submit(1, String::from("   ")));
    assert!(!list.submit(1, String::from(" \t\r\n ")));
    assert!(!list.submit(1, String::from("\u{a0}\u{2003}")));
    assert_eq!(list.len(), 0);
    assert!(list.is_empty());
}

#[test]
fn submit_keeps_surrounding_whitespace() {
    let mut list = TaskList::new();
    assert!(list.submit(7, String::from("  Buy milk  ")));
    assert_eq!(list.get(0).name, "  Buy milk  ");
}

#[test]
fn delete_removes_exactly_that_task() {
    let mut list = TaskList::new();
    assert!(list.submit(1, String::from("alpha")));
    assert!(list.submit(2, String::from("beta")));
    assert!(list.submit(3, String::from("gamma")));
    let removed = list.delete(2);
    assert!(removed);
    assert_eq!(list.len(), 2);
    assert_eq!(list.get(0).id, 1);
    assert_eq!(list.get(0).name, "alpha");
    assert_eq!(list.get(1).id, 3);
    assert_eq!(list.get(1).name, "gamma");
    assert!(!list.contains_id(2));
}

#[test]
fn delete_absent_id_changes_nothing() {
    let mut list = TaskList::new();
    assert!(list.submit(1, String::from("alpha")));
    let removed = list.delete(99);
    assert!(!removed);
    assert_eq!(list.len(), 1);
    assert_eq!(list.get(0).name, "alpha");
}

#[test]
fn count_is_submits_minus_deletes() {
    let mut list = TaskList::new();
    let n: i64 = 5;
    for id in 1..=n {
        assert!(list.submit(id, format!("task {id}")));
    }
    assert_eq!(list.len(), 5);
    assert!(list.delete(1));
    assert!(list.delete(4));
    assert_eq!(list.len(), 3);
}

#[test]
fn load_keeps_first_of_duplicate_ids() {
    let rows = vec![
        Task { id: 1, name: String::from("first") },
        Task { id: 2, name: String::from("second") },
        Task { id: 1, name: String::from("shadowed") },
    ];
    let list = TaskList::load(&rows);
    assert_eq!(list.len(), 2);
    assert_eq!(list.get(0).id, 1);
    assert_eq!(list.get(0).name, "first");
    assert_eq!(list.get(1).id, 2);
    assert_eq!(list.get(1).name, "second");
}

#[test]
fn blank_test_matches_trim_is_empty() {
    for s in ["", " ", "  \t ", "\u{a0}", "a", " a ", "\tx", "Buy milk"] {
        assert_eq!(is_blank_str(s), s.trim().is_empty(), "disagree on {s:?}");
    }
}

#[test]
fn load_reproduces_unique_rows_exactly() {
    let rows = vec![
        Task { id: 3, name: String::from("gamma") },
        Task { id: 1, name: String::from("alpha") },
        Task { id: 2, name: String::from("beta") },
    ];
    let list = TaskList::load(&rows);
    assert_eq!(list.len(), rows.len());
    for (i, row) in rows.iter().enumerate() {
        assert_eq!(list.get(i), row);
    }
}
