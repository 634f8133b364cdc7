use todo_list::store::TodoApp;

fn clear(app: &mut TodoApp) {
    while app.count() > 0 {
        let id = app.get(0).id;
        app.delete(id).expect("delete failed");
    }
}

#[test]
fn persistence_round_trip() {
    let path = "/tmp/todo_list_round_trip.db3";
    let mut before: Vec<(i64, String)> = Vec::new();
    {
        let mut app = TodoApp::open(path).expect("open failed");
        clear(&mut app);
        assert_eq!(app.submit(String::from("alpha")).expect("submit failed"), true);
        assert_eq!(app.submit(String::from("beta")).expect("submit failed"), true);
        for i in 0..app.count() {
            let t = app.get(i);
            before.push((t.id, t.name.clone()));
        }
    }
    let app = TodoApp::open(path).expect("reopen failed");
    assert_eq!(app.count(), before.len());
    for (i, (id, name)) in before.iter().enumerate() {
        let t = app.get(i);
        assert_eq!(t.id, *id);
        assert_eq!(&t.name, name);
    }
}

#[test]
fn example_buy_milk() {
    let path = "/tmp/todo_list_example.db3";
    let mut app = TodoApp::open(path).expect("open failed");
    clear(&mut app);
    assert_eq!(app.heading(), "No tasks available. Add a task to get started!");

    assert_eq!(app.submit(String::from("Buy milk")).expect("submit failed"), true);
    assert_eq!(app.count(), 1);
    assert_eq!(app.get(0).name, "Buy milk");
    assert_eq!(app.heading(), "List of tasks");

    assert_eq!(app.submit(String::from("   ")).expect("submit failed"), false);
    assert_eq!(app.count(), 1);
    assert_eq!(app.get(0).name, "Buy milk");

    let id = app.get(0).id;
    assert_eq!(app.delete(id).expect("delete failed"), true);
    assert_eq!(app.count(), 0);
    assert!(app.is_empty());
    assert_eq!(app.heading(), "No tasks available. Add a task to get started!");
}

#[test]
fn submit_is_written_through() {
    let path = "/tmp/todo_list_write_through.db3";
    let mut app = TodoApp::open(path).expect("open failed");
    clear(&mut app);
    assert_eq!(app.submit(String::from("persisted")).expect("submit failed"), true);
    let id = app.get(0).id;
    app.refresh().expect("refresh failed");
    assert_eq!(app.count(), 1);
    assert_eq!(app.get(0).id, id);
    assert_eq!(app.get(0).name, "persisted");
    assert!(app.contains_id(id));
}

#[test]
fn delete_is_written_through() {
    let path = "/tmp/todo_list_delete_through.db3";
    let mut app = TodoApp::open(path).expect("open failed");
    clear(&mut app);
    assert_eq!(app.submit(String::from("doomed")).expect("submit failed"), true);
    let id = app.get(0).id;
    assert_eq!(app.delete(id).expect("delete failed"), true);
    app.refresh().expect("refresh failed");
    assert_eq!(app.count(), 0);
}

#[test]
fn delete_absent_id_is_ok_and_noop() {
    let path = "/tmp/todo_list_delete_absent.db3";
    let mut app = TodoApp::open(path).expect("open failed");
    clear(&mut app);
    assert_eq!(app.submit(String::from("kept")).expect("submit failed"), true);
    let id = app.get(0).id;
    assert_eq!(app.delete(id + 1).expect("delete failed"), false);
    assert_eq!(app.count(), 1);
    assert_eq!(app.get(0).name, "kept");
}

#[test]
fn storage_ids_are_fresh_across_submits() {
    let path = "/tmp/todo_list_fresh_ids.db3";
    let mut app = TodoApp::open(path).expect("open failed");
    clear(&mut app);
    for n in 0..4 {
        assert_eq!(app.submit(format!("task {n}")).expect("submit failed"), true);
    }
    let mut ids: Vec<i64> = Vec::new();
    for i in 0..app.count() {
        ids.push(app.get(i).id);
    }
    let mut deduped = ids.clone();
    deduped.sort();
    deduped.dedup();
    assert_eq!(deduped.len(), ids.len());
}

#[test]
fn open_bad_path_reports_error() {
    let r = TodoApp::open("/nonexistent-dir/todo_list.db3");
    assert!(r.is_err());
    if let Err(e) = r {
        assert!(!e.message.is_empty());
    }
}

#[test]
fn record_refuses_displayed_identifier() {
    let path = "/tmp/todo_list_record_collision.db3";
    let mut app = TodoApp::open(path).expect("open failed");
    clear(&mut app);
    assert_eq!(app.submit(String::from("first")).expect("submit failed"), true);
    let id = app.get(0).id;
    let r = app.record(id, String::from("second"));
    assert!(r.is_err());
    if let Err(e) = r {
        assert!(!e.message.is_empty());
    }
    assert_eq!(app.count(), 1);
    assert_eq!(app.get(0).name, "first");

    assert_eq!(app.record(id + 1, String::from("second")).expect("record failed"), true);
    assert_eq!(app.count(), 2);
    assert_eq!(app.get(1).name, "second");
}
