use pcatk::geometry::{GeometryStore, Size};

#[test]
fn absent_record_gives_default() {
    let st = GeometryStore::new();
    let d = Size { width: 200, height: 200 };
    assert_eq!(st.restore_or_default(&"main_window".to_string(), d), d);
}

#[test]
fn persisted_record_is_restored() {
    let mut st = GeometryStore::new();
    let name = "image_viewer".to_string();
    st.persist_on_change(&name, Size { width: 400, height: 300 });
    let d = Size { width: 200, height: 200 };
    assert_eq!(st.restore_or_default(&name, d), Size { width: 400, height: 300 });
    assert_eq!(st.restore_or_default(&"main_window".to_string(), d), d);
}

#[test]
fn persisting_again_replaces_the_record() {
    let mut st = GeometryStore::new();
    let a = "main_window".to_string();
    let b = "image_viewer".to_string();
    st.persist_on_change(&a, Size { width: 640, height: 480 });
    st.persist_on_change(&b, Size { width: 400, height: 300 });
    st.persist_on_change(&a, Size { width: 800, height: 600 });
    let d = Size { width: 1, height: 1 };
    assert_eq!(st.restore_or_default(&a, d), Size { width: 800, height: 600 });
    assert_eq!(st.restore_or_default(&b, d), Size { width: 400, height: 300 });
    assert_eq!(st.records.len(), 2);
}
