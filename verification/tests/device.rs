use mde_kdc_host::device::DeviceTable;
use mde_kdc_host::path::join;
use mde_kdc_host::DeviceRecord;

fn record(id: &str, name: &str) -> DeviceRecord {
    DeviceRecord { device_id: id.into(), device_name: name.into(), paired_at_ms: -5 }
}

#[test]
fn later_records_win() {
    let table = DeviceTable::from_records(&vec![
        record("a", "first"),
        record("b", "other"),
        record("a", "second"),
    ]);
    assert_eq!(table.len(), 2);
    assert_eq!(table.get("a").unwrap().device_name, "second");
    assert_eq!(table.get("b").unwrap().device_name, "other");
    let mut names: Vec<String> = table.records().into_iter().map(|r| r.device_name).collect();
    names.sort();
    assert_eq!(names, ["other", "second"]);
}

#[test]
fn removed_records_are_gone() {
    let mut table = DeviceTable::new();
    table.insert(record("a", "x"));
    table.insert(record("b", "y"));
    table.remove("a");
    table.remove("c");
    assert!(!table.contains("a"));
    assert!(table.contains("b"));
    assert_eq!(table.len(), 1);
    assert_eq!(table.get("b").unwrap().paired_at_ms, -5);
}

#[test]
fn paths_join_as_on_unix() {
    let joined = |base: &str, part: &str| {
        let ours = join(&base.as_bytes().to_vec(), part.as_bytes());
        let text = String::from_utf8(ours).unwrap();
        assert_eq!(text, std::path::Path::new(base).join(part).to_str().unwrap());
        text
    };
    assert_eq!(joined("/a", "b"), "/a/b");
    assert_eq!(joined("/a/", "b"), "/a/b");
    assert_eq!(joined("", "b"), "b");
    assert_eq!(joined("/a", "/b"), "/b");
    assert_eq!(joined("/a", ""), "/a/");
    assert_eq!(joined("", ""), "");
}
