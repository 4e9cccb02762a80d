use aha_workflow::labels::{label_status, status_for_labels, LabelOverrides};

fn labels(names: &[&str]) -> Vec<String> {
    names.iter().map(|n| n.to_string()).collect()
}

#[test]
fn second_hit_decides() {
    let r = status_for_labels(&labels(&["In development", "Ready"]), &None);
    assert_eq!(r, Some("Ready to ship".to_string()));
}

#[test]
fn single_hit_maps_to_nothing() {
    assert_eq!(status_for_labels(&labels(&["Ready"]), &None), None);
    assert_eq!(status_for_labels(&labels(&["Needs code review"]), &None), None);
}

#[test]
fn no_labels_map_to_nothing() {
    assert_eq!(status_for_labels(&labels(&[]), &None), None);
    assert_eq!(status_for_labels(&labels(&["bug", "help wanted"]), &None), None);
}

#[test]
fn labels_without_status_are_skipped() {
    let r = status_for_labels(&labels(&["bug", "Needs PM review", "wip", "Needs code review", "Ready"]), &None);
    assert_eq!(r, Some("In code review".to_string()));
}

#[test]
fn default_table() {
    let none = None;
    assert_eq!(label_status(&"In development".to_string(), &none), Some("In development".to_string()));
    assert_eq!(label_status(&"Needs code review".to_string(), &none), Some("In code review".to_string()));
    assert_eq!(label_status(&"Needs PM review".to_string(), &none), Some("In PM review".to_string()));
    assert_eq!(label_status(&"Ready".to_string(), &none), Some("Ready to ship".to_string()));
    assert_eq!(label_status(&"ready".to_string(), &none), None);
}

#[test]
fn overrides_take_precedence() {
    let mut table = LabelOverrides::new();
    table.insert("Ready".to_string(), "Shipped".to_string());
    table.insert("qa".to_string(), "In QA".to_string());
    let table = Some(table);
    assert_eq!(label_status(&"Ready".to_string(), &table), Some("Shipped".to_string()));
    assert_eq!(label_status(&"qa".to_string(), &table), Some("In QA".to_string()));
    assert_eq!(label_status(&"Needs PM review".to_string(), &table), Some("In PM review".to_string()));
    let r = status_for_labels(&labels(&["qa", "Ready"]), &table);
    assert_eq!(r, Some("Shipped".to_string()));
}

#[test]
fn override_insert_replaces() {
    let mut table = LabelOverrides::new();
    assert_eq!(table.get(&"x".to_string()), None);
    table.insert("x".to_string(), "one".to_string());
    table.insert("y".to_string(), "two".to_string());
    table.insert("x".to_string(), "three".to_string());
    assert_eq!(table.get(&"x".to_string()), Some("three".to_string()));
    assert_eq!(table.get(&"y".to_string()), Some("two".to_string()));
    assert_eq!(table.get(&"z".to_string()), None);
}
