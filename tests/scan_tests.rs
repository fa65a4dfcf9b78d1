use dynamo_export::config::ScanConfig;
use dynamo_export::export::ExportError;
use dynamo_export::item::{AttrValue, Item};
use dynamo_export::scan::{
    finish_export, FailurePolicy, ScanAction, ScanEvent, ScanPhase, ScanProgress, ScanRequest,
    PAGE_LIMIT,
};

fn keyed(v: &str) -> Item {
    let mut it = Item::new();
    it.insert("id".to_string(), AttrValue::S(v.to_string()));
    it
}

fn page(from: usize, to: usize) -> Vec<Item> {
    (from..to).map(|i| keyed(&format!("k{}", i))).collect()
}

#[test]
fn request_projects_primary_key_with_page_limit() {
    let c = ScanConfig::new("my_table", "id");
    let r = ScanRequest::for_config(&c);
    assert_eq!(r.table_name, "my_table");
    assert_eq!(r.projected_attribute, "id");
    assert_eq!(r.page_limit, 1000);
    assert_eq!(PAGE_LIMIT, 1000);
}

#[test]
fn pages_are_concatenated_in_order() {
    let mut p = ScanProgress::new();
    assert_eq!(p.step(ScanEvent::Page(page(0, 1000))), ScanAction::FetchNext);
    assert_eq!(p.step(ScanEvent::Page(page(1000, 2000))), ScanAction::FetchNext);
    assert_eq!(p.step(ScanEvent::Page(page(2000, 2500))), ScanAction::FetchNext);
    assert_eq!(p.step(ScanEvent::End), ScanAction::Stop);
    assert_eq!(p.phase, ScanPhase::Complete);
    assert_eq!(p.items.len(), 2500);
    for (i, it) in p.items.iter().enumerate() {
        assert_eq!(it.string_attribute(&"id".to_string()), Some(format!("k{}", i)));
    }
}

#[test]
fn empty_pages_collect_nothing() {
    let mut p = ScanProgress::new();
    assert_eq!(p.step(ScanEvent::Page(Vec::new())), ScanAction::FetchNext);
    assert_eq!(p.step(ScanEvent::End), ScanAction::Stop);
    assert!(p.items.is_empty());
    let c = ScanConfig::new("t", "id");
    assert_eq!(finish_export(&p, &c, FailurePolicy::Strict).unwrap(), Some(Vec::new()));
}

#[test]
fn failure_stops_the_scan_and_later_events_are_ignored() {
    let mut p = ScanProgress::new();
    p.step(ScanEvent::Page(page(0, 3)));
    assert_eq!(p.step(ScanEvent::Failed), ScanAction::Stop);
    assert_eq!(p.phase, ScanPhase::Failed);
    assert_eq!(p.step(ScanEvent::Page(page(3, 5))), ScanAction::Stop);
    assert_eq!(p.step(ScanEvent::End), ScanAction::Stop);
    assert_eq!(p.phase, ScanPhase::Failed);
    assert_eq!(p.items.len(), 3);
}

#[test]
fn complete_scan_exports_collected_keys() {
    let mut p = ScanProgress::new();
    p.step(ScanEvent::Page(vec![keyed("a"), keyed("b")]));
    let mut other = Item::new();
    other.insert("name".to_string(), AttrValue::S("c".to_string()));
    p.step(ScanEvent::Page(vec![other]));
    p.step(ScanEvent::End);
    let c = ScanConfig::new("t", "id");
    let out = finish_export(&p, &c, FailurePolicy::Lenient).unwrap();
    assert_eq!(out, Some(b"a\nb\n".to_vec()));
}

#[test]
fn failed_scan_lenient_writes_nothing_and_succeeds() {
    let mut p = ScanProgress::new();
    p.step(ScanEvent::Page(vec![keyed("a")]));
    p.step(ScanEvent::Failed);
    let c = ScanConfig::new("t", "id");
    assert_eq!(finish_export(&p, &c, FailurePolicy::Lenient).unwrap(), None);
}

#[test]
fn failed_scan_strict_reports_scan_error() {
    let mut p = ScanProgress::new();
    p.step(ScanEvent::Failed);
    let c = ScanConfig::new("t", "id");
    assert_eq!(finish_export(&p, &c, FailurePolicy::Strict).unwrap_err(), ExportError::Scan);
}
