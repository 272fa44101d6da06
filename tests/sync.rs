use dictionary_rs::consumer::{plan_record, PartitionCursor, RecordOutcome, RecordPlan};
use dictionary_rs::document::{kind_for_topic, DocumentFields, EntityDocument, EntityKind};
use dictionary_rs::resolver::TenantContext;
use dictionary_rs::sync::{parse_event_type, Applier, EngineOp, EngineReply, EventType, Step};
use dictionary_rs::text::strip_quotes;

fn fields(id: &str) -> DocumentFields {
    DocumentFields {
        id: id.to_string(),
        context: TenantContext {
            language: Some("en".to_string()),
            client_id: Some("7".to_string()),
            role_id: None,
            user_id: None,
        },
        body: "{\"id\":42}".to_string(),
    }
}

fn applier(p: RecordPlan) -> Applier {
    match p {
        RecordPlan::Apply(a) => a,
        _ => panic!("expected an applier"),
    }
}

/// Runs an applier against replies, returning the calls made and the final step.
fn drive(a: &mut Applier, replies: Vec<EngineReply>) -> (Vec<String>, Step) {
    let mut calls = Vec::new();
    let mut replies = replies.into_iter();
    while a.step() == Step::Perform {
        let call = match a.pending() {
            EngineOp::Create { index, id, body } => format!("create {} {} {}", index, id, body),
            EngineOp::Delete { index, id } => format!("delete {} {}", index, id),
        };
        calls.push(call);
        a.record(&replies.next().expect("a reply"));
    }
    (calls, a.step())
}

#[test]
fn quotes_are_stripped_from_keys() {
    assert_eq!(strip_quotes("\"new\""), "new");
    assert_eq!(strip_quotes("a\"b\"\"c"), "abc");
    assert_eq!(strip_quotes(""), "");
}

#[test]
fn event_types_from_keys() {
    assert_eq!(parse_event_type("\"new\""), EventType::New);
    assert_eq!(parse_event_type("update"), EventType::Update);
    assert_eq!(parse_event_type("\"delete\""), EventType::Delete);
    assert_eq!(parse_event_type("\"NEW\""), EventType::Other);
    assert_eq!(parse_event_type(""), EventType::Other);
}

#[test]
fn topic_table_lookup() {
    assert_eq!(kind_for_topic("menu"), Some(EntityKind::Menu));
    assert_eq!(kind_for_topic("process"), Some(EntityKind::Process));
    assert_eq!(kind_for_topic("browser"), Some(EntityKind::Browser));
    assert_eq!(kind_for_topic("window"), Some(EntityKind::Window));
    assert_eq!(kind_for_topic("form"), Some(EntityKind::Form));
    assert_eq!(kind_for_topic("forms"), None);
    assert_eq!(kind_for_topic("Menu"), None);
}

#[test]
fn document_index_follows_its_scope() {
    let d = EntityDocument::new(EntityKind::Window, fields("1"));
    assert_eq!(d.index_name(), "window_en_7");
}

#[test]
fn new_record_creates_once_then_commits() {
    let mut a = applier(plan_record("browser", "\"new\"", Some(fields("42"))));
    let (calls, step) = drive(&mut a, vec![EngineReply::Done]);
    assert_eq!(calls, vec!["create browser_en_7 42 {\"id\":42}".to_string()]);
    assert_eq!(step, Step::Commit);
    let p = RecordPlan::Apply(a);
    assert_eq!(p.outcome(), RecordOutcome::Commit);
    let mut cursor = PartitionCursor::new(10);
    cursor.settle(10, p.outcome());
    assert_eq!((cursor.committed, cursor.next), (11, 11));
}

#[test]
fn update_record_deletes_then_creates_then_commits() {
    let mut a = applier(plan_record("menu", "update", Some(fields("42"))));
    let (calls, step) = drive(&mut a, vec![EngineReply::Done, EngineReply::Done]);
    assert_eq!(
        calls,
        vec!["delete menu_en_7 42".to_string(), "create menu_en_7 42 {\"id\":42}".to_string()]
    );
    assert_eq!(step, Step::Commit);
}

#[test]
fn delete_twice_second_not_found_is_success() {
    let mut first = applier(plan_record("form", "\"delete\"", Some(fields("3"))));
    let (calls, step) = drive(&mut first, vec![EngineReply::Done]);
    assert_eq!(calls, vec!["delete form_en_7 3".to_string()]);
    assert_eq!(step, Step::Commit);
    let mut second = applier(plan_record("form", "\"delete\"", Some(fields("3"))));
    let (calls, step) = drive(&mut second, vec![EngineReply::NotFound]);
    assert_eq!(calls, vec!["delete form_en_7 3".to_string()]);
    assert_eq!(step, Step::Commit);
}

#[test]
fn failed_call_withholds_commit_and_redelivers() {
    let mut a = applier(plan_record("process", "\"update\"", Some(fields("8"))));
    let (calls, step) =
        drive(&mut a, vec![EngineReply::Done, EngineReply::Failed("engine down".to_string())]);
    assert_eq!(calls.len(), 2);
    assert_eq!(step, Step::Withhold);
    let p = RecordPlan::Apply(a);
    assert_eq!(p.outcome(), RecordOutcome::Redeliver);
    let mut cursor = PartitionCursor::new(5);
    cursor.settle(5, p.outcome());
    assert_eq!((cursor.committed, cursor.next), (5, 5));
}

#[test]
fn failed_delete_stops_before_create() {
    let mut a = applier(plan_record("window", "\"update\"", Some(fields("8"))));
    let (calls, step) = drive(&mut a, vec![EngineReply::Failed("no".to_string())]);
    assert_eq!(calls, vec!["delete window_en_7 8".to_string()]);
    assert_eq!(step, Step::Withhold);
}

#[test]
fn unknown_topic_is_ignored() {
    let p = plan_record("orders", "\"new\"", Some(fields("1")));
    assert!(matches!(p, RecordPlan::Ignore));
    assert_eq!(p.outcome(), RecordOutcome::Pass);
    let mut cursor = PartitionCursor::new(3);
    cursor.settle(3, p.outcome());
    assert_eq!((cursor.committed, cursor.next), (3, 4));
}

#[test]
fn record_without_document_is_skipped() {
    let p = plan_record("menu", "\"new\"", None);
    assert!(matches!(p, RecordPlan::Skip));
    assert_eq!(p.outcome(), RecordOutcome::Pass);
}

#[test]
fn other_event_makes_no_call_and_commits() {
    let mut a = applier(plan_record("menu", "\"rename\"", Some(fields("1"))));
    let (calls, step) = drive(&mut a, vec![]);
    assert!(calls.is_empty());
    assert_eq!(step, Step::Commit);
}
