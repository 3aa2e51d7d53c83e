use discord_bridge::cache::{CachedMessage, CorrelationCache};
use discord_bridge::dispatch::{
    delete_message, grant_role, ping_reply, record_send_outcome, send_content, send_structured_content,
    Dispatch, OutboundCommand, DELETE_ACK, RICH_ACK, ROLE_ACK, SEND_ACK,
};
use discord_bridge::event::{is_own, Author, InboundEvent};
use discord_bridge::guard::GuardOutcome;
use discord_bridge::ids::parse_id;
use discord_bridge::lifecycle::{ConnectionLifecycle, Phase, START_ACK};
use discord_bridge::mailbox::EventMailbox;
use discord_bridge::payload::{resolve_field, resolve_payload, RichFieldInput, RichPayload};

fn event(content: &str, author_id: u64) -> InboundEvent {
    InboundEvent::from_remote(
        content.to_string(),
        Author { name: "user".to_string(), id: author_id, is_bot: false },
        None,
        10,
        20,
        "2024-01-01T00:00:00Z".to_string(),
        None,
    )
}

fn result(id: &str, content: &str) -> CachedMessage {
    CachedMessage { id: id.to_string(), content: content.to_string() }
}

fn launched_lifecycle() -> ConnectionLifecycle {
    let mut life = ConnectionLifecycle::new();
    life.start("SECRET-REDACTED".to_string());
    life
}

#[test]
fn parse_id_reads_decimal_text() {
    assert_eq!(parse_id("123"), 123);
    assert_eq!(parse_id("0"), 0);
    assert_eq!(parse_id("+7"), 7);
    assert_eq!(parse_id("1234567890123456789"), 1234567890123456789);
    assert_eq!(parse_id("18446744073709551615"), u64::MAX);
}

#[test]
fn parse_id_collapses_bad_text_to_zero() {
    assert_eq!(parse_id(""), 0);
    assert_eq!(parse_id("+"), 0);
    assert_eq!(parse_id("-1"), 0);
    assert_eq!(parse_id("12a"), 0);
    assert_eq!(parse_id(" 12"), 0);
    assert_eq!(parse_id("18446744073709551616"), 0);
    assert_eq!(parse_id("99999999999999999999999"), 0);
}

#[test]
fn mailbox_drains_in_push_order() {
    let mut mb = EventMailbox::new();
    mb.push(event("a", 1));
    mb.push(event("b", 2));
    mb.push(event("c", 1));
    assert_eq!(mb.len(), 3);
    let drained = mb.drain_all();
    let contents: Vec<&str> = drained.iter().map(|e| e.content.as_str()).collect();
    assert_eq!(contents, vec!["a", "b", "c"]);
    assert_eq!(mb.len(), 0);
}

#[test]
fn mailbox_keeps_each_producer_order_when_interleaved() {
    let mut mb = EventMailbox::new();
    let first = ["a1", "a2", "a3"];
    let second = ["b1", "b2"];
    mb.push(event(first[0], 1));
    mb.push(event(second[0], 2));
    mb.push(event(first[1], 1));
    mb.push(event(first[2], 1));
    mb.push(event(second[1], 2));
    let drained = mb.drain_all();
    assert_eq!(drained.len(), 5);
    let from_first: Vec<&str> = drained.iter().filter(|e| e.author.id == 1).map(|e| e.content.as_str()).collect();
    let from_second: Vec<&str> = drained.iter().filter(|e| e.author.id == 2).map(|e| e.content.as_str()).collect();
    assert_eq!(from_first, first.to_vec());
    assert_eq!(from_second, second.to_vec());
}

#[test]
fn second_drain_is_empty() {
    let mut mb = EventMailbox::new();
    mb.push(event("x", 1));
    mb.push(event("y", 1));
    assert_eq!(mb.drain_all().len(), 2);
    assert_eq!(mb.drain_all().len(), 0);
}

#[test]
fn drain_of_new_mailbox_is_empty() {
    let mut mb = EventMailbox::new();
    assert!(mb.drain_all().is_empty());
}

#[test]
fn cache_last_put_wins() {
    let mut cache = CorrelationCache::new();
    cache.put("req".to_string(), result("1", "first"));
    cache.put("req".to_string(), result("2", "second"));
    let got = cache.get("req").unwrap();
    assert_eq!(got.id, "2");
    assert_eq!(got.content, "second");
    assert_eq!(cache.len(), 1);
}

#[test]
fn cache_get_absent_is_none_and_get_keeps_entry() {
    let mut cache = CorrelationCache::new();
    assert!(cache.get("missing").is_none());
    cache.put("a".to_string(), result("5", "hello"));
    cache.put("b".to_string(), result("6", "world"));
    assert!(cache.get("missing").is_none());
    assert_eq!(cache.get("a").unwrap().content, "hello");
    assert_eq!(cache.get("a").unwrap().id, "5");
    assert_eq!(cache.get("b").unwrap().id, "6");
    assert_eq!(cache.len(), 2);
}

#[test]
fn cache_clear_forgets_everything() {
    let mut cache = CorrelationCache::new();
    cache.put("a".to_string(), result("1", "x"));
    cache.put("b".to_string(), result("2", "y"));
    cache.clear();
    assert!(cache.get("a").is_none());
    assert!(cache.get("b").is_none());
    assert_eq!(cache.len(), 0);
}

#[test]
fn lifecycle_starts_once() {
    let mut life = ConnectionLifecycle::new();
    assert_eq!(life.phase(), Phase::Idle);
    assert!(!life.has_context());
    let first = life.start("tok".to_string());
    assert_eq!(first.ack, START_ACK);
    assert!(first.create_context);
    assert!(first.spawn_connection);
    assert_eq!(life.phase(), Phase::Connecting);
    assert_eq!(life.credential(), "tok");
    let second = life.start("other".to_string());
    assert_eq!(second.ack, START_ACK);
    assert!(!second.create_context);
    assert!(!second.spawn_connection);
    assert_eq!(life.credential(), "tok");
}

#[test]
fn lifecycle_launched_after_ready_and_stays() {
    let mut life = ConnectionLifecycle::new();
    assert!(!life.is_launched());
    life.start("tok".to_string());
    assert!(!life.is_launched());
    life.on_ready();
    assert!(life.is_launched());
    assert_eq!(life.phase(), Phase::Launched);
    life.start("tok".to_string());
    assert!(life.is_launched());
    let mut cache = CorrelationCache::new();
    life.shutdown(&mut cache);
    assert!(life.is_launched());
}

#[test]
fn shutdown_twice_is_harmless() {
    let mut life = ConnectionLifecycle::new();
    let mut cache = CorrelationCache::new();
    cache.put("r".to_string(), result("1", "c"));
    assert!(!life.shutdown(&mut cache));
    assert!(!life.is_launched());
    assert!(!life.has_context());
    assert!(cache.get("r").is_none());
    assert!(!life.shutdown(&mut cache));
    assert!(!life.is_launched());
    assert!(!life.has_context());
    assert_eq!(life.phase(), Phase::Stopped);
}

#[test]
fn shutdown_takes_context_and_forbids_restart() {
    let mut life = launched_lifecycle();
    let mut cache = CorrelationCache::new();
    assert!(life.shutdown(&mut cache));
    assert!(!life.has_context());
    let again = life.start("tok".to_string());
    assert!(!again.spawn_connection);
    assert!(!again.create_context);
    assert!(!life.has_context());
    assert_eq!(life.phase(), Phase::Stopped);
}

#[test]
fn title_only_payload_takes_defaults() {
    let mut p = RichPayload::empty();
    p.title = Some("T".to_string());
    let e = resolve_payload(&p);
    assert_eq!(e.title, "T");
    assert_eq!(e.description, "");
    assert_eq!(e.image, "");
    assert_eq!(e.thumbnail, "");
    assert_eq!(e.footer, "");
    assert_eq!(e.author, "");
    assert_eq!(e.color, 0);
    assert!(e.fields.is_empty());
}

#[test]
fn field_without_inline_is_not_inline() {
    let input = RichFieldInput { name: Some("n".to_string()), value: Some("v".to_string()), inline: None };
    let f = resolve_field(&input);
    assert_eq!(f.name, "n");
    assert_eq!(f.value, "v");
    assert!(!f.inline);
}

#[test]
fn full_payload_is_kept() {
    let p = RichPayload {
        title: Some("T".to_string()),
        description: Some("D".to_string()),
        image: Some("img".to_string()),
        thumbnail: Some("th".to_string()),
        footer: Some("F".to_string()),
        author: Some("A".to_string()),
        color: Some(16711680),
        fields: Some(vec![
            RichFieldInput { name: Some("a".to_string()), value: None, inline: Some(true) },
            RichFieldInput { name: None, value: Some("b".to_string()), inline: None },
        ]),
    };
    let e = resolve_payload(&p);
    assert_eq!(e.title, "T");
    assert_eq!(e.description, "D");
    assert_eq!(e.image, "img");
    assert_eq!(e.thumbnail, "th");
    assert_eq!(e.footer, "F");
    assert_eq!(e.author, "A");
    assert_eq!(e.color, 16711680);
    assert_eq!(e.fields.len(), 2);
    assert_eq!(e.fields[0].name, "a");
    assert_eq!(e.fields[0].value, "");
    assert!(e.fields[0].inline);
    assert_eq!(e.fields[1].name, "");
    assert_eq!(e.fields[1].value, "b");
    assert!(!e.fields[1].inline);
}

#[test]
fn is_own_heuristic() {
    assert!(is_own(false, false));
    assert!(!is_own(false, true));
    assert!(!is_own(true, false));
    assert!(!is_own(true, true));
}

#[test]
fn from_remote_normalizes_event() {
    let user = InboundEvent::from_remote(
        "hi".to_string(),
        Author { name: "u".to_string(), id: 1, is_bot: false },
        Some(vec![7, 8]),
        2,
        3,
        "ts".to_string(),
        None,
    );
    assert!(user.is_own);
    assert_eq!(user.role_ids, Some(vec![7, 8]));
    assert_eq!(user.channel_id, 2);
    assert_eq!(user.event_id, 3);
    assert_eq!(user.author.name, "u");
    let bot = InboundEvent::from_remote(
        "hi".to_string(),
        Author { name: "b".to_string(), id: 1, is_bot: true },
        None,
        2,
        3,
        "ts".to_string(),
        None,
    );
    assert!(!bot.is_own);
    assert_eq!(bot.role_ids, None);
    let hook = InboundEvent::from_remote(
        "hi".to_string(),
        Author { name: "w".to_string(), id: 1, is_bot: false },
        None,
        2,
        3,
        "ts".to_string(),
        Some(99),
    );
    assert!(!hook.is_own);
}

fn command(d: Dispatch) -> (String, OutboundCommand) {
    let job = d.job.expect("a job");
    (job.credential, job.command)
}

#[test]
fn send_content_carries_parsed_channel() {
    let life = launched_lifecycle();
    let d = send_content(&life, "123", "hello".to_string(), "req-1".to_string());
    assert_eq!(d.ack, SEND_ACK);
    let (cred, cmd) = command(d);
    assert_eq!(cred, "SECRET-REDACTED");
    match cmd {
        OutboundCommand::SendContent { channel_id, content, request_id } => {
            assert_eq!(channel_id, 123);
            assert_eq!(content, "hello");
            assert_eq!(request_id, "req-1");
        },
        _ => panic!("wrong command"),
    }
}

#[test]
fn dispatch_without_context_has_no_job() {
    let life = ConnectionLifecycle::new();
    let d = send_content(&life, "1", "x".to_string(), "r".to_string());
    assert_eq!(d.ack, SEND_ACK);
    assert!(d.job.is_none());
    let mut stopped = launched_lifecycle();
    let mut cache = CorrelationCache::new();
    stopped.shutdown(&mut cache);
    assert!(delete_message(&stopped, "1", "2").job.is_none());
}

#[test]
fn rich_delete_and_role_dispatch() {
    let life = launched_lifecycle();
    let rich = send_structured_content(&life, "bad", "{\"title\":\"T\"}".to_string());
    assert_eq!(rich.ack, RICH_ACK);
    match command(rich).1 {
        OutboundCommand::SendRich { channel_id, payload } => {
            assert_eq!(channel_id, 0);
            assert_eq!(payload, "{\"title\":\"T\"}");
        },
        _ => panic!("wrong command"),
    }
    let del = delete_message(&life, "5", "6");
    assert_eq!(del.ack, DELETE_ACK);
    match command(del).1 {
        OutboundCommand::DeleteMessage { channel_id, message_id } => {
            assert_eq!(channel_id, 5);
            assert_eq!(message_id, 6);
        },
        _ => panic!("wrong command"),
    }
    let role = grant_role(&life, "1", "x2", "3");
    assert_eq!(role.ack, ROLE_ACK);
    match command(role).1 {
        OutboundCommand::GrantRole { guild_id, user_id, role_id } => {
            assert_eq!(guild_id, 1);
            assert_eq!(user_id, 0);
            assert_eq!(role_id, 3);
        },
        _ => panic!("wrong command"),
    }
}

#[test]
fn send_outcome_is_recorded_only_on_success() {
    let mut cache = CorrelationCache::new();
    record_send_outcome(&mut cache, "ok".to_string(), Some(result("77", "sent")));
    record_send_outcome(&mut cache, "failed".to_string(), None);
    assert_eq!(cache.get("ok").unwrap().id, "77");
    assert!(cache.get("failed").is_none());
    assert_eq!(cache.len(), 1);
}

#[test]
fn ping_gets_pong() {
    assert_eq!(ping_reply(&"!ping".to_string()), Some("Pong!".to_string()));
    assert_eq!(ping_reply(&"!pingx".to_string()), None);
    assert_eq!(ping_reply(&"hello".to_string()), None);
}

#[test]
fn poisoned_guard_still_yields_data() {
    let (v, warn) = GuardOutcome::Healthy(5u32).recover();
    assert_eq!(v, 5);
    assert!(!warn);
    let (v, warn) = GuardOutcome::Poisoned(vec![1, 2]).recover();
    assert_eq!(v, vec![1, 2]);
    assert!(warn);
}
