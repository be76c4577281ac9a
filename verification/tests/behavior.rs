use mailwatch::delivery::delivery_succeeded;
use mailwatch::delivery::is_success_status;
use mailwatch::filter::should_ignore;
use mailwatch::mime::extract;
use mailwatch::mime::parse_message;
use mailwatch::mime::MimePart;
use mailwatch::monitor::monitor_step;
use mailwatch::monitor::plan_message;
use mailwatch::monitor::plan_raw_message;
use mailwatch::monitor::should_delete;
use mailwatch::monitor::state_delay_secs;
use mailwatch::monitor::MessagePlan;
use mailwatch::monitor::MonitorEvent;
use mailwatch::monitor::MonitorState;
use mailwatch::notify::format_notification;
use mailwatch::notify::truncate_description;
use mailwatch::text::contains_bytes;
use mailwatch::text::normalize_text;

#[test]
fn collapse_runs_of_newlines() {
    assert_eq!(normalize_text(b"a\n\n\n\n\nb"), b"a\n\nb".to_vec());
    assert_eq!(normalize_text(b"a\n\n\nb"), b"a\n\nb".to_vec());
    assert_eq!(normalize_text(b"a\n\nb"), b"a\n\nb".to_vec());
}

#[test]
fn strips_trailing_blanks_per_line() {
    assert_eq!(
        normalize_text(b"line one  \nline two\t\nline three"),
        b"line one\nline two\nline three".to_vec()
    );
}

#[test]
fn trims_whitespace_at_ends() {
    assert_eq!(normalize_text(b"  \n hello world \t\n "), b"hello world".to_vec());
    assert_eq!(normalize_text(b"   \n\t "), Vec::<u8>::new());
}

#[test]
fn normalization_idempotent_on_normalized_text() {
    let once = normalize_text(b" a\n\n\n\nb  \n c ");
    assert_eq!(once, b"a\n\nb\n c".to_vec());
    let twice = normalize_text(&once);
    assert_eq!(twice, once);
}

#[test]
fn normalization_stage_order_is_collapse_then_strip() {
    // A blank line of spaces is first stripped to a bare newline; the run of
    // three newlines that this creates is collapsed only by a second pass.
    let once = normalize_text(b"a\n\n \nb");
    assert_eq!(once, b"a\n\n\nb".to_vec());
    let twice = normalize_text(&once);
    assert_eq!(twice, b"a\n\nb".to_vec());
}

#[test]
fn substring_containment() {
    assert!(contains_bytes(b"Newsletter <spam@x.com>", b"spam@x.com"));
    assert!(contains_bytes(b"abc", b""));
    assert!(!contains_bytes(b"abc", b"abcd"));
    assert!(!contains_bytes(b"Weekly Deals", b"weekly"));
}

#[test]
fn filter_matches_listed_sender() {
    let senders = vec![b"spam@x.com".to_vec()];
    let subjects: Vec<Vec<u8>> = vec![];
    assert!(should_ignore(
        b"Newsletter <spam@x.com>",
        b"Weekly Deals",
        &senders,
        &subjects
    ));
}

#[test]
fn filter_empty_lists_keep_everything() {
    let senders: Vec<Vec<u8>> = vec![];
    let subjects: Vec<Vec<u8>> = vec![];
    assert!(!should_ignore(
        b"Newsletter <spam@x.com>",
        b"Weekly Deals",
        &senders,
        &subjects
    ));
}

#[test]
fn filter_matches_listed_subject() {
    let senders: Vec<Vec<u8>> = vec![];
    let subjects = vec![b"Deals".to_vec()];
    assert!(should_ignore(b"a@b.com", b"Weekly Deals", &senders, &subjects));
    assert!(!should_ignore(b"a@b.com", b"Weekly News", &senders, &subjects));
}

fn plain_leaf(body: &[u8]) -> MimePart {
    MimePart::Leaf { ctype: b"text/plain".to_vec(), body: Some(body.to_vec()) }
}

fn html_leaf(body: &[u8]) -> MimePart {
    MimePart::Leaf { ctype: b"text/html".to_vec(), body: Some(body.to_vec()) }
}

#[test]
fn extract_plain_leaf_returns_normalized_body() {
    let part = plain_leaf(b"Hello\n\n\n\nWorld  \n");
    assert_eq!(extract(&part), Some(b"Hello\n\nWorld".to_vec()));
}

#[test]
fn extract_prefers_plain_text_over_html() {
    let part = MimePart::Multipart {
        children: vec![plain_leaf(b"Plain body"), html_leaf(b"<p>HTML body</p>")],
    };
    assert_eq!(extract(&part), Some(b"Plain body".to_vec()));
}

#[test]
fn extract_html_only_renders_text() {
    let part = html_leaf(b"<html><body><p>Hello World</p></body></html>");
    let out = extract(&part).expect("HTML should render");
    assert!(!out.is_empty());
    assert!(out.windows(11).any(|w| w == b"Hello World"));
}

#[test]
fn extract_unknown_type_yields_nothing() {
    let part = MimePart::Leaf {
        ctype: b"application/octet-stream".to_vec(),
        body: Some(b"0101".to_vec()),
    };
    assert_eq!(extract(&part), None);
    let undecodable = MimePart::Leaf { ctype: b"text/plain".to_vec(), body: None };
    assert_eq!(extract(&undecodable), None);
}

#[test]
fn extract_multipart_skips_empty_parts() {
    let part = MimePart::Multipart {
        children: vec![
            MimePart::Leaf { ctype: b"application/pdf".to_vec(), body: Some(b"x".to_vec()) },
            plain_leaf(b"found me"),
        ],
    };
    assert_eq!(extract(&part), Some(b"found me".to_vec()));
}

#[test]
fn truncation_long_body_gets_marker() {
    let body = vec![b'a'; 1600];
    let out = truncate_description(body);
    assert_eq!(out.len(), 1503);
    assert_eq!(&out[1500..], b"...");
    assert!(out[..1500].iter().all(|&b| b == b'a'));
}

#[test]
fn truncation_respects_character_boundary() {
    // 1499 'a's, then a two-byte character straddling the limit.
    let mut body = vec![b'a'; 1499];
    body.extend_from_slice("\u{e9}".as_bytes());
    body.extend_from_slice(&vec![b'b'; 200]);
    assert!(body.len() > 1500);
    let out = truncate_description(body);
    assert_eq!(out.len(), 1502);
    assert_eq!(&out[1499..], b"...");
    assert!(String::from_utf8(out).is_ok());
}

#[test]
fn truncation_short_body_unchanged() {
    let body = b"short body".to_vec();
    assert_eq!(truncate_description(body.clone()), body);
}

#[test]
fn format_fills_defaults_and_fixed_fields() {
    let p = format_notification(b"Hi".to_vec(), b"a@b.com".to_vec(), None);
    assert_eq!(p.title, b"Hi".to_vec());
    assert_eq!(p.author_name, b"a@b.com".to_vec());
    assert_eq!(p.description, b"Cannot parse body".to_vec());
    assert_eq!(p.color, 0x5865F2);
    assert_eq!(p.footer, "\u{1F4F0} Newsletter".as_bytes().to_vec());
}

#[test]
fn format_timestamp_is_rfc3339() {
    let p = format_notification(b"t".to_vec(), b"s".to_vec(), Some(b"b".to_vec()));
    let ts = String::from_utf8(p.timestamp).expect("timestamp is text");
    assert!(chrono::DateTime::parse_from_rfc3339(&ts).is_ok());
}

const RAW_PLAIN: &[u8] =
    b"From: a@b.com\r\nSubject: Hi\r\nContent-Type: text/plain\r\n\r\nHello";

#[test]
fn parse_real_message_extracts_headers_and_body() {
    let input = parse_message(RAW_PLAIN).expect("parses");
    assert_eq!(input.subject, Some(b"Hi".to_vec()));
    assert_eq!(input.from, Some(b"a@b.com".to_vec()));
    assert_eq!(extract(&input.root), Some(b"Hello".to_vec()));
}

#[test]
fn end_to_end_plain_message_is_delivered_then_deleted() {
    let none: Vec<Vec<u8>> = vec![];
    let plan = plan_raw_message(RAW_PLAIN, &none, &none);
    match &plan {
        MessagePlan::Notify { payload } => {
            assert_eq!(payload.title, b"Hi".to_vec());
            assert_eq!(payload.author_name, b"a@b.com".to_vec());
            assert_eq!(payload.description, b"Hello".to_vec());
        }
        other => panic!("expected a delivery plan, got {:?}", plan_kind(other)),
    }
    // Deleted exactly when the webhook accepted the payload.
    assert!(should_delete(&plan, true));
    assert!(!should_delete(&plan, false));
}

fn plan_kind(p: &MessagePlan) -> &'static str {
    match p {
        MessagePlan::Skip => "Skip",
        MessagePlan::Discard => "Discard",
        MessagePlan::Notify { .. } => "Notify",
    }
}

#[test]
fn ignored_message_is_discarded_and_deleted_without_delivery() {
    let senders = vec![b"a@b.com".to_vec()];
    let none: Vec<Vec<u8>> = vec![];
    let plan = plan_raw_message(RAW_PLAIN, &senders, &none);
    assert!(matches!(plan, MessagePlan::Discard));
    // Deleted regardless of any delivery outcome: it is never delivered.
    assert!(should_delete(&plan, false));
    assert!(should_delete(&plan, true));
}

#[test]
fn defaulted_headers_are_also_filtered() {
    let raw = b"Content-Type: text/plain\r\n\r\nno headers here";
    let subjects = vec![b"No Subject".to_vec()];
    let none: Vec<Vec<u8>> = vec![];
    let plan = plan_raw_message(raw, &none, &subjects);
    assert!(matches!(plan, MessagePlan::Discard));
    let plan2 = plan_raw_message(raw, &none, &none);
    match plan2 {
        MessagePlan::Notify { payload } => {
            assert_eq!(payload.title, b"No Subject".to_vec());
            assert_eq!(payload.author_name, b"Unknown Sender".to_vec());
        }
        _ => panic!("expected a delivery plan"),
    }
}

#[test]
fn unparsed_message_is_skipped_untouched() {
    let none: Vec<Vec<u8>> = vec![];
    let plan = plan_message(None, &none, &none);
    assert!(matches!(plan, MessagePlan::Skip));
    assert!(!should_delete(&plan, true));
    assert!(!should_delete(&plan, false));
}

#[test]
fn monitor_transitions() {
    assert_eq!(monitor_step(MonitorState::Disconnected, MonitorEvent::BackoffElapsed), MonitorState::Connecting);
    assert_eq!(monitor_step(MonitorState::Connecting, MonitorEvent::ConnectSucceeded), MonitorState::Active);
    assert_eq!(monitor_step(MonitorState::Connecting, MonitorEvent::ConnectFailed), MonitorState::Disconnected);
    assert_eq!(monitor_step(MonitorState::Active, MonitorEvent::CycleCompleted), MonitorState::Active);
    assert_eq!(monitor_step(MonitorState::Active, MonitorEvent::SessionFailed), MonitorState::Disconnected);
    // An event foreign to the state changes nothing.
    assert_eq!(monitor_step(MonitorState::Disconnected, MonitorEvent::SessionFailed), MonitorState::Disconnected);
}

#[test]
fn monitor_failure_mid_cycle_backs_off_and_reconnects() {
    // Connection lost while fetching: session discarded, backoff, reconnect.
    let s = monitor_step(MonitorState::Active, MonitorEvent::SessionFailed);
    assert_eq!(s, MonitorState::Disconnected);
    assert_eq!(state_delay_secs(s), 10);
    let s = monitor_step(s, MonitorEvent::BackoffElapsed);
    assert_eq!(s, MonitorState::Connecting);
    let s = monitor_step(s, MonitorEvent::ConnectSucceeded);
    assert_eq!(s, MonitorState::Active);
    assert_eq!(state_delay_secs(s), 5);
    // A message not yet processed in the broken cycle is not deleted.
    let untouched = MessagePlan::Skip;
    assert!(!should_delete(&untouched, false));
}

#[test]
fn delivery_success_is_a_2xx_status() {
    assert!(is_success_status(200));
    assert!(is_success_status(204));
    assert!(is_success_status(299));
    assert!(!is_success_status(199));
    assert!(!is_success_status(300));
    assert!(!is_success_status(404));
    assert!(!is_success_status(500));
    assert!(delivery_succeeded(Some(200)));
    assert!(!delivery_succeeded(Some(400)));
    assert!(!delivery_succeeded(None));
}
