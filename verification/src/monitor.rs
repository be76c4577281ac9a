//! The monitor's decisions: what to do with one fetched message, when its
//! mailbox copy may be deleted, and how the connection state machine moves.
//!
//! The deletion invariant of the whole pipeline: a message is deleted exactly
//! when it was classified as ignored or its delivery succeeded — never on
//! delivery failure, and never before classification completes. A message
//! that could not even be parsed is skipped untouched and retried next cycle.

use vstd::prelude::*;

use crate::filter::patterns_view;
use crate::filter::should_ignore;
use crate::filter::spec_should_ignore;
use crate::mime::extract;
use crate::mime::mail_input_of;
use crate::mime::parse_message;
use crate::mime::spec_extract;
use crate::mime::MailInput;
use crate::notify::default_sender;
use crate::notify::default_sender_bytes;
use crate::notify::default_subject;
use crate::notify::default_subject_bytes;
use crate::notify::fallback_body;
use crate::notify::footer_text;
use crate::notify::format_notification;
use crate::notify::spec_truncate;
use crate::notify::Payload;
use crate::notify::EMBED_COLOR;
use crate::opt_bytes;
use crate::or_else;

verus! {

/// Seconds slept after a connection-level failure before reconnecting.
pub const BACKOFF_SECS: u64 = 10;

/// Seconds slept between polling cycles of an active session.
pub const POLL_SECS: u64 = 5;

/// What is to be done with one fetched message: skip it untouched (it could
/// not be parsed), discard it without notification (it is ignored), or
/// deliver the payload and then decide on deletion.
pub enum MessagePlan {
    Skip,
    Discard,
    Notify { payload: Payload },
}

/// The subject used for a message: its Subject header, or the placeholder.
pub open spec fn spec_subject_of(m: MailInput) -> Seq<u8> {
    or_else(opt_bytes(m.subject), default_subject())
}

/// The sender used for a message: its From header, or the placeholder.
pub open spec fn spec_sender_of(m: MailInput) -> Seq<u8> {
    or_else(opt_bytes(m.from), default_sender())
}

/// Whether the message is ignored under the configured lists; matching sees
/// the defaulted subject and sender, as the formatter does.
pub open spec fn spec_message_ignored(
    m: MailInput,
    senders: Seq<Seq<u8>>,
    subjects: Seq<Seq<u8>>,
) -> bool {
    spec_should_ignore(spec_sender_of(m), spec_subject_of(m), senders, subjects)
}

/// The description delivered for the message: the extracted body, or the
/// placeholder when extraction yields nothing, truncated to the bound.
pub open spec fn spec_description_of(m: MailInput) -> Seq<u8> {
    spec_truncate(or_else(spec_extract(m.root), fallback_body()))
}

/// The plan is the right one for the message: never a skip, a discard exactly
/// when the message is ignored, and otherwise a payload carrying the
/// defaulted subject and sender, the bounded description, and the fixed color
/// and footer.
pub open spec fn plan_matches(
    m: MailInput,
    senders: Seq<Seq<u8>>,
    subjects: Seq<Seq<u8>>,
    r: MessagePlan,
) -> bool {
    &&& !(r is Skip)
    &&& (r is Discard <==> spec_message_ignored(m, senders, subjects))
    &&& (r matches MessagePlan::Notify { payload } ==> {
        &&& payload.title@ == spec_subject_of(m)
        &&& payload.author_name@ == spec_sender_of(m)
        &&& payload.description@ == spec_description_of(m)
        &&& payload.color == EMBED_COLOR
        &&& payload.footer@ == footer_text()
    })
}

/// Decide what to do with one parsed message: an unparseable message is
/// skipped; an ignored one is discarded; any other yields the notification
/// payload to deliver.
pub fn plan_message(
    input: Option<MailInput>,
    ignored_senders: &Vec<Vec<u8>>,
    ignored_subjects: &Vec<Vec<u8>>,
) -> (r: MessagePlan)
    ensures
        r is Skip <==> input is None,
        input matches Option::Some(m) ==> plan_matches(
            m,
            patterns_view(ignored_senders@),
            patterns_view(ignored_subjects@),
            r,
        ),
{
    match input {
        Option::None => MessagePlan::Skip,
        Option::Some(m) => {
            let subject: Vec<u8> = match m.subject {
                Option::Some(v) => v,
                Option::None => default_subject_bytes(),
            };
            let sender: Vec<u8> = match m.from {
                Option::Some(v) => v,
                Option::None => default_sender_bytes(),
            };
            if should_ignore(
                sender.as_slice(),
                subject.as_slice(),
                ignored_senders,
                ignored_subjects,
            ) {
                MessagePlan::Discard
            } else {
                let body = extract(&m.root);
                MessagePlan::Notify { payload: format_notification(subject, sender, body) }
            }
        },
    }
}

/// Decide what to do with one raw fetched message: parse it, then plan as
/// `plan_message` does.
pub fn plan_raw_message(
    raw: &[u8],
    ignored_senders: &Vec<Vec<u8>>,
    ignored_subjects: &Vec<Vec<u8>>,
) -> (r: MessagePlan)
    ensures
        r is Skip <==> mail_input_of(raw@) is None,
        mail_input_of(raw@) matches Option::Some(m) ==> plan_matches(
            m,
            patterns_view(ignored_senders@),
            patterns_view(ignored_subjects@),
            r,
        ),
{
    plan_message(parse_message(raw), ignored_senders, ignored_subjects)
}

/// When the mailbox copy of a message may be deleted, given its plan and
/// whether delivery succeeded: a skipped message never, an ignored one
/// always, a notified one exactly on delivery success.
pub open spec fn spec_should_delete(plan: MessagePlan, delivered: bool) -> bool {
    match plan {
        MessagePlan::Skip => false,
        MessagePlan::Discard => true,
        MessagePlan::Notify { .. } => delivered,
    }
}

/// Whether the mailbox copy may be deleted. For a `Notify` plan, `delivered`
/// reports the outcome of the delivery attempt; for the other plans it is
/// meaningless and ignored.
pub fn should_delete(plan: &MessagePlan, delivered: bool) -> (r: bool)
    ensures
        r == spec_should_delete(*plan, delivered),
{
    match plan {
        MessagePlan::Skip => false,
        MessagePlan::Discard => true,
        MessagePlan::Notify { .. } => delivered,
    }
}

/// Law: a message classified as ignored is planned as a discard — it carries
/// no payload, so it can never reach delivery — and its mailbox copy is
/// deleted whatever any delivery outcome would have been.
pub proof fn lemma_ignored_deleted_never_delivered(
    m: MailInput,
    senders: Seq<Seq<u8>>,
    subjects: Seq<Seq<u8>>,
    plan: MessagePlan,
    delivered: bool,
)
    requires
        plan_matches(m, senders, subjects, plan),
        spec_message_ignored(m, senders, subjects),
    ensures
        plan is Discard,
        !(plan is Notify),
        spec_should_delete(plan, delivered),
{
}

/// Law: a message not classified as ignored is planned for delivery, and its
/// mailbox copy is deleted exactly when the delivery succeeded — on failure
/// it remains in the mailbox for the next cycle.
pub proof fn lemma_delivery_decides_deletion(
    m: MailInput,
    senders: Seq<Seq<u8>>,
    subjects: Seq<Seq<u8>>,
    plan: MessagePlan,
    delivered: bool,
)
    requires
        plan_matches(m, senders, subjects, plan),
        !spec_message_ignored(m, senders, subjects),
    ensures
        plan is Notify,
        spec_should_delete(plan, delivered) == delivered,
{
}

/// The connection state of the monitor loop.
#[derive(Clone, Copy, PartialEq, Eq, Structural, Debug)]
pub enum MonitorState {
    Disconnected,
    Connecting,
    Active,
}

/// What happened while performing the current state's work.
#[derive(Clone, Copy, PartialEq, Eq, Structural, Debug)]
pub enum MonitorEvent {
    BackoffElapsed,
    ConnectSucceeded,
    ConnectFailed,
    CycleCompleted,
    SessionFailed,
}

/// The transition table of the monitor: after the backoff a connection is
/// attempted; a successful login activates the session; any connection-level
/// failure — at connect time or mid-cycle — discards the session and returns
/// to the backoff; a completed cycle keeps the session active. An event that
/// does not belong to the state leaves the state unchanged.
pub open spec fn spec_monitor_step(s: MonitorState, e: MonitorEvent) -> MonitorState {
    match (s, e) {
        (MonitorState::Disconnected, MonitorEvent::BackoffElapsed) => MonitorState::Connecting,
        (MonitorState::Connecting, MonitorEvent::ConnectSucceeded) => MonitorState::Active,
        (MonitorState::Connecting, MonitorEvent::ConnectFailed) => MonitorState::Disconnected,
        (MonitorState::Active, MonitorEvent::CycleCompleted) => MonitorState::Active,
        (MonitorState::Active, MonitorEvent::SessionFailed) => MonitorState::Disconnected,
        _ => s,
    }
}

/// Advance the monitor state machine by one event.
pub fn monitor_step(s: MonitorState, e: MonitorEvent) -> (r: MonitorState)
    ensures
        r == spec_monitor_step(s, e),
{
    match (s, e) {
        (MonitorState::Disconnected, MonitorEvent::BackoffElapsed) => MonitorState::Connecting,
        (MonitorState::Connecting, MonitorEvent::ConnectSucceeded) => MonitorState::Active,
        (MonitorState::Connecting, MonitorEvent::ConnectFailed) => MonitorState::Disconnected,
        (MonitorState::Active, MonitorEvent::CycleCompleted) => MonitorState::Active,
        (MonitorState::Active, MonitorEvent::SessionFailed) => MonitorState::Disconnected,
        (other, _) => other,
    }
}

/// How long to sleep in a state before its next work: the reconnect backoff
/// when disconnected, the polling interval between cycles when active, and
/// nothing while a connection attempt is in progress.
pub fn state_delay_secs(s: MonitorState) -> (r: u64)
    ensures
        s is Disconnected ==> r == BACKOFF_SECS,
        s is Active ==> r == POLL_SECS,
        s is Connecting ==> r == 0,
{
    match s {
        MonitorState::Disconnected => BACKOFF_SECS,
        MonitorState::Active => POLL_SECS,
        MonitorState::Connecting => 0,
    }
}

/// Law: any session-level failure, at connect time or mid-cycle, sends the
/// loop back to the backoff state, from which the only move is a fresh
/// connection attempt; a message that was merely skipped in the broken cycle
/// is not deleted.
pub proof fn lemma_failure_recovers_by_reconnect(plan: MessagePlan, delivered: bool)
    ensures
        spec_monitor_step(MonitorState::Active, MonitorEvent::SessionFailed)
            == MonitorState::Disconnected,
        spec_monitor_step(MonitorState::Connecting, MonitorEvent::ConnectFailed)
            == MonitorState::Disconnected,
        spec_monitor_step(MonitorState::Disconnected, MonitorEvent::BackoffElapsed)
            == MonitorState::Connecting,
        plan is Skip ==> !spec_should_delete(plan, delivered),
{
}

} // verus!
