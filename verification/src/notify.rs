//! The notification formatter: builds the bounded payload sent to the
//! webhook. The description is the extracted body truncated to the largest
//! prefix of at most 1500 bytes that ends on a UTF-8 character boundary, with
//! a marker appended; a missing subject, sender or body is replaced by a
//! fixed placeholder; every payload carries the fixed accent color, the fixed
//! footer label and the current UTC timestamp.

use vstd::prelude::*;

use vstd::string::StrSliceExecFns;
use vstd::string::StringSliceAdditionalSpecFns;
use vstd::utf8::is_ascii_chars;
use vstd::utf8::is_ascii_chars_encode_utf8;

use crate::opt_bytes;
use crate::or_else;

verus! {

/// The longest description sent without truncation, in bytes.
pub const DESCRIPTION_LIMIT: usize = 1500;

/// The fixed accent color of every payload.
pub const EMBED_COLOR: u32 = 0x5865F2;

/// The placeholder title of a message without a Subject header.
pub open spec fn default_subject() -> Seq<u8> {
    "No Subject".spec_bytes()
}

/// The placeholder author of a message without a From header.
pub open spec fn default_sender() -> Seq<u8> {
    "Unknown Sender".spec_bytes()
}

/// The placeholder description of a message whose body yields no text.
pub open spec fn fallback_body() -> Seq<u8> {
    "Cannot parse body".spec_bytes()
}

/// The marker appended to a truncated description.
pub open spec fn truncation_marker() -> Seq<u8> {
    "...".spec_bytes()
}

/// The fixed footer label of every payload.
pub open spec fn footer_text() -> Seq<u8> {
    "\u{1F4F0} Newsletter".spec_bytes()
}

/// Position `i` does not split a multi-byte UTF-8 sequence: it is the start
/// of the text or the byte at it is not a continuation byte.
pub open spec fn at_char_boundary(s: Seq<u8>, i: int) -> bool {
    i == 0 || s[i] < 128 || s[i] >= 192
}

/// The largest position at most `i` that lies on a character boundary.
pub open spec fn cut_point(s: Seq<u8>, i: int) -> int
    decreases i,
{
    if i <= 0 {
        0
    } else if at_char_boundary(s, i) {
        i
    } else {
        cut_point(s, i - 1)
    }
}

/// The description made from a body: the body itself when it fits, else its
/// longest clean-cut prefix of at most 1500 bytes with the marker appended.
pub open spec fn spec_truncate(s: Seq<u8>) -> Seq<u8> {
    if s.len() <= DESCRIPTION_LIMIT {
        s
    } else {
        s.subrange(0, cut_point(s, DESCRIPTION_LIMIT as int)) + truncation_marker()
    }
}

proof fn lemma_cut_point(s: Seq<u8>, i: int)
    requires
        0 <= i,
    ensures
        0 <= cut_point(s, i) <= i,
        at_char_boundary(s, cut_point(s, i)),
        forall|j: int| cut_point(s, i) < j <= i ==> !at_char_boundary(s, j),
    decreases i,
{
    if i > 0 && !at_char_boundary(s, i) {
        lemma_cut_point(s, i - 1);
    }
}

/// Law: for a body longer than the limit, the description is the marker
/// appended to a prefix of the body of at most 1500 bytes; the cut lies on a
/// character boundary (no multi-byte sequence is split), and no later
/// position within the limit would do.
pub proof fn lemma_truncation(s: Seq<u8>)
    requires
        s.len() > DESCRIPTION_LIMIT,
    ensures
        0 <= cut_point(s, DESCRIPTION_LIMIT as int) <= DESCRIPTION_LIMIT,
        spec_truncate(s) == s.subrange(0, cut_point(s, DESCRIPTION_LIMIT as int))
            + truncation_marker(),
        at_char_boundary(s, cut_point(s, DESCRIPTION_LIMIT as int)),
        forall|j: int|
            cut_point(s, DESCRIPTION_LIMIT as int) < j <= DESCRIPTION_LIMIT
                ==> !at_char_boundary(s, j),
{
    lemma_cut_point(s, DESCRIPTION_LIMIT as int);
}

/// Law: whatever the body, the description stays within the limit plus the
/// three marker bytes.
pub proof fn lemma_description_bounded(s: Seq<u8>)
    ensures
        spec_truncate(s).len() <= DESCRIPTION_LIMIT + 3,
{
    reveal_strlit("...");
    assert(is_ascii_chars("..."@));
    is_ascii_chars_encode_utf8("..."@);
    assert(truncation_marker().len() == 3);
    if s.len() > DESCRIPTION_LIMIT {
        lemma_cut_point(s, DESCRIPTION_LIMIT as int);
    }
}

/// Truncate a body to the description actually sent: unchanged when it fits,
/// else cut at the last character boundary within the limit, marker appended.
pub fn truncate_description(body: Vec<u8>) -> (r: Vec<u8>)
    ensures
        r@ == spec_truncate(body@),
{
    if body.len() <= DESCRIPTION_LIMIT {
        return body;
    }
    let mut end: usize = DESCRIPTION_LIMIT;
    while end > 0 && !(body[end] < 128 || body[end] >= 192)
        invariant
            end <= DESCRIPTION_LIMIT,
            DESCRIPTION_LIMIT < body@.len(),
            cut_point(body@, DESCRIPTION_LIMIT as int) == cut_point(body@, end as int),
        decreases end,
    {
        end = end - 1;
    }
    proof {
        assert(cut_point(body@, end as int) == end as int);
    }
    let mut out = vstd::slice::slice_to_vec(
        vstd::slice::slice_subrange(body.as_slice(), 0, end),
    );
    let mut marker = "...".as_bytes_vec();
    out.append(&mut marker);
    out
}

/// One notification payload: the fields of the webhook message. The
/// description is bounded; color and footer are fixed; the timestamp is the
/// wall-clock time the payload was built.
pub struct Payload {
    pub title: Vec<u8>,
    pub author_name: Vec<u8>,
    pub description: Vec<u8>,
    pub color: u32,
    pub timestamp: Vec<u8>,
    pub footer: Vec<u8>,
}

/// Relies on chrono::Utc::now and DateTime::to_rfc3339: the current UTC time
/// rendered in RFC 3339 form. The result depends on the wall clock, so
/// nothing is promised of its value.
#[verifier::external_body]
fn now_rfc3339() -> (r: Vec<u8>) {
    chrono::Utc::now().to_rfc3339().into_bytes()
}

/// Build the payload for one message from its (defaulted) subject and sender
/// and its extracted body, if any: the description is the body — or the fixed
/// placeholder when there is none — truncated on a character boundary; color
/// and footer are fixed; the timestamp is the current time, unconstrained.
pub fn format_notification(subject: Vec<u8>, sender: Vec<u8>, body: Option<Vec<u8>>) -> (p:
    Payload)
    ensures
        p.title@ == subject@,
        p.author_name@ == sender@,
        p.description@ == spec_truncate(or_else(opt_bytes(body), fallback_body())),
        p.color == EMBED_COLOR,
        p.footer@ == footer_text(),
{
    let raw_body: Vec<u8> = match body {
        Option::Some(b) => b,
        Option::None => "Cannot parse body".as_bytes_vec(),
    };
    Payload {
        title: subject,
        author_name: sender,
        description: truncate_description(raw_body),
        color: EMBED_COLOR,
        timestamp: now_rfc3339(),
        footer: "\u{1F4F0} Newsletter".as_bytes_vec(),
    }
}

/// The placeholder title, as bytes.
pub fn default_subject_bytes() -> (r: Vec<u8>)
    ensures
        r@ == default_subject(),
{
    "No Subject".as_bytes_vec()
}

/// The placeholder author, as bytes.
pub fn default_sender_bytes() -> (r: Vec<u8>)
    ensures
        r@ == default_sender(),
{
    "Unknown Sender".as_bytes_vec()
}

} // verus!
