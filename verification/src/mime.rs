//! The parsed-message model and the body extractor.
//!
//! A message is a tree of MIME parts: a leaf owns a content type and its
//! decoded body bytes (or nothing, when decoding failed); a multipart node
//! owns an ordered sequence of children. Extraction prefers a plain-text
//! body, recurses into children in order taking the first part that yields
//! text, and falls back to rendering HTML as 80-column plain text; every
//! returned body is normalized exactly once.

use vstd::prelude::*;

use mailparse::MailHeaderMap;

use vstd::string::StringSliceAdditionalSpecFns;
use vstd::utf8::is_ascii_chars;
use vstd::utf8::is_ascii_chars_encode_utf8;

use crate::opt_bytes;
use crate::text::bytes_eq;
use crate::text::normalize_text;
use crate::text::spec_normalize;

verus! {

/// One node of the MIME tree: a leaf with a content type and decoded body
/// bytes (`None` when the transfer encoding could not be decoded), or a
/// multipart node with its parts in original order.
pub enum MimePart {
    Leaf { ctype: Vec<u8>, body: Option<Vec<u8>> },
    Multipart { children: Vec<MimePart> },
}

/// One fetched message as handed to the pipeline: the first Subject and From
/// header values, when present, and the root of its MIME tree.
pub struct MailInput {
    pub subject: Option<Vec<u8>>,
    pub from: Option<Vec<u8>>,
    pub root: MimePart,
}

/// What the HTML renderer returns for the given HTML bytes: the 80-column
/// plain-text rendering, or `None` when rendering fails. The rendering is a
/// function of the bytes alone.
pub uninterp spec fn html_text_of(html: Seq<u8>) -> Option<Seq<u8>>;

/// What the mail parser produces from the raw bytes of one message: header
/// values and MIME tree, or `None` when the message cannot be parsed. The
/// result is a function of the bytes alone.
pub uninterp spec fn mail_input_of(raw: Seq<u8>) -> Option<MailInput>;

/// Relies on html2text::from_read: renders HTML as plain text wrapped to 80
/// columns; the result depends on the input bytes alone; a failure to parse
/// or render is an `Err`, mapped here to `None`.
#[verifier::external_body]
fn render_html(html: &[u8]) -> (r: Option<Vec<u8>>)
    ensures
        opt_bytes(r) == html_text_of(html@),
{
    match html2text::from_read(html, 80) {
        Ok(s) => Some(s.into_bytes()),
        Err(_) => None,
    }
}

#[verifier::external_type_specification]
#[verifier::external_body]
pub struct ExParsedMail<'a>(mailparse::ParsedMail<'a>);

/// Relies on mailparse::ParsedMail: `subparts` is non-empty only for
/// multipart content types, so a node without subparts is a leaf; `get_body`
/// decodes the transfer encoding and charset, and a decode failure becomes a
/// leaf without a body.
#[verifier::external_body]
fn convert_mail(p: &mailparse::ParsedMail<'_>) -> (r: MimePart) {
    if p.subparts.is_empty() {
        MimePart::Leaf {
            ctype: p.ctype.mimetype.clone().into_bytes(),
            body: p.get_body().ok().map(String::into_bytes),
        }
    } else {
        let mut children: Vec<MimePart> = Vec::new();
        for sp in &p.subparts {
            children.push(convert_mail(sp));
        }
        MimePart::Multipart { children }
    }
}

/// Relies on mailparse::parse_mail and MailHeaderMap::get_first_value: the
/// parsed MIME structure and the first Subject and From header values depend
/// on the raw message bytes alone; an unparseable message is an `Err`,
/// mapped here to `None`.
#[verifier::external_body]
pub fn parse_message(raw: &[u8]) -> (r: Option<MailInput>)
    ensures
        r == mail_input_of(raw@),
{
    match mailparse::parse_mail(raw) {
        Ok(m) => Some(
            MailInput {
                subject: m.headers.get_first_value("Subject").map(String::into_bytes),
                from: m.headers.get_first_value("From").map(String::into_bytes),
                root: convert_mail(&m),
            },
        ),
        Err(_) => None,
    }
}

/// What extraction yields for one leaf: a plain-text leaf gives its
/// normalized body; an HTML leaf gives its normalized rendering when the
/// renderer succeeds; anything else gives nothing.
pub open spec fn spec_leaf_extract(ctype: Seq<u8>, body: Option<Seq<u8>>) -> Option<Seq<u8>> {
    if ctype == "text/plain".spec_bytes() {
        match body {
            Option::Some(b) => Option::Some(spec_normalize(b)),
            Option::None => Option::None,
        }
    } else if ctype == "text/html".spec_bytes() {
        match body {
            Option::Some(b) => match html_text_of(b) {
                Option::Some(t) => Option::Some(spec_normalize(t)),
                Option::None => Option::None,
            },
            Option::None => Option::None,
        }
    } else {
        Option::None
    }
}

/// What extraction yields for a whole part tree.
pub open spec fn spec_extract(m: MimePart) -> Option<Seq<u8>>
    decreases m, 0int,
{
    match m {
        MimePart::Leaf { ctype, body } => spec_leaf_extract(ctype@, opt_bytes(body)),
        MimePart::Multipart { children } => spec_extract_list(children@, 0),
    }
}

/// The first extraction result among the parts from index `i` on.
pub open spec fn spec_extract_list(cs: Seq<MimePart>, i: int) -> Option<Seq<u8>>
    decreases cs, cs.len() - i,
{
    if i < 0 || i >= cs.len() {
        Option::None
    } else {
        match spec_extract(cs[i]) {
            Option::Some(b) => Option::Some(b),
            Option::None => spec_extract_list(cs, i + 1),
        }
    }
}

/// Extract a human-readable body from the part tree: a plain-text leaf gives
/// its body, a multipart node gives the first child that yields text, an HTML
/// leaf gives a plain-text rendering; the result is normalized exactly once.
pub fn extract(m: &MimePart) -> (r: Option<Vec<u8>>)
    ensures
        opt_bytes(r) == spec_extract(*m),
    decreases *m, 0int,
{
    match m {
        MimePart::Leaf { ctype, body } => {
            if bytes_eq(ctype.as_slice(), "text/plain".as_bytes()) {
                match body {
                    Option::Some(b) => Option::Some(normalize_text(b.as_slice())),
                    Option::None => Option::None,
                }
            } else if bytes_eq(ctype.as_slice(), "text/html".as_bytes()) {
                match body {
                    Option::Some(b) => {
                        match render_html(b.as_slice()) {
                            Option::Some(t) => Option::Some(normalize_text(t.as_slice())),
                            Option::None => Option::None,
                        }
                    },
                    Option::None => Option::None,
                }
            } else {
                Option::None
            }
        },
        MimePart::Multipart { children } => extract_list(children, 0),
    }
}

fn extract_list(children: &Vec<MimePart>, i: usize) -> (r: Option<Vec<u8>>)
    requires
        i <= children@.len(),
    ensures
        opt_bytes(r) == spec_extract_list(children@, i as int),
    decreases children@, children@.len() - i,
{
    if i == children.len() {
        Option::None
    } else {
        let first = extract(&children[i]);
        if first.is_some() {
            first
        } else {
            extract_list(children, i + 1)
        }
    }
}

proof fn lemma_content_types_differ()
    ensures
        "text/plain".spec_bytes() != "text/html".spec_bytes(),
{
    reveal_strlit("text/plain");
    reveal_strlit("text/html");
    assert(is_ascii_chars("text/plain"@));
    assert(is_ascii_chars("text/html"@));
    is_ascii_chars_encode_utf8("text/plain"@);
    is_ascii_chars_encode_utf8("text/html"@);
    assert("text/plain".spec_bytes().len() == 10);
    assert("text/html".spec_bytes().len() == 9);
}

/// Law: extraction of a plain-text leaf returns its body unchanged except for
/// the whitespace normalization rules.
pub proof fn lemma_extract_plain_text(ctype: Vec<u8>, body: Vec<u8>)
    requires
        ctype@ == "text/plain".spec_bytes(),
    ensures
        spec_extract(MimePart::Leaf { ctype, body: Option::Some(body) }) == Option::Some(
            spec_normalize(body@),
        ),
{
}

/// Law: extraction of an HTML-only leaf returns the renderer's plain-text
/// rendering of that HTML, normalized, whenever the renderer yields one.
pub proof fn lemma_extract_html(ctype: Vec<u8>, body: Vec<u8>)
    requires
        ctype@ == "text/html".spec_bytes(),
        html_text_of(body@) is Some,
    ensures
        spec_extract(MimePart::Leaf { ctype, body: Option::Some(body) }) == Option::Some(
            spec_normalize(html_text_of(body@)->0),
        ),
{
    lemma_content_types_differ();
}

proof fn lemma_extract_list_first(cs: Seq<MimePart>, t: int, i: int)
    requires
        0 <= t <= i < cs.len(),
        forall|j: int| t <= j < i ==> spec_extract(#[trigger] cs[j]) is None,
        spec_extract(cs[i]) is Some,
    ensures
        spec_extract_list(cs, t) == spec_extract(cs[i]),
    decreases i - t,
{
    if t < i {
        lemma_extract_list_first(cs, t + 1, i);
    }
}

/// Law: in a multipart message, the first part that yields text supplies the
/// body; parts before it that yield nothing are passed over.
pub proof fn lemma_multipart_takes_first(children: Vec<MimePart>, i: int)
    requires
        0 <= i < children@.len(),
        forall|j: int| 0 <= j < i ==> spec_extract(#[trigger] children@[j]) is None,
        spec_extract(children@[i]) is Some,
    ensures
        spec_extract(MimePart::Multipart { children }) == spec_extract(children@[i]),
{
    lemma_extract_list_first(children@, 0, i);
}

/// Law: a multipart message that carries a plain-text part ahead of any other
/// part (such as an HTML alternative) takes its content from the plain-text
/// part.
pub proof fn lemma_multipart_prefers_plain_text(
    children: Vec<MimePart>,
    ctype: Vec<u8>,
    body: Vec<u8>,
    other: MimePart,
)
    requires
        ctype@ == "text/plain".spec_bytes(),
        children@ =~= seq![MimePart::Leaf { ctype, body: Option::Some(body) }, other],
    ensures
        spec_extract(MimePart::Multipart { children }) == Option::Some(spec_normalize(body@)),
{
    lemma_extract_plain_text(ctype, body);
    lemma_multipart_takes_first(children, 0);
}

} // verus!
