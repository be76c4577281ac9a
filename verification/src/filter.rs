//! The filter engine: decides from the sender and subject header values and
//! the configured ignore lists whether a message is discarded without
//! notification. Matching is case-sensitive substring containment; the two
//! axes (sender, subject) combine with logical OR; an empty list never
//! matches.

use vstd::prelude::*;

use crate::text::contains_bytes;
use crate::text::is_substring;

verus! {

/// The sequence of byte views of a list of patterns.
pub open spec fn patterns_view(pats: Seq<Vec<u8>>) -> Seq<Seq<u8>> {
    Seq::new(pats.len(), |i: int| pats[i]@)
}

/// Some pattern in the list occurs inside the header value.
pub open spec fn any_pattern_matches(hay: Seq<u8>, pats: Seq<Seq<u8>>) -> bool {
    exists|i: int| 0 <= i < pats.len() && is_substring(hay, #[trigger] pats[i])
}

/// A message is ignored when some ignored-sender pattern occurs in its From
/// header, or some ignored-subject pattern occurs in its Subject header.
pub open spec fn spec_should_ignore(
    from: Seq<u8>,
    subject: Seq<u8>,
    senders: Seq<Seq<u8>>,
    subjects: Seq<Seq<u8>>,
) -> bool {
    any_pattern_matches(from, senders) || any_pattern_matches(subject, subjects)
}

fn any_contained(hay: &[u8], pats: &Vec<Vec<u8>>) -> (r: bool)
    ensures
        r == any_pattern_matches(hay@, patterns_view(pats@)),
{
    let mut i: usize = 0;
    while i < pats.len()
        invariant
            i <= pats@.len(),
            forall|t: int|
                0 <= t < i ==> !is_substring(hay@, #[trigger] patterns_view(pats@)[t]),
        decreases pats.len() - i,
    {
        if contains_bytes(hay, pats[i].as_slice()) {
            proof {
                assert(patterns_view(pats@)[i as int] == pats@[i as int]@);
            }
            return true;
        }
        i = i + 1;
    }
    false
}

/// Whether the message with the given From and Subject header values is to be
/// discarded without notification, under the configured ignore lists.
pub fn should_ignore(
    from: &[u8],
    subject: &[u8],
    ignored_senders: &Vec<Vec<u8>>,
    ignored_subjects: &Vec<Vec<u8>>,
) -> (r: bool)
    ensures
        r == spec_should_ignore(
            from@,
            subject@,
            patterns_view(ignored_senders@),
            patterns_view(ignored_subjects@),
        ),
{
    any_contained(from, ignored_senders) || any_contained(subject, ignored_subjects)
}

} // verus!
