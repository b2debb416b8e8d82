//! The two header values that hyper reads and writes for the library.

use crate::range::PartialFileRange;
use hyper::header::{ByteRangeSpec, ContentRange, ContentRangeSpec, Range};
use std::str::FromStr;
use vstd::prelude::*;

verus! {

/// The byte ranges that hyper's parser reads from the value of a `Range`
/// header, in the order in which they stand there; `None` where the parser
/// fails or the unit is not `bytes`.
pub uninterp spec fn header_ranges(value: Seq<char>) -> Option<Seq<PartialFileRange>>;

/// The decimal digit that stands for `digit`.
pub open spec fn digit_char(digit: nat) -> char
    recommends
        digit < 10,
{
    ('0' as nat + digit) as char
}

/// `n` in decimal digits, the most significant first, without padding.
pub open spec fn decimal(n: nat) -> Seq<char>
    decreases n,
{
    if n < 10 {
        seq![digit_char(n)]
    } else {
        decimal(n / 10).push(digit_char(n % 10))
    }
}

/// The resource's whole length as a `Content-Range` header names it: `*`
/// where it is not known.
pub open spec fn instance_length_text(instance_length: Option<u64>) -> Seq<char> {
    match instance_length {
        Some(length) => decimal(length as nat),
        None => seq!['*'],
    }
}

/// The value of the `Content-Range` header for the bytes `start` through
/// `end`: `bytes <start>-<end>/<length>`.
pub open spec fn content_range_text(start: u64, end: u64, instance_length: Option<u64>) -> Seq<
    char,
> {
    seq!['b', 'y', 't', 'e', 's', ' '] + decimal(start as nat) + seq!['-'] + decimal(end as nat)
        + seq!['/'] + instance_length_text(instance_length)
}

/// Hands `value` to `hyper::header::Range::from_str`.
///
/// Trusted: the result is what hyper's parser makes of `value`, each
/// `ByteRangeSpec` written as the `PartialFileRange` of the same variant and
/// numbers. Nothing is claimed of which values parse.
#[verifier::external_body]
pub(crate) fn parse_range_header(value: &str) -> (ranges: Option<Vec<PartialFileRange>>)
    ensures
        ranges matches Some(list) ==> header_ranges(value@) == Some(list@),
        ranges is None ==> header_ranges(value@) is None,
{
    match Range::from_str(value) {
        Ok(Range::Bytes(list)) => Some(
            list.into_iter().map(
                |range|
                    match range {
                        ByteRangeSpec::AllFrom(from) => PartialFileRange::AllFrom(from),
                        ByteRangeSpec::FromTo(from, to) => PartialFileRange::FromTo(from, to),
                        ByteRangeSpec::Last(count) => PartialFileRange::Last(count),
                    },
            ).collect(),
        ),
        _ => None,
    }
}

/// Builds hyper's `ContentRange` header for a byte window and writes it out
/// with its `Display`.
///
/// Trusted: hyper writes `bytes `, the two offsets in decimal with a hyphen
/// between them, a slash, and the whole length in decimal or `*`.
#[verifier::external_body]
pub(crate) fn format_content_range(start: u64, end: u64, instance_length: Option<u64>) -> (text:
    String)
    ensures
        text@ == content_range_text(start, end, instance_length),
{
    ContentRange(ContentRangeSpec::Bytes { range: Some((start, end)), instance_length }).to_string()
}

} // verus!
