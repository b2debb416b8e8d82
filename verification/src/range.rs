//! The requested range and its resolution to a window of bytes.

use vstd::prelude::*;

verus! {

/// What a client asked for, before the resource's length is known.
#[derive(Clone, Copy, Debug, PartialEq, Eq, Structural)]
pub enum PartialFileRange {
    /// Every byte from the offset to the end.
    AllFrom(u64),
    /// The bytes from the first offset through the second, both counted in.
    FromTo(u64, u64),
    /// The last so many bytes.
    Last(u64),
}

impl PartialFileRange {
    /// Whether a resource of `length` bytes can serve the request.
    ///
    /// A resource without bytes serves none: no offset lies below its length.
    pub open spec fn satisfiable(self, length: u64) -> bool {
        match self {
            PartialFileRange::AllFrom(from) => from < length,
            PartialFileRange::FromTo(from, to) => from <= to && from < length,
            PartialFileRange::Last(_) => 0 < length,
        }
    }

    /// The offset at which the served window starts.
    pub open spec fn first_byte(self, length: u64) -> int {
        match self {
            PartialFileRange::AllFrom(from) => from as int,
            PartialFileRange::FromTo(from, _) => from as int,
            PartialFileRange::Last(count) => if count < length {
                length - count
            } else {
                0
            },
        }
    }

    /// The offset of the last byte served: never past the resource's end.
    pub open spec fn last_byte(self, length: u64) -> int {
        match self {
            PartialFileRange::FromTo(_, to) => if to < length {
                to as int
            } else {
                length - 1
            },
            _ => length - 1,
        }
    }
}

/// The request that a list of ranges stands for: its first entry, and the
/// whole resource where the list is empty.
pub open spec fn first_or_whole(ranges: Seq<PartialFileRange>) -> PartialFileRange {
    if ranges.len() == 0 {
        PartialFileRange::AllFrom(0)
    } else {
        ranges[0]
    }
}

impl From<Vec<PartialFileRange>> for PartialFileRange {
    /// Narrows a list of ranges to its first entry.
    fn from(ranges: Vec<PartialFileRange>) -> (range: PartialFileRange)
        ensures
            range == first_or_whole(ranges@),
    {
        if ranges.len() == 0 {
            PartialFileRange::AllFrom(0)
        } else {
            ranges[0]
        }
    }
}

impl vstd::std_specs::convert::FromSpecImpl<Vec<PartialFileRange>> for PartialFileRange {
    open spec fn obeys_from_spec() -> bool {
        true
    }

    open spec fn from_spec(ranges: Vec<PartialFileRange>) -> PartialFileRange {
        first_or_whole(ranges@)
    }
}

/// The window `(start, end)`, both ends counted in, that serves `range` from a
/// resource of `file_length` bytes; `None` where the range cannot be served
/// or the length is not known.
pub open spec fn resolved(range: PartialFileRange, file_length: Option<u64>) -> Option<(u64, u64)> {
    match file_length {
        Some(length) => if range.satisfiable(length) {
            Some((range.first_byte(length) as u64, range.last_byte(length) as u64))
        } else {
            None
        },
        None => None,
    }
}

/// Resolves `range` against the resource's length.
pub fn truncate_range(range: &PartialFileRange, file_length: &Option<u64>) -> (window: Option<
    (u64, u64),
>)
    ensures
        window == resolved(*range, *file_length),
        window matches Some((start, end)) ==> *file_length matches Some(length) && end < length
            && start <= end + 1,
{
    let length: u64 = match file_length {
        Some(length) => *length,
        None => return None,
    };
    if length == 0 {
        return None;
    }
    let end: u64 = length - 1;
    match range {
        PartialFileRange::FromTo(from, to) => {
            if *from <= *to && *from < length {
                Some((*from, if *to < end { *to } else { end }))
            } else {
                None
            }
        },
        PartialFileRange::AllFrom(from) => {
            if *from < length {
                Some((*from, end))
            } else {
                None
            }
        },
        PartialFileRange::Last(count) => {
            if *count < length {
                Some((length - *count, end))
            } else {
                Some((0, end))
            }
        },
    }
}

/// A range that lies inside the resource is served as it was asked for.
pub proof fn lemma_from_to_inside(from: u64, to: u64, length: u64)
    requires
        from <= to < length,
    ensures
        resolved(PartialFileRange::FromTo(from, to), Some(length)) == Some((from, to)),
{
}

/// A range that starts inside the resource and ends at or past its end is
/// cut off at the last byte.
pub proof fn lemma_from_to_clamped(from: u64, to: u64, length: u64)
    requires
        to >= length,
        from < length,
    ensures
        resolved(PartialFileRange::FromTo(from, to), Some(length)) == Some(
            (from, (length - 1) as u64),
        ),
{
}

/// A range whose ends are out of order, or that starts at or past the
/// resource's end, cannot be served.
pub proof fn lemma_from_to_unsatisfiable(from: u64, to: u64, length: u64)
    requires
        from > to || from >= length,
    ensures
        resolved(PartialFileRange::FromTo(from, to), Some(length)) is None,
{
}

/// A suffix shorter than the resource is its last `count` bytes; one at
/// least as long as the resource is all of it. The resource holds at least
/// one byte.
pub proof fn lemma_last(count: u64, length: u64)
    requires
        0 < length,
    ensures
        count < length ==> resolved(PartialFileRange::Last(count), Some(length)) == Some(
            ((length - count) as u64, (length - 1) as u64),
        ),
        count >= length ==> resolved(PartialFileRange::Last(count), Some(length)) == Some(
            (0u64, (length - 1) as u64),
        ),
{
}

/// A range without an end runs from its offset to the last byte where the
/// offset lies inside the resource, and cannot be served where it does not.
pub proof fn lemma_all_from(from: u64, length: u64)
    ensures
        from < length ==> resolved(PartialFileRange::AllFrom(from), Some(length)) == Some(
            (from, (length - 1) as u64),
        ),
        from >= length ==> resolved(PartialFileRange::AllFrom(from), Some(length)) is None,
{
}

/// Without a known length no range can be served.
pub proof fn lemma_unknown_length(range: PartialFileRange)
    ensures
        resolved(range, None) is None,
{
}

/// A resource without bytes serves no range.
pub proof fn lemma_empty_resource(range: PartialFileRange)
    ensures
        resolved(range, Some(0)) is None,
{
}

/// The window depends on the range and the length alone: resolving the same
/// pair again gives the same window.
pub proof fn lemma_resolved_again(
    range: PartialFileRange,
    file_length: Option<u64>,
    same_range: PartialFileRange,
    same_length: Option<u64>,
)
    requires
        same_range == range,
        same_length == file_length,
    ensures
        resolved(same_range, same_length) == resolved(range, file_length),
{
}

/// Every window ends inside the resource and starts no later than it ends,
/// but for a suffix of no bytes, whose window starts just past its end.
pub proof fn lemma_window_inside(range: PartialFileRange, length: u64)
    ensures
        resolved(range, Some(length)) matches Some((start, end)) ==> {
            &&& end < length
            &&& range != PartialFileRange::Last(0) ==> start <= end
            &&& range == PartialFileRange::Last(0) ==> start == end + 1
        },
{
}

/// A window that was served is served again unchanged when it is asked for
/// as a range with both ends.
pub proof fn lemma_window_is_fixed(range: PartialFileRange, length: u64)
    requires
        range != PartialFileRange::Last(0),
    ensures
        resolved(range, Some(length)) matches Some((start, end)) ==> resolved(
            PartialFileRange::FromTo(start, end),
            Some(length),
        ) == Some((start, end)),
{
}

} // verus!
