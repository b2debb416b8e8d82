//! What becomes of one request: the whole resource, a window of it, or a
//! refusal.

use crate::header::{content_range_text, format_content_range, parse_range_header, header_ranges};
use crate::range::{first_or_whole, resolved, truncate_range, PartialFileRange};
use vstd::prelude::*;

verus! {

/// Status of a response that carries a window of the resource.
pub const PARTIAL_CONTENT: u16 = 206;

/// Status of a response to a range that cannot be served.
pub const RANGE_NOT_SATISFIABLE: u16 = 416;

/// Status of a response whose resource could not be positioned.
pub const INTERNAL_SERVER_ERROR: u16 = 500;

/// The window of a partial response.
#[derive(Clone, Copy, Debug, PartialEq, Eq)]
pub struct PartialContent {
    /// Offset of the first byte sent: the resource is positioned here.
    pub start: u64,
    /// Offset of the last byte sent.
    pub end: u64,
    /// Number of bytes sent, and the value of `Content-Length`.
    pub content_length: u64,
    /// Length of the whole resource.
    pub instance_length: Option<u64>,
}

/// How one request is answered.
#[derive(Clone, Copy, Debug, PartialEq, Eq)]
pub enum RangeReply {
    /// The wrapped response goes out untouched.
    Whole,
    /// The wrapped response goes out with its status set to 416.
    NotSatisfiable,
    /// The window goes out with status 206, once the resource is positioned
    /// at its start.
    Partial(PartialContent),
    /// The resource could not be positioned: the request ends with status 500.
    Failed,
}

/// The reply to a request whose `Range` header parsed to `ranges`, or did not
/// parse (`None`), for a resource of `file_length` bytes.
pub open spec fn reply_for(ranges: Option<Seq<PartialFileRange>>, file_length: Option<u64>) -> RangeReply {
    match ranges {
        None => RangeReply::NotSatisfiable,
        Some(list) => match resolved(first_or_whole(list), file_length) {
            None => RangeReply::NotSatisfiable,
            Some((start, end)) => RangeReply::Partial(
                PartialContent {
                    start,
                    end,
                    content_length: (end - start + 1) as u64,
                    instance_length: file_length,
                },
            ),
        },
    }
}

/// The reply to a request with the given `Range` header, if it has one.
pub open spec fn reply_to(range_header: Option<&str>, file_length: Option<u64>) -> RangeReply {
    match range_header {
        None => RangeReply::Whole,
        Some(value) => reply_for(header_ranges(value@), file_length),
    }
}

/// The view of a parsed list.
pub open spec fn ranges_view(ranges: Option<Vec<PartialFileRange>>) -> Option<Seq<PartialFileRange>> {
    match ranges {
        Some(list) => Some(list@),
        None => None,
    }
}

/// A partial reply is only ever made for a resource of known length: its
/// window ends inside the resource, holds `content_length` bytes, and names
/// that length as the whole.
pub proof fn lemma_partial_reply_inside(ranges: Option<Seq<PartialFileRange>>, file_length: Option<u64>)
    ensures
        reply_for(ranges, file_length) matches RangeReply::Partial(content) ==> {
            &&& file_length matches Some(length) && content.end < length && content.content_length
                <= length
            &&& content.instance_length == file_length
            &&& content.start + content.content_length == content.end + 1
        },
{
}

/// A request without a `Range` header is answered with the whole resource,
/// and one with a header never is.
pub proof fn lemma_whole_without_header(range_header: Option<&str>, file_length: Option<u64>)
    ensures
        reply_to(range_header, file_length) is Whole <==> range_header is None,
        reply_to(range_header, file_length) !is Failed,
{
}

impl PartialContent {
    /// The value of the `Content-Range` header.
    pub fn content_range(&self) -> (text: String)
        ensures
            text@ == content_range_text(self.start, self.end, self.instance_length),
    {
        format_content_range(self.start, self.end, self.instance_length)
    }
}

impl RangeReply {
    /// Decides the reply from what the `Range` header parsed to.
    pub fn for_ranges(ranges: Option<Vec<PartialFileRange>>, file_length: Option<u64>) -> (reply:
        RangeReply)
        ensures
            reply == reply_for(ranges_view(ranges), file_length),
    {
        let list = match ranges {
            Some(list) => list,
            None => return RangeReply::NotSatisfiable,
        };
        let range = PartialFileRange::from(list);
        match truncate_range(&range, &file_length) {
            Some((start, end)) => RangeReply::Partial(
                PartialContent {
                    start,
                    end,
                    content_length: end + 1 - start,
                    instance_length: file_length,
                },
            ),
            None => RangeReply::NotSatisfiable,
        }
    }

    /// The reply once the caller has tried to position the resource: a
    /// window that could not be reached fails, every other reply stands.
    pub fn after_seek(self, positioned: bool) -> (reply: RangeReply)
        ensures
            reply == if self is Partial && !positioned {
                RangeReply::Failed
            } else {
                self
            },
    {
        match self {
            RangeReply::Partial(_) => if positioned {
                self
            } else {
                RangeReply::Failed
            },
            _ => self,
        }
    }

    /// The status that the reply forces on the response; `None` leaves the
    /// wrapped response's own.
    pub fn status(&self) -> (code: Option<u16>)
        ensures
            code == match *self {
                RangeReply::Whole => None,
                RangeReply::NotSatisfiable => Some(RANGE_NOT_SATISFIABLE),
                RangeReply::Partial(_) => Some(PARTIAL_CONTENT),
                RangeReply::Failed => Some(INTERNAL_SERVER_ERROR),
            },
    {
        match self {
            RangeReply::Whole => None,
            RangeReply::NotSatisfiable => Some(RANGE_NOT_SATISFIABLE),
            RangeReply::Partial(_) => Some(PARTIAL_CONTENT),
            RangeReply::Failed => Some(INTERNAL_SERVER_ERROR),
        }
    }
}

/// Wraps a resource so that a `Range` header is honoured when it is served.
pub struct RangeResponder<R> {
    wrapped: R,
}

impl<R> RangeResponder<R> {
    /// The wrapped resource.
    pub closed spec fn inner(self) -> R {
        self.wrapped
    }

    /// Wraps `resource`.
    pub fn new(resource: R) -> (responder: RangeResponder<R>)
        ensures
            responder.inner() == resource,
    {
        RangeResponder { wrapped: resource }
    }

    /// Decides the reply to a request from its `Range` header, if it has
    /// one, and the wrapped resource's length, if that is known.
    pub fn respond_to(&self, range_header: Option<&str>, file_length: Option<u64>) -> (reply:
        RangeReply)
        ensures
            reply == reply_to(range_header, file_length),
    {
        match range_header {
            None => RangeReply::Whole,
            Some(value) => RangeReply::for_ranges(parse_range_header(value), file_length),
        }
    }

    /// Hands the wrapped resource back.
    pub fn into_inner(self) -> (resource: R)
        ensures
            resource == self.inner(),
    {
        self.wrapped
    }
}

} // verus!
