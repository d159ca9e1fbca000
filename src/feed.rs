//! The anchor feed: what is asked of it and what comes back.

use vstd::prelude::*;
use vstd::utf8::encode_utf8;
use crate::decimal::{parse_decimal, decimal_result, DecimalError};

verus! {

/// The on-chain organization that published an anchor.
#[derive(Debug, Clone)]
pub struct Org {
    pub id: String,
}

/// An organization's anchor of a project state, as the feed reports it.
#[derive(Debug, Clone)]
pub struct Anchor {
    pub id: String,
    pub object_id: String,
    /// Seconds since the epoch.
    pub timestamp: u64,
    pub org: Org,
}

/// An anchor whose timestamp is not an unsigned 64-bit decimal.
#[derive(Debug, Clone)]
pub struct AnchorError {
    /// The timestamp text as the feed sent it.
    pub raw: String,
    pub reason: DecimalError,
}

impl AnchorError {
    /// A diagnostic that quotes the offending text.
    pub fn message(&self) -> (r: String)
        ensures
            r@ == "invalid anchor timestamp: "@ + self.raw@,
    {
        let mut m = String::from_str("invalid anchor timestamp: ");
        m.append(self.raw.as_str());
        m
    }
}

impl Anchor {
    /// Builds an anchor from the fields of one feed record, decoding its
    /// decimal timestamp.
    pub fn decode(id: String, object_id: String, timestamp: String, org: Org) -> (r: Result<
        Anchor,
        AnchorError,
    >)
        ensures
            match decimal_result(encode_utf8(timestamp@)) {
                Ok(v) => r == Ok::<Anchor, AnchorError>(Anchor { id, object_id, timestamp: v, org }),
                Err(e) => r == Err::<Anchor, AnchorError>(AnchorError { raw: timestamp, reason: e }),
            },
    {
        let parsed = parse_decimal(timestamp.as_str().as_bytes());
        match parsed {
            Ok(v) => Ok(Anchor { id, object_id, timestamp: v, org }),
            Err(e) => Err(AnchorError { raw: timestamp, reason: e }),
        }
    }
}

/// The timestamps of `anchors`, in order.
pub open spec fn timestamps(anchors: Seq<Anchor>) -> Seq<u64> {
    Seq::new(anchors.len(), |i: int| anchors[i].timestamp)
}

/// Which of the feed's two query documents a request uses.
#[derive(Debug, Clone, Copy, PartialEq, Eq, Structural)]
pub enum QueryDocument {
    /// Anchors of every organization.
    AllAnchors,
    /// Anchors of the listed organizations only.
    OrgAnchors,
}

/// A query for the anchors newer than `timestamp`.
#[derive(Debug, Clone)]
pub struct FeedRequest {
    pub document: QueryDocument,
    pub timestamp: u64,
    /// The organization filter; present exactly with `OrgAnchors`.
    pub orgs: Option<Vec<String>>,
}

/// The request for anchors newer than `timestamp`, scoped to `orgs` unless
/// that list is empty.
pub open spec fn request_for(timestamp: u64, orgs: Seq<String>, r: FeedRequest) -> bool {
    &&& r.timestamp == timestamp
    &&& if orgs.len() == 0 {
        r.document == QueryDocument::AllAnchors && r.orgs is None
    } else {
        r.document == QueryDocument::OrgAnchors && r.orgs is Some && r.orgs->Some_0@ == orgs
    }
}

fn copy_strings(v: &Vec<String>) -> (r: Vec<String>)
    ensures
        r@ == v@,
{
    let mut r: Vec<String> = Vec::new();
    let mut i: usize = 0;
    while i < v.len()
        invariant
            i <= v.len(),
            r@ == v@.subrange(0, i as int),
        decreases v.len() - i,
    {
        r.push(v[i].clone());
        i = i + 1;
        assert(r@ =~= v@.subrange(0, i as int));
    }
    assert(v@.subrange(0, i as int) =~= v@);
    r
}

/// Builds the query for anchors newer than `timestamp`.
pub fn feed_request(timestamp: u64, orgs: &Vec<String>) -> (r: FeedRequest)
    ensures
        request_for(timestamp, orgs@, r),
{
    if orgs.len() == 0 {
        FeedRequest { document: QueryDocument::AllAnchors, timestamp, orgs: None }
    } else {
        FeedRequest { document: QueryDocument::OrgAnchors, timestamp, orgs: Some(copy_strings(orgs)) }
    }
}

/// How a feed query failed.
#[derive(Debug, Clone, Copy, PartialEq, Eq, Structural)]
pub enum FeedFailure {
    /// The endpoint could not be reached (connection refused, DNS, TLS).
    Transport,
    /// The endpoint answered, but not with a well-formed anchor list.
    Response,
}

} // verus!
