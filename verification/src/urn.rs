//! Project identifiers and the anchor records they come from.
//!
//! An on-chain anchor stores a project's content address as a `bytes32`
//! value, written by the indexer as a hexadecimal string with a `0x`
//! prefix. The project identifier used for replication is the trailing 20
//! bytes of that value.

use vstd::prelude::*;
use crate::bytes::{
    copy_range,
    hex_decode,
    hex_decode_spec,
    hex_encode_spec,
    is_hex_digit,
    is_hex_digit_byte,
    is_hex_seq,
    lemma_hex_round_trip,
};

verus! {

/// A 20-byte content-addressed project identifier.
#[derive(Clone, Debug)]
pub struct Urn {
    pub id: Vec<u8>,
}

impl Urn {
    /// A project identifier is exactly 20 bytes.
    pub open spec fn wf(&self) -> bool {
        self.id@.len() == 20
    }

    /// Parse the text form of a project identifier: 40 hexadecimal digits.
    pub fn try_from_id(s: &Vec<u8>) -> (r: Option<Urn>)
        ensures
            r is Some <==> s@.len() == 40 && is_hex_seq(s@),
            r matches Some(u) ==> u.id@ == hex_decode_spec(s@) && u.wf(),
    {
        if s.len() != 40 {
            return None;
        }
        match hex_decode(s) {
            Some(id) => Some(Urn { id }),
            None => None,
        }
    }
}

/// An on-chain anchor as the indexer reports it.
#[derive(Clone, Debug)]
pub struct Anchor {
    /// The anchored `bytes32` value, as `0x`-prefixed hexadecimal text.
    pub object_id: Vec<u8>,
    /// The anchored content multihash, kept opaque.
    pub multihash: Vec<u8>,
}

/// An org that owns projects, identified by its address text.
#[derive(Clone, Debug)]
pub struct Org {
    pub id: Vec<u8>,
}

/// An indexer project record.
#[derive(Clone, Debug)]
pub struct Project {
    pub timestamp: u64,
    pub anchor: Anchor,
    pub org: Org,
}

/// Error parsing a project identifier out of an anchor.
#[derive(Clone, Debug)]
pub enum ParseUrnError {
    /// The object id misses the `0x` prefix or does not hold 32 bytes.
    Invalid(Vec<u8>),
    /// A digit of the object id is not hexadecimal.
    Int,
    /// The decoded bytes do not form a git object id.
    Git,
}

/// A well-formed anchor object id: `0x`, then 64 hexadecimal digits
/// denoting exactly 32 bytes.
pub open spec fn object_id_ok(s: Seq<u8>) -> bool {
    s.len() == 66 && s[0] == 48 && s[1] == 120 && is_hex_seq(s.skip(2))
}

/// The project identifier denoted by a well-formed anchor object id:
/// the trailing 20 of its 32 bytes.
pub open spec fn urn_id_of_object_id(s: Seq<u8>) -> Seq<u8>
    recommends
        object_id_ok(s),
{
    hex_decode_spec(s.skip(2)).subrange(12, 32)
}

impl Project {
    /// The project identifier anchored by this record.
    ///
    /// Succeeds exactly on a well-formed object id, and then returns the
    /// trailing 20 bytes of the anchored value. A missing `0x` prefix or
    /// a wrong length is `Invalid`; a stray non-hexadecimal digit is
    /// `Int`.
    pub fn urn(&self) -> (r: Result<Urn, ParseUrnError>)
        ensures
            r is Ok <==> object_id_ok(self.anchor.object_id@),
            r matches Ok(u) ==> u.id@ == urn_id_of_object_id(self.anchor.object_id@) && u.wf(),
            r matches Err(e) ==> match e {
                ParseUrnError::Invalid(t) => self.anchor.object_id@.len() < 2 || (
                self.anchor.object_id@[0] != 48 || self.anchor.object_id@[1] != 120) || (is_hex_seq(
                    self.anchor.object_id@.skip(2),
                ) && self.anchor.object_id@.len() != 66),
                ParseUrnError::Int => self.anchor.object_id@.len() >= 2
                    && self.anchor.object_id@[0] == 48 && self.anchor.object_id@[1] == 120
                    && !is_hex_seq(self.anchor.object_id@.skip(2)),
                ParseUrnError::Git => false,
            },
    {
        let s = &self.anchor.object_id;
        if !(s.len() >= 2 && s[0] == 48 && s[1] == 120) {
            return Err(ParseUrnError::Invalid(copy_range(s, 0, s.len())));
        }
        proof {
            assert(s@.subrange(0, s@.len() as int) =~= s@);
        }
        let body = copy_range(s, 2, s.len());
        proof {
            assert(body@ =~= s@.skip(2));
        }
        let mut i: usize = 0;
        while i < body.len()
            invariant
                i <= body@.len(),
                forall|k: int| 0 <= k < i ==> is_hex_digit(body@[k]),
                s@ == self.anchor.object_id@,
                body@ == s@.skip(2),
                s@.len() >= 2 && s@[0] == 48 && s@[1] == 120,
            decreases body@.len() - i,
        {
            if !is_hex_digit_byte(body[i]) {
                proof {
                    assert(!is_hex_digit(s@.skip(2)[i as int]));
                }
                return Err(ParseUrnError::Int);
            }
            i = i + 1;
        }
        if body.len() != 64 {
            return Err(ParseUrnError::Invalid(body));
        }
        match hex_decode(&body) {
            Some(decoded) => {
                let id = copy_range(&decoded, 12, 32);
                Ok(Urn { id })
            },
            None => {
                proof {
                    assert(false);
                }
                Err(ParseUrnError::Git)
            },
        }
    }
}

/// The project identifiers of the well-formed records, in record order.
pub open spec fn extracted_ids(ps: Seq<Project>) -> Seq<Seq<u8>>
    decreases ps.len(),
{
    if ps.len() == 0 {
        Seq::empty()
    } else {
        extracted_ids(ps.drop_last()) + (if object_id_ok(ps.last().anchor.object_id@) {
            seq![urn_id_of_object_id(ps.last().anchor.object_id@)]
        } else {
            Seq::empty()
        })
    }
}

/// Extract the project identifier of every well-formed record, in order,
/// skipping malformed anchors.
pub fn extract_urns(projects: &Vec<Project>) -> (r: Vec<Urn>)
    ensures
        r@.map_values(|u: Urn| u.id@) == extracted_ids(projects@),
        forall|i: int| 0 <= i < r@.len() ==> (#[trigger] r@[i]).wf(),
{
    let mut r: Vec<Urn> = Vec::new();
    let mut i: usize = 0;
    while i < projects.len()
        invariant
            i <= projects@.len(),
            r@.map_values(|u: Urn| u.id@) == extracted_ids(projects@.take(i as int)),
            forall|k: int| 0 <= k < r@.len() ==> (#[trigger] r@[k]).wf(),
        decreases projects@.len() - i,
    {
        let ghost prefix = projects@.take(i as int);
        match projects[i].urn() {
            Ok(urn) => {
                r.push(urn);
            },
            Err(_) => {},
        }
        proof {
            assert(projects@.take(i + 1).drop_last() =~= prefix);
            assert(projects@.take(i + 1).last() == projects@[i as int]);
            assert(r@.map_values(|u: Urn| u.id@) =~= extracted_ids(projects@.take(i + 1)));
        }
        i = i + 1;
    }
    proof {
        assert(projects@.take(projects@.len() as int) =~= projects@);
    }
    r
}

/// Law: a 32-byte anchor value, written as `0x` followed by its
/// hexadecimal text, is a well-formed object id whose project identifier
/// is the value's last 20 bytes.
pub proof fn lemma_urn_is_anchor_tail(b: Seq<u8>)
    requires
        b.len() == 32,
    ensures
        object_id_ok(seq![48u8, 120] + hex_encode_spec(b)),
        urn_id_of_object_id(seq![48u8, 120] + hex_encode_spec(b)) == b.subrange(12, 32),
{
    lemma_hex_round_trip(b);
    let s = seq![48u8, 120] + hex_encode_spec(b);
    assert(s.skip(2) =~= hex_encode_spec(b));
}

} // verus!
