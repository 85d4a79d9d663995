//! Peer identities: an ed25519 public key in raw and hexadecimal text form.

use vstd::prelude::*;
use crate::bytes::{hex_decode, hex_decode_spec, hex_encode, hex_encode_spec, is_hex_seq};

verus! {

/// A peer is identified by its raw 32-byte ed25519 public key.
#[derive(Clone, Debug)]
pub struct PeerId {
    pub key: Vec<u8>,
}

impl PeerId {
    /// A peer identity always carries a full 32-byte public key.
    pub open spec fn wf(&self) -> bool {
        self.key@.len() == 32
    }

    /// Parse the canonical text form of a peer identity: 64 hexadecimal
    /// digits spelling out the raw public key.
    pub fn from_text(s: &Vec<u8>) -> (r: Option<PeerId>)
        ensures
            r is Some <==> s@.len() == 64 && is_hex_seq(s@),
            r matches Some(p) ==> p.key@ == hex_decode_spec(s@) && p.wf(),
    {
        if s.len() != 64 {
            return None;
        }
        match hex_decode(s) {
            Some(key) => Some(PeerId { key }),
            None => None,
        }
    }

    /// The canonical text form of this peer identity.
    pub fn to_text(&self) -> (r: Vec<u8>)
        requires
            self.wf(),
        ensures
            r@ == hex_encode_spec(self.key@),
    {
        hex_encode(&self.key)
    }
}

} // verus!
