//! The node's signing identity.
//!
//! A signer is loaded from raw ed25519 key material: 64 bytes holding the
//! 32-byte seed followed by the 32-byte public key. The peer identity of
//! the node is the public half of that material. Key arithmetic (signing,
//! deriving the public half from the seed) belongs to the peer-to-peer
//! protocol implementation, an external collaborator; this library only
//! validates and carries the material.

use vstd::prelude::*;
use crate::fingerprint::{
    sha256_of,
    ssh_fingerprint_spec,
    ssh_key_type_name,
    ssh_wire_encoding,
    u32_be_spec,
};
use crate::peer::PeerId;

verus! {

/// Raw ed25519 key material: seed then public key.
#[derive(Clone, Debug)]
pub struct SecretKey {
    pub bytes: Vec<u8>,
}

impl SecretKey {
    /// Key material is exactly 64 bytes: a 32-byte seed and a 32-byte
    /// public key.
    pub open spec fn wf(&self) -> bool {
        self.bytes@.len() == 64
    }
}

/// Why key material was rejected.
#[derive(Clone, Copy, Debug, PartialEq, Eq, Structural)]
pub enum KeyError {
    /// The bytes read are not a full ed25519 keypair.
    InvalidData,
}

/// The node's signing identity.
#[derive(Clone, Debug)]
pub struct Signer {
    pub key: SecretKey,
}

impl Signer {
    /// The signer holds well-formed key material.
    pub open spec fn wf(&self) -> bool {
        self.key.wf()
    }

    /// The raw public key carried in the key material.
    pub open spec fn public_key_spec(&self) -> Seq<u8> {
        self.key.bytes@.skip(32)
    }

    /// Validate raw key material read from the identity file.
    /// Accepts exactly the 64-byte strings.
    pub fn new(bytes: Vec<u8>) -> (r: Result<Signer, KeyError>)
        ensures
            r is Ok <==> bytes@.len() == 64,
            r matches Ok(s) ==> s.key.bytes@ == bytes@ && s.wf(),
            r matches Err(e) ==> e == KeyError::InvalidData,
    {
        if bytes.len() == 64 {
            Ok(Signer { key: SecretKey { bytes } })
        } else {
            Err(KeyError::InvalidData)
        }
    }

    /// Wrap already-validated key material.
    pub fn from_key(key: SecretKey) -> (r: Signer)
        ensures
            r.key == key,
    {
        Signer { key }
    }

    /// The raw 32-byte public key of this signer.
    pub fn public_key(&self) -> (r: Vec<u8>)
        requires
            self.wf(),
        ensures
            r@ == self.public_key_spec(),
            r@.len() == 32,
    {
        let mut r: Vec<u8> = Vec::new();
        let mut i: usize = 32;
        while i < 64
            invariant
                self.wf(),
                32 <= i <= 64,
                r@ == self.key.bytes@.subrange(32, i as int),
            decreases 64 - i,
        {
            let b = self.key.bytes[i];
            r.push(b);
            proof {
                assert(self.key.bytes@.subrange(32, i + 1) =~= self.key.bytes@.subrange(
                    32,
                    i as int,
                ).push(self.key.bytes@[i as int]));
            }
            i = i + 1;
        }
        proof {
            assert(self.key.bytes@.subrange(32, 64) =~= self.public_key_spec());
        }
        r
    }

    /// The peer identity derived from this signer: its raw public key.
    pub fn peer_id(&self) -> (r: PeerId)
        requires
            self.wf(),
        ensures
            r.key@ == self.public_key_spec(),
            r.wf(),
    {
        PeerId { key: self.public_key() }
    }
}

/// Law: the SSH fingerprint of the peer identity derived from a signer's
/// public key is the SHA-256 digest of the four big-endian bytes of 11,
/// the ASCII name "ssh-ed25519", the four big-endian bytes of 32, and the
/// raw public key bytes, in that order.
pub proof fn lemma_fingerprint_of_derived_peer(s: Signer)
    requires
        s.wf(),
    ensures
        ssh_fingerprint_spec(s.public_key_spec()) == sha256_of(
            u32_be_spec(11) + ssh_key_type_name() + u32_be_spec(32) + s.public_key_spec(),
        ),
{
    assert(s.public_key_spec().len() == 32);
    assert(ssh_wire_encoding(s.public_key_spec()) == u32_be_spec(11) + ssh_key_type_name()
        + u32_be_spec(32) + s.public_key_spec());
}

} // verus!
