//! SSH public-key fingerprints for peer identities.
//!
//! The fingerprint of a peer is the SHA-256 digest of the canonical SSH
//! wire encoding of its ed25519 public key: the length-prefixed key type
//! name followed by the length-prefixed raw key bytes.

use vstd::prelude::*;
use sha2::Digest;
use crate::peer::PeerId;

verus! {

/// The SHA-256 digest of a byte sequence, as the sha2 crate computes it.
pub uninterp spec fn sha256_of(data: Seq<u8>) -> Seq<u8>;

/// Relies on sha2's `Sha256::digest`: the digest depends on the input
/// bytes alone and is 32 bytes long.
#[verifier::external_body]
fn sha256(data: &Vec<u8>) -> (r: Vec<u8>)
    ensures
        r@ == sha256_of(data@),
        r@.len() == 32,
{
    sha2::Sha256::digest(data.as_slice()).as_slice().to_vec()
}

/// Big-endian bytes of a 32-bit value.
pub open spec fn u32_be_spec(n: u32) -> Seq<u8> {
    seq![(n >> 24) as u8, ((n >> 16) & 0xff) as u8, ((n >> 8) & 0xff) as u8, (n & 0xff) as u8]
}

/// Write a 32-bit value as four big-endian bytes.
pub fn u32_be(n: u32) -> (r: Vec<u8>)
    ensures
        r@ == u32_be_spec(n),
{
    proof {
        assert((n >> 24) <= 0xff && ((n >> 16) & 0xff) <= 0xff && ((n >> 8) & 0xff) <= 0xff && (
        n & 0xff) <= 0xff) by (bit_vector);
    }
    let mut r: Vec<u8> = Vec::new();
    r.push((n >> 24) as u8);
    r.push(((n >> 16) & 0xff) as u8);
    r.push(((n >> 8) & 0xff) as u8);
    r.push((n & 0xff) as u8);
    proof {
        assert(r@ =~= u32_be_spec(n));
    }
    r
}

/// The ASCII bytes of the SSH key type name for ed25519 keys.
pub open spec fn ssh_key_type_name() -> Seq<u8> {
    seq![115u8, 115, 104, 45, 101, 100, 50, 53, 53, 49, 57]
}

/// The canonical SSH wire encoding of a public key: the length-prefixed
/// key type name, then the length-prefixed raw key bytes.
pub open spec fn ssh_wire_encoding(key: Seq<u8>) -> Seq<u8>
    recommends
        key.len() <= u32::MAX,
{
    u32_be_spec(11) + ssh_key_type_name() + u32_be_spec(key.len() as u32) + key
}

/// The SSH fingerprint of a raw public key: the SHA-256 digest of its
/// SSH wire encoding.
pub open spec fn ssh_fingerprint_spec(key: Seq<u8>) -> Seq<u8> {
    sha256_of(ssh_wire_encoding(key))
}

/// Append a copy of every byte of `src` to `dst`.
pub fn push_all(dst: &mut Vec<u8>, src: &Vec<u8>)
    requires
        old(dst)@.len() + src@.len() <= usize::MAX,
    ensures
        final(dst)@ == old(dst)@ + src@,
{
    let mut i: usize = 0;
    while i < src.len()
        invariant
            i <= src@.len(),
            dst@ == old(dst)@ + src@.take(i as int),
            old(dst)@.len() + src@.len() <= usize::MAX,
        decreases src@.len() - i,
    {
        let b = src[i];
        dst.push(b);
        proof {
            assert(old(dst)@ + src@.take(i + 1) =~= (old(dst)@ + src@.take(i as int)).push(
                src@[i as int],
            ));
        }
        i = i + 1;
    }
    proof {
        assert(src@.take(src@.len() as int) =~= src@);
    }
}

/// Compute the SSH fingerprint of a peer identity.
pub fn to_ssh_fingerprint(peer_id: &PeerId) -> (r: Vec<u8>)
    requires
        peer_id.wf(),
    ensures
        r@ == ssh_fingerprint_spec(peer_id.key@),
        r@.len() == 32,
{
    let mut buf: Vec<u8> = Vec::new();
    let name_len = u32_be(11);
    push_all(&mut buf, &name_len);
    let mut name: Vec<u8> = Vec::new();
    name.push(115);
    name.push(115);
    name.push(104);
    name.push(45);
    name.push(101);
    name.push(100);
    name.push(50);
    name.push(53);
    name.push(53);
    name.push(49);
    name.push(57);
    proof {
        assert(name@ =~= ssh_key_type_name());
    }
    push_all(&mut buf, &name);
    let key_len = u32_be(peer_id.key.len() as u32);
    push_all(&mut buf, &key_len);
    push_all(&mut buf, &peer_id.key);
    proof {
        assert(buf@ =~= ssh_wire_encoding(peer_id.key@));
    }
    sha256(&buf)
}

} // verus!
