//! The push authorizer behind the git pre-receive hook.
//!
//! A push arrives as ref-update lines on standard input together with a
//! certificate snapshot in the environment. The authorizer admits the
//! push only if the push certificate's signature is good, its nonce is
//! fresh, the signing key is authorized, and every updated ref lies in
//! the remote subtree owned by the signer's own peer identity.

use vstd::prelude::*;
use base64::Engine;
use crate::bytes::{bytes_eq, copy_range, hex_decode, hex_decode_spec, is_hex_seq, starts_with};
use crate::error::{Error, Reason};
use crate::fingerprint::{ssh_fingerprint_spec, to_ssh_fingerprint};
use crate::peer::PeerId;

verus! {

/// The environment the host git daemon hands to the pre-receive hook.
#[derive(Clone, Debug)]
pub struct ReceivePackEnv {
    /// Path of the bare repository being pushed into.
    pub git_dir: Vec<u8>,
    /// Namespace of the project within the repository.
    pub git_namespace: Vec<u8>,
    /// Signature status of the push certificate, if a certificate came.
    pub cert_status: Option<Vec<u8>>,
    /// Nonce status of the push certificate, if a certificate came.
    pub cert_nonce_status: Option<Vec<u8>>,
    /// Fingerprint of the key that signed the push certificate.
    pub cert_key: Option<Vec<u8>>,
    /// Comma-separated fingerprints the operator authorizes to push.
    pub authorized_keys: Option<Vec<u8>>,
    /// Operator switch that skips the authorized-key gate.
    pub allow_unauthorized_keys: Option<bool>,
}

/// A 20-byte git object id.
#[derive(Clone, Debug)]
pub struct Oid {
    pub bytes: Vec<u8>,
}

impl Oid {
    /// A git object id is exactly 20 bytes.
    pub open spec fn wf(&self) -> bool {
        self.bytes@.len() == 20
    }
}

/// One proposed ref update: the ref and its object id before and after.
#[derive(Clone, Debug)]
pub struct RefUpdate {
    pub refname: Vec<u8>,
    pub old_oid: Oid,
    pub new_oid: Oid,
}

/// Signature status of the push certificate, as git reports it.
#[derive(Clone, Copy, Debug, PartialEq, Eq, Structural)]
pub enum CertStatus {
    /// A good signature.
    Good,
    /// A bad signature.
    Bad,
    /// A good signature by a key of unknown validity.
    UnknownValidity,
    /// A good signature that has expired.
    Expired,
    /// A good signature by an expired key.
    ExpiredKey,
    /// A good signature by a revoked key.
    Revoked,
    /// Signature checking failed.
    CheckError,
    /// No signature at all.
    NoSignature,
    /// Any other status text.
    Unrecognized,
}

/// Nonce status of the push certificate, as git reports it.
#[derive(Clone, Copy, Debug, PartialEq, Eq, Structural)]
pub enum CertNonceStatus {
    /// The client proved freshness of the server's nonce.
    Okay,
    /// The certificate carries a nonce the server never asked for.
    Unknown,
    /// The nonce came back outside the accepted window.
    Slop,
    /// The certificate carries no nonce.
    Missing,
    /// The nonce does not match what the server sent.
    Bad,
    /// Any other status text.
    Unrecognized,
}

/// The status denoted by certificate status text.
pub open spec fn cert_status_spec(s: Seq<u8>) -> CertStatus {
    if s == seq![71u8] {
        CertStatus::Good
    } else if s == seq![66u8] {
        CertStatus::Bad
    } else if s == seq![85u8] {
        CertStatus::UnknownValidity
    } else if s == seq![88u8] {
        CertStatus::Expired
    } else if s == seq![89u8] {
        CertStatus::ExpiredKey
    } else if s == seq![82u8] {
        CertStatus::Revoked
    } else if s == seq![69u8] {
        CertStatus::CheckError
    } else if s == seq![78u8] {
        CertStatus::NoSignature
    } else {
        CertStatus::Unrecognized
    }
}

/// The status denoted by nonce status text.
pub open spec fn nonce_status_spec(s: Seq<u8>) -> CertNonceStatus {
    if s == seq![79u8, 75] {
        CertNonceStatus::Okay
    } else if s == seq![85u8, 78, 75, 78, 79, 87, 78] {
        CertNonceStatus::Unknown
    } else if s == seq![83u8, 76, 79, 80] {
        CertNonceStatus::Slop
    } else if s == seq![77u8, 73, 83, 83, 73, 78, 71] {
        CertNonceStatus::Missing
    } else if s == seq![66u8, 65, 68] {
        CertNonceStatus::Bad
    } else {
        CertNonceStatus::Unrecognized
    }
}

/// The text of an optional environment value, or empty when unset.
pub open spec fn opt_text(o: Option<Vec<u8>>) -> Seq<u8> {
    match o {
        Some(v) => v@,
        None => Seq::empty(),
    }
}

/// Parse certificate status text.
pub fn parse_cert_status(s: &Vec<u8>) -> (r: CertStatus)
    ensures
        r == cert_status_spec(s@),
{
    if s.len() == 1 {
        let b = s[0];
        if b == 71 {
            proof {
                assert(s@ =~= seq![71u8]);
            }
            CertStatus::Good
        } else if b == 66 {
            proof {
                assert(s@ =~= seq![66u8]);
            }
            CertStatus::Bad
        } else if b == 85 {
            proof {
                assert(s@ =~= seq![85u8]);
            }
            CertStatus::UnknownValidity
        } else if b == 88 {
            proof {
                assert(s@ =~= seq![88u8]);
            }
            CertStatus::Expired
        } else if b == 89 {
            proof {
                assert(s@ =~= seq![89u8]);
            }
            CertStatus::ExpiredKey
        } else if b == 82 {
            proof {
                assert(s@ =~= seq![82u8]);
            }
            CertStatus::Revoked
        } else if b == 69 {
            proof {
                assert(s@ =~= seq![69u8]);
            }
            CertStatus::CheckError
        } else if b == 78 {
            proof {
                assert(s@ =~= seq![78u8]);
            }
            CertStatus::NoSignature
        } else {
            CertStatus::Unrecognized
        }
    } else {
        CertStatus::Unrecognized
    }
}

/// Parse nonce status text.
pub fn parse_nonce_status(s: &Vec<u8>) -> (r: CertNonceStatus)
    ensures
        r == nonce_status_spec(s@),
{
    if s.len() == 2 && s[0] == 79 && s[1] == 75 {
        proof {
            assert(s@ =~= seq![79u8, 75]);
        }
        CertNonceStatus::Okay
    } else if s.len() == 7 && s[0] == 85 && s[1] == 78 && s[2] == 75 && s[3] == 78 && s[4] == 79
        && s[5] == 87 && s[6] == 78 {
        proof {
            assert(s@ =~= seq![85u8, 78, 75, 78, 79, 87, 78]);
        }
        CertNonceStatus::Unknown
    } else if s.len() == 4 && s[0] == 83 && s[1] == 76 && s[2] == 79 && s[3] == 80 {
        proof {
            assert(s@ =~= seq![83u8, 76, 79, 80]);
        }
        CertNonceStatus::Slop
    } else if s.len() == 7 && s[0] == 77 && s[1] == 73 && s[2] == 83 && s[3] == 83 && s[4] == 73
        && s[5] == 78 && s[6] == 71 {
        proof {
            assert(s@ =~= seq![77u8, 73, 83, 83, 73, 78, 71]);
        }
        CertNonceStatus::Missing
    } else if s.len() == 3 && s[0] == 66 && s[1] == 65 && s[2] == 68 {
        proof {
            assert(s@ =~= seq![66u8, 65, 68]);
        }
        CertNonceStatus::Bad
    } else {
        CertNonceStatus::Unrecognized
    }
}

/// Guidance written to the pusher for each nonce status that rejects.
pub fn nonce_guidance(status: &CertNonceStatus) -> (r: &'static str)
    ensures
        *status == CertNonceStatus::Unknown ==> r@
            == "Invalid request, please sign push, i.e. `git push --sign ...`"@,
        *status == CertNonceStatus::Slop ==> r@
            == "Received `SLOP` certificate status, please re-submit signed push to request new certificate"@,
{
    match status {
        CertNonceStatus::Unknown => "Invalid request, please sign push, i.e. `git push --sign ...`",
        CertNonceStatus::Slop => "Received `SLOP` certificate status, please re-submit signed push to request new certificate",
        _ => "Received invalid certificate nonce status",
    }
}

/// One comma-delimited segment of a keyring text: a span between
/// boundaries (text ends or commas) that holds no comma itself.
pub open spec fn seg_at(s: Seq<u8>, a: int, b: int) -> bool {
    &&& 0 <= a <= b <= s.len()
    &&& (a == 0 || s[a - 1] == 44)
    &&& (b == s.len() || s[b] == 44)
    &&& (forall|j: int| a <= j < b ==> s[j] != 44)
}

/// Membership in a comma-separated list: the candidate occupies one
/// whole comma-delimited segment of the text.
pub open spec fn is_csv_member(s: Seq<u8>, k: Seq<u8>) -> bool {
    exists|a: int, b: int| #[trigger] seg_at(s, a, b) && s.subrange(a, b) == k
}

/// The pieces enumerate exactly the comma-delimited segments of the text.
pub open spec fn keyring_matches(pieces: Seq<Vec<u8>>, s: Seq<u8>) -> bool {
    &&& (forall|j: int| 0 <= j < pieces.len() ==> is_csv_member(s, #[trigger] pieces[j]@))
    &&& (forall|k: Seq<u8>| #[trigger] is_csv_member(s, k) ==> exists|j: int|
        0 <= j < pieces.len() && pieces[j]@ == k)
}

/// Split a keyring text at its commas, one piece per segment.
pub fn split_keyring(s: &Vec<u8>) -> (pieces: Vec<Vec<u8>>)
    ensures
        keyring_matches(pieces@, s@),
{
    let mut pieces: Vec<Vec<u8>> = Vec::new();
    let mut start: usize = 0;
    let mut i: usize = 0;
    while i < s.len()
        invariant
            start <= i <= s@.len(),
            start == 0 || s@[start - 1] == 44,
            forall|j: int| start <= j < i ==> s@[j] != 44,
            forall|j: int| 0 <= j < pieces@.len() ==> is_csv_member(s@, #[trigger] pieces@[j]@),
            forall|a: int, b: int| #[trigger] seg_at(s@, a, b) && b < start ==> exists|j: int|
                0 <= j < pieces@.len() && pieces@[j]@ == s@.subrange(a, b),
        decreases s@.len() - i,
    {
        if s[i] == 44 {
            let piece = copy_range(s, start, i);
            proof {
                assert(seg_at(s@, start as int, i as int));
                lemma_seg_start_unique(s@, start as int, i as int);
            }
            let ghost prev = pieces@;
            pieces.push(piece);
            proof {
                assert forall|a: int, b: int| #[trigger] seg_at(s@, a, b) && b < i + 1 implies
                    exists|j: int| 0 <= j < pieces@.len() && pieces@[j]@ == s@.subrange(a, b) by {
                    if b == i {
                        assert(a == start as int);
                        assert(pieces@[pieces@.len() - 1]@ == s@.subrange(a, b));
                    } else if b >= start {
                        assert(s@[b] == 44);
                        assert(false);
                    } else {
                        let j = choose|j: int|
                            0 <= j < prev.len() && #[trigger] prev[j]@ == s@.subrange(a, b);
                        assert(pieces@[j]@ == s@.subrange(a, b));
                    }
                }
            }
            start = i + 1;
        }
        i = i + 1;
    }
    let piece = copy_range(s, start, s.len());
    proof {
        assert(seg_at(s@, start as int, s@.len() as int));
        lemma_seg_start_unique(s@, start as int, s@.len() as int);
    }
    let ghost prev = pieces@;
    pieces.push(piece);
    proof {
        assert forall|k: Seq<u8>| #[trigger] is_csv_member(s@, k) implies exists|j: int|
            0 <= j < pieces@.len() && pieces@[j]@ == k by {
            let (a, b) = choose|a: int, b: int| #[trigger] seg_at(s@, a, b) && s@.subrange(a, b)
                == k;
            if b == s@.len() {
                assert(a == start as int);
                assert(pieces@[pieces@.len() - 1]@ == k);
            } else if b >= start {
                assert(s@[b] == 44);
                assert(false);
            } else {
                let j = choose|j: int|
                    0 <= j < prev.len() && #[trigger] prev[j]@ == s@.subrange(a, b);
                assert(pieces@[j]@ == k);
            }
        }
    }
    pieces
}

/// The start of a segment is determined by its end: it is the nearest
/// boundary at or before the end.
proof fn lemma_seg_start_unique(s: Seq<u8>, start: int, b: int)
    requires
        0 <= start <= b <= s.len(),
        start == 0 || s[start - 1] == 44,
        forall|j: int| start <= j < b ==> s[j] != 44,
    ensures
        forall|a: int| #[trigger] seg_at(s, a, b) ==> a == start,
{
    assert forall|a: int| #[trigger] seg_at(s, a, b) implies a == start by {
        if a < start {
            assert(s[start - 1] == 44);
            assert(a <= start - 1 < b);
        } else if a > start {
            assert(s[a - 1] == 44);
            assert(start <= a - 1 < b);
        }
    }
}

/// Whether the keyring holds this exact key.
pub fn keyring_contains(pieces: &Vec<Vec<u8>>, key: &Vec<u8>) -> (r: bool)
    ensures
        r <==> exists|j: int| 0 <= j < pieces@.len() && #[trigger] pieces@[j]@ == key@,
{
    let mut i: usize = 0;
    while i < pieces.len()
        invariant
            i <= pieces@.len(),
            forall|j: int| 0 <= j < i ==> #[trigger] pieces@[j]@ != key@,
        decreases pieces@.len() - i,
    {
        if bytes_eq(&pieces[i], key) {
            return true;
        }
        i = i + 1;
    }
    false
}

/// A well-formed ref-update line: 40 hexadecimal digits, a space, 40
/// hexadecimal digits, a space, and a non-empty refname without spaces.
pub open spec fn line_ok(l: Seq<u8>) -> bool {
    &&& l.len() > 82
    &&& is_hex_seq(l.take(40))
    &&& l[40] == 32
    &&& is_hex_seq(l.subrange(41, 81))
    &&& l[81] == 32
    &&& forall|i: int| 82 <= i < l.len() ==> l[i] != 32
}

/// The ref update denoted by a well-formed line.
pub open spec fn update_of_line(l: Seq<u8>, u: RefUpdate) -> bool {
    &&& u.old_oid.bytes@ == hex_decode_spec(l.take(40))
    &&& u.new_oid.bytes@ == hex_decode_spec(l.subrange(41, 81))
    &&& u.refname@ == l.skip(82)
}

/// Parse one standard-input line into a ref update. Accepts exactly the
/// well-formed lines.
pub fn parse_update_line(l: &Vec<u8>) -> (r: Option<RefUpdate>)
    ensures
        r is Some <==> line_ok(l@),
        r matches Some(u) ==> update_of_line(l@, u) && u.old_oid.wf() && u.new_oid.wf(),
{
    if l.len() <= 82 {
        return None;
    }
    if l[40] != 32 || l[81] != 32 {
        return None;
    }
    let old_text = copy_range(l, 0, 40);
    let new_text = copy_range(l, 41, 81);
    proof {
        assert(old_text@ =~= l@.take(40));
    }
    let old_bytes = match hex_decode(&old_text) {
        Some(b) => b,
        None => {
            return None;
        },
    };
    let new_bytes = match hex_decode(&new_text) {
        Some(b) => b,
        None => {
            return None;
        },
    };
    let mut i: usize = 82;
    while i < l.len()
        invariant
            82 <= i <= l@.len(),
            forall|k: int| 82 <= k < i ==> l@[k] != 32,
        decreases l@.len() - i,
    {
        if l[i] == 32 {
            return None;
        }
        i = i + 1;
    }
    let refname = copy_range(l, 82, l.len());
    proof {
        assert(refname@ =~= l@.skip(82));
        assert(hex_decode_spec(l@.take(40)).len() == 20);
        assert(hex_decode_spec(l@.subrange(41, 81)).len() == 20);
    }
    Some(
        RefUpdate {
            refname,
            old_oid: Oid { bytes: old_bytes },
            new_oid: Oid { bytes: new_bytes },
        },
    )
}

/// What the standard-alphabet base64 codec decodes a text to, when the
/// text is valid base64 at all.
pub uninterp spec fn base64_decode_of(s: Seq<u8>) -> Option<Seq<u8>>;

/// Relies on base64's standard-alphabet, padded `Engine::decode`:
/// whether the text decodes, and to which bytes, depends on the text
/// alone.
#[verifier::external_body]
fn base64_decode(s: &Vec<u8>) -> (r: Option<Vec<u8>>)
    ensures
        r matches Some(v) ==> base64_decode_of(s@) == Some(v@),
        r is None ==> base64_decode_of(s@) is None,
{
    match base64::engine::general_purpose::STANDARD.decode(s.as_slice()) {
        Ok(v) => Some(v),
        Err(_) => None,
    }
}

/// The ASCII bytes of the fingerprint marker "SHA256:".
pub open spec fn sha256_marker() -> Seq<u8> {
    seq![83u8, 72, 65, 50, 53, 54, 58]
}

/// A certificate key fingerprint in transport form: the SHA-256 marker
/// followed by the base64 payload.
pub open spec fn fp_text_ok(k: Seq<u8>) -> bool {
    k.len() >= 7 && k.take(7) == sha256_marker()
}

/// The ASCII bytes of the ref prefix "refs/remotes/".
pub open spec fn refs_remotes_prefix() -> Seq<u8> {
    seq![114u8, 101, 102, 115, 47, 114, 101, 109, 111, 116, 101, 115, 47]
}

/// A refname in the owned namespace form `refs/remotes/<peer>/<tail>`:
/// the prefix, a peer identity as 64 hexadecimal digits, a slash, and a
/// non-empty tail.
pub open spec fn ref_ok(r: Seq<u8>) -> bool {
    &&& r.len() >= 79
    &&& r.take(13) == refs_remotes_prefix()
    &&& is_hex_seq(r.subrange(13, 77))
    &&& r[77] == 47
}

/// The raw public key of the peer that owns a well-formed refname.
pub open spec fn ref_peer_key(r: Seq<u8>) -> Seq<u8>
    recommends
        ref_ok(r),
{
    hex_decode_spec(r.subrange(13, 77))
}

/// The part of a well-formed refname below the peer's subtree.
pub open spec fn ref_tail(r: Seq<u8>) -> Seq<u8>
    recommends
        ref_ok(r),
{
    r.skip(78)
}

/// Split a refname into the owning peer and the ref tail. Accepts
/// exactly the refnames in the owned namespace form.
pub fn parse_ref(refname: &Vec<u8>) -> (r: Result<(PeerId, Vec<u8>), Error>)
    ensures
        r is Ok <==> ref_ok(refname@),
        r matches Ok(pt) ==> pt.0.key@ == ref_peer_key(refname@) && pt.0.wf() && pt.1@ == ref_tail(
            refname@,
        ),
        r matches Err(e) ==> e matches Error::InvalidRefPushed(t) && t@ == refname@,
{
    proof {
        assert(refname@.subrange(0, refname@.len() as int) =~= refname@);
    }
    let mut prefix: Vec<u8> = Vec::new();
    prefix.push(114);
    prefix.push(101);
    prefix.push(102);
    prefix.push(115);
    prefix.push(47);
    prefix.push(114);
    prefix.push(101);
    prefix.push(109);
    prefix.push(111);
    prefix.push(116);
    prefix.push(101);
    prefix.push(115);
    prefix.push(47);
    proof {
        assert(prefix@ =~= refs_remotes_prefix());
    }
    if refname.len() < 79 || !starts_with(refname, &prefix) {
        return Err(Error::InvalidRefPushed(copy_range(refname, 0, refname.len())));
    }
    if refname[77] != 47 {
        return Err(Error::InvalidRefPushed(copy_range(refname, 0, refname.len())));
    }
    let peer_text = copy_range(refname, 13, 77);
    let key = match hex_decode(&peer_text) {
        Some(k) => k,
        None => {
            return Err(Error::InvalidRefPushed(copy_range(refname, 0, refname.len())));
        },
    };
    let tail = copy_range(refname, 78, refname.len());
    proof {
        assert(tail@ =~= ref_tail(refname@));
    }
    Ok((PeerId { key }, tail))
}

/// A proposed update is authorized for an expected fingerprint when its
/// refname is well-formed and the owning peer's SSH fingerprint is that
/// fingerprint.
pub open spec fn update_authorized(u: RefUpdate, fp: Seq<u8>) -> bool {
    ref_ok(u.refname@) && ssh_fingerprint_spec(ref_peer_key(u.refname@)) == fp
}

/// The position of the first update that is not authorized, or the
/// number of updates when all are.
pub open spec fn first_unauthorized(us: Seq<RefUpdate>, fp: Seq<u8>) -> int
    decreases us.len(),
{
    if us.len() == 0 {
        0
    } else if !update_authorized(us[0], fp) {
        0
    } else {
        1 + first_unauthorized(us.drop_first(), fp)
    }
}

/// Locate the first unauthorized update from pointwise facts.
proof fn lemma_first_unauthorized_at(us: Seq<RefUpdate>, fp: Seq<u8>, j: int)
    requires
        0 <= j <= us.len(),
        forall|k: int| 0 <= k < j ==> #[trigger] update_authorized(us[k], fp),
        j < us.len() ==> !update_authorized(us[j], fp),
    ensures
        first_unauthorized(us, fp) == j,
    decreases us.len(),
{
    if us.len() == 0 || j == 0 {
    } else {
        assert(update_authorized(us[0], fp));
        let rest = us.drop_first();
        assert forall|k: int| 0 <= k < j - 1 implies #[trigger] update_authorized(
            rest[k],
            fp,
        ) by {
            assert(rest[k] == us[k + 1]);
        }
        if j - 1 < rest.len() {
            assert(rest[j - 1] == us[j]);
        }
        lemma_first_unauthorized_at(rest, fp, j - 1);
    }
}

/// The pre-receive authorizer: the daemon's environment snapshot and the
/// proposed ref updates read from standard input.
#[derive(Clone, Debug)]
pub struct PreReceive {
    /// Environment handed over by the host git daemon.
    pub env: ReceivePackEnv,
    /// Proposed ref updates.
    pub updates: Vec<RefUpdate>,
    /// Authorized keys, as SSH key fingerprints.
    pub authorized_keys: Vec<Vec<u8>>,
    /// SSH key fingerprint of the pusher.
    pub key_fingerprint: Vec<u8>,
}

impl PreReceive {
    /// The derived fields agree with the environment: the fingerprint is
    /// the certificate key, the keyring is the comma-split authorized
    /// list, and every parsed object id is full length.
    pub open spec fn wf(&self) -> bool {
        &&& self.env.cert_key matches Some(k) && self.key_fingerprint@ == k@
        &&& match self.env.authorized_keys {
            Some(t) => keyring_matches(self.authorized_keys@, t@),
            None => self.authorized_keys@.len() == 0,
        }
        &&& forall|i: int|
            0 <= i < self.updates@.len() ==> (#[trigger] self.updates@[i]).old_oid.wf()
                && self.updates@[i].new_oid.wf()
    }

    /// Build the authorizer from the environment and the ref-update
    /// lines of standard input.
    ///
    /// Succeeds exactly when every line is well-formed and a certificate
    /// key is present; the updates then mirror the lines in order.
    pub fn from_lines(env: ReceivePackEnv, lines: &Vec<Vec<u8>>) -> (r: Result<PreReceive, Error>)
        ensures
            r is Ok <==> (forall|i: int| 0 <= i < lines@.len() ==> line_ok(#[trigger] lines@[i]@))
                && env.cert_key is Some,
            r matches Ok(p) ==> p.env == env && p.wf() && p.updates@.len() == lines@.len() && (
            forall|i: int|
                0 <= i < lines@.len() ==> update_of_line(
                    lines@[i]@,
                    #[trigger] p.updates@[i],
                )),
            r matches Err(e) ==> match e {
                Error::MalformedInput(l) => !line_ok(l@) && (exists|i: int|
                    0 <= i < lines@.len() && #[trigger] lines@[i]@ == l@),
                Error::Unauthorized(reason) => reason == Reason::CertificateMissing
                    && env.cert_key is None && (forall|i: int|
                    0 <= i < lines@.len() ==> line_ok(#[trigger] lines@[i]@)),
                _ => false,
            },
    {
        let mut updates: Vec<RefUpdate> = Vec::new();
        let mut i: usize = 0;
        while i < lines.len()
            invariant
                i <= lines@.len(),
                updates@.len() == i,
                forall|k: int| 0 <= k < i ==> line_ok(#[trigger] lines@[k]@),
                forall|k: int|
                    0 <= k < i ==> update_of_line(lines@[k]@, #[trigger] updates@[k])
                        && updates@[k].old_oid.wf() && updates@[k].new_oid.wf(),
            decreases lines@.len() - i,
        {
            match parse_update_line(&lines[i]) {
                Some(u) => {
                    updates.push(u);
                },
                None => {
                    let l = copy_range(&lines[i], 0, lines[i].len());
                    proof {
                        assert(l@ =~= lines@[i as int]@);
                    }
                    return Err(Error::MalformedInput(l));
                },
            }
            i = i + 1;
        }
        let authorized_keys = match &env.authorized_keys {
            Some(t) => split_keyring(t),
            None => Vec::new(),
        };
        let key_fingerprint = match &env.cert_key {
            Some(k) => copy_range(k, 0, k.len()),
            None => {
                return Err(Error::Unauthorized(Reason::CertificateMissing));
            },
        };
        proof {
            assert(env.cert_key matches Some(k) ==> key_fingerprint@ =~= k@);
        }
        Ok(PreReceive { env, updates, authorized_keys, key_fingerprint })
    }

    /// The certificate gates: a good signature and a fresh nonce.
    pub open spec fn certificate_ok(env: ReceivePackEnv) -> bool {
        &&& cert_status_spec(opt_text(env.cert_status)) == CertStatus::Good
        &&& nonce_status_spec(opt_text(env.cert_nonce_status)) == CertNonceStatus::Okay
    }

    /// The authorized-key gate: the operator allows unauthorized keys,
    /// or the certificate key is a member of the configured list.
    pub open spec fn key_authorized(env: ReceivePackEnv) -> bool {
        env.cert_key matches Some(k) && (env.allow_unauthorized_keys == Some(true) || (
        env.authorized_keys matches Some(t) && is_csv_member(t@, k@)))
    }

    /// The per-ref identity gate: the certificate key decodes to a raw
    /// fingerprint, and every update's owning peer carries it.
    pub open spec fn updates_authorized(env: ReceivePackEnv, us: Seq<RefUpdate>) -> bool {
        env.cert_key matches Some(k) && fp_text_ok(k@) && (base64_decode_of(k@.skip(7)) matches Some(
            fp,
        ) && forall|i: int| 0 <= i < us.len() ==> update_authorized(#[trigger] us[i], fp))
    }

    /// Succeeds exactly when the certificate signature is good and its
    /// nonce is fresh. Any other status rejects the push.
    pub fn verify_certificate(&self) -> (r: Result<(), Error>)
        ensures
            r is Ok <==> Self::certificate_ok(self.env),
            r matches Err(e) ==> e == Error::FailedCertificateVerification,
    {
        let empty: Vec<u8> = Vec::new();
        let status = match &self.env.cert_status {
            Some(v) => parse_cert_status(v),
            None => parse_cert_status(&empty),
        };
        match status {
            CertStatus::Good => {},
            _ => {
                return Err(Error::FailedCertificateVerification);
            },
        }
        let nonce_status = match &self.env.cert_nonce_status {
            Some(v) => parse_nonce_status(v),
            None => parse_nonce_status(&empty),
        };
        match nonce_status {
            CertNonceStatus::Okay => Ok(()),
            _ => Err(Error::FailedCertificateVerification),
        }
    }

    /// Succeeds exactly when a certificate key is present and either the
    /// operator allows unauthorized keys or the key is in the keyring.
    pub fn check_authorized_key(&self) -> (r: Result<(), Error>)
        ensures
            r is Ok <==> self.env.cert_key is Some && (self.env.allow_unauthorized_keys == Some(
                true,
            ) || (self.env.cert_key matches Some(k) && exists|j: int|
                0 <= j < self.authorized_keys@.len() && #[trigger] self.authorized_keys@[j]@
                    == k@)),
            r matches Err(e) ==> e == Error::Unauthorized(Reason::KeyNotAuthorized),
    {
        match &self.env.cert_key {
            Some(key) => {
                let allowed = match self.env.allow_unauthorized_keys {
                    Some(flag) => flag,
                    None => false,
                };
                if allowed {
                    return Ok(());
                }
                if keyring_contains(&self.authorized_keys, key) {
                    Ok(())
                } else {
                    Err(Error::Unauthorized(Reason::KeyNotAuthorized))
                }
            },
            None => Err(Error::Unauthorized(Reason::KeyNotAuthorized)),
        }
    }

    /// Authorize every proposed ref update: the certificate key must
    /// decode to a raw fingerprint, and each updated ref must lie in the
    /// remote subtree of the peer with exactly that SSH fingerprint.
    pub fn authorize_ref_updates(&self) -> (r: Result<(), Error>)
        ensures
            r is Ok <==> fp_text_ok(self.key_fingerprint@) && (base64_decode_of(
                self.key_fingerprint@.skip(7),
            ) matches Some(fp) && forall|i: int|
                0 <= i < self.updates@.len() ==> update_authorized(
                    #[trigger] self.updates@[i],
                    fp,
                )),
            !fp_text_ok(self.key_fingerprint@) ==> r == Err::<(), Error>(
                Error::Unauthorized(Reason::FingerprintNotSha256),
            ),
            fp_text_ok(self.key_fingerprint@) && base64_decode_of(self.key_fingerprint@.skip(7))
                is None ==> r == Err::<(), Error>(Error::Unauthorized(Reason::FingerprintInvalid)),
            fp_text_ok(self.key_fingerprint@) ==> (base64_decode_of(
                self.key_fingerprint@.skip(7),
            ) matches Some(fp) ==> (first_unauthorized(self.updates@, fp) < self.updates@.len()
                ==> (if !ref_ok(self.updates@[first_unauthorized(self.updates@, fp)].refname@) {
                r matches Err(e) && e matches Error::InvalidRefPushed(t) && t@
                    == self.updates@[first_unauthorized(self.updates@, fp)].refname@
            } else {
                r == Err::<(), Error>(Error::Unauthorized(Reason::SignerMismatch))
            }))),
    {
        let mut marker: Vec<u8> = Vec::new();
        marker.push(83);
        marker.push(72);
        marker.push(65);
        marker.push(50);
        marker.push(53);
        marker.push(54);
        marker.push(58);
        proof {
            assert(marker@ =~= sha256_marker());
        }
        if !starts_with(&self.key_fingerprint, &marker) {
            return Err(Error::Unauthorized(Reason::FingerprintNotSha256));
        }
        let payload = copy_range(&self.key_fingerprint, 7, self.key_fingerprint.len());
        proof {
            assert(payload@ =~= self.key_fingerprint@.skip(7));
        }
        let expected = match base64_decode(&payload) {
            Some(v) => v,
            None => {
                return Err(Error::Unauthorized(Reason::FingerprintInvalid));
            },
        };
        let mut i: usize = 0;
        while i < self.updates.len()
            invariant
                i <= self.updates@.len(),
                fp_text_ok(self.key_fingerprint@),
                base64_decode_of(self.key_fingerprint@.skip(7)) == Some(expected@),
                forall|k: int|
                    0 <= k < i ==> update_authorized(#[trigger] self.updates@[k], expected@),
            decreases self.updates@.len() - i,
        {
            match parse_ref(&self.updates[i].refname) {
                Ok((peer_id, _tail)) => {
                    let fp = to_ssh_fingerprint(&peer_id);
                    if !bytes_eq(&fp, &expected) {
                        proof {
                            assert(!update_authorized(self.updates@[i as int], expected@));
                            lemma_first_unauthorized_at(self.updates@, expected@, i as int);
                        }
                        return Err(Error::Unauthorized(Reason::SignerMismatch));
                    }
                },
                Err(e) => {
                    proof {
                        assert(!update_authorized(self.updates@[i as int], expected@));
                        lemma_first_unauthorized_at(self.updates@, expected@, i as int);
                    }
                    return Err(e);
                },
            }
            i = i + 1;
        }
        proof {
            lemma_first_unauthorized_at(self.updates@, expected@, self.updates@.len() as int);
        }
        Ok(())
    }

    /// Run the full authorization: certificate gates, then the
    /// authorized-key gate, then the per-ref identity gate. The push is
    /// admitted exactly when all three pass.
    pub fn authorize(&self) -> (r: Result<(), Error>)
        requires
            self.wf(),
        ensures
            r is Ok <==> Self::certificate_ok(self.env) && Self::key_authorized(self.env)
                && Self::updates_authorized(self.env, self.updates@),
            !Self::certificate_ok(self.env) ==> r == Err::<(), Error>(
                Error::FailedCertificateVerification,
            ),
            Self::certificate_ok(self.env) && !Self::key_authorized(self.env) ==> r == Err::<
                (),
                Error,
            >(Error::Unauthorized(Reason::KeyNotAuthorized)),
            Self::certificate_ok(self.env) && Self::key_authorized(self.env)
                && !Self::updates_authorized(self.env, self.updates@) ==> r is Err,
    {
        match self.verify_certificate() {
            Ok(()) => {},
            Err(e) => {
                return Err(e);
            },
        }
        match self.check_authorized_key() {
            Ok(()) => {},
            Err(e) => {
                return Err(e);
            },
        }
        match self.authorize_ref_updates() {
            Ok(()) => Ok(()),
            Err(e) => Err(e),
        }
    }
}

} // verus!
