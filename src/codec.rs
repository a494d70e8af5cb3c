use p256::elliptic_curve::sec1::ToEncodedPoint;
use sha2::Digest;
use vstd::prelude::*;

verus! {

/// What p256 makes of a SEC1 point encoding: the uncompressed encoding of the
/// decoded point when the bytes name a point of the curve, nothing otherwise.
pub uninterp spec fn p256_uncompressed(b: Seq<u8>) -> Option<Seq<u8>>;

/// The fixed-width bytes of the ECDSA signature that p256 parses from `b`.
pub uninterp spec fn p256_signature(b: Seq<u8>) -> Option<Seq<u8>>;

/// The SHA-256 digest of a message.
pub uninterp spec fn sha256_of(m: Seq<u8>) -> Seq<u8>;

/// Relies on p256::PublicKey::from_sec1_bytes to decode and check a point, and
/// on ToEncodedPoint::to_encoded_point(false) to write that point uncompressed.
#[verifier::external_body]
fn normalize_point(b: &[u8]) -> (r: Option<Vec<u8>>)
    ensures
        r matches Some(v) ==> p256_uncompressed(b@) == Some(v@),
        r is None ==> p256_uncompressed(b@) is None,
{
    match p256::PublicKey::from_sec1_bytes(b) {
        Ok(k) => Some(k.to_encoded_point(false).as_bytes().to_vec()),
        Err(_) => None,
    }
}

/// Relies on TryFrom<&[u8]> for p256::ecdsa::Signature, which takes exactly
/// the 64 bytes r || s, and on Signature::to_vec to write them back.
#[verifier::external_body]
pub(crate) fn parse_signature(b: &[u8]) -> (r: Option<Vec<u8>>)
    ensures
        r matches Some(v) ==> p256_signature(b@) == Some(v@) && b@.len() == 64 && v@.len() == 64,
        r is None ==> p256_signature(b@) is None,
{
    match p256::ecdsa::Signature::try_from(b) {
        Ok(s) => Some(s.to_vec()),
        Err(_) => None,
    }
}

/// Relies on sha2::Sha256::digest, whose output is 32 bytes.
#[verifier::external_body]
pub(crate) fn sha256(m: &[u8]) -> (r: Vec<u8>)
    ensures
        r@ == sha256_of(m@),
        r@.len() == 32,
{
    sha2::Sha256::digest(m).to_vec()
}

/// The SEC1 uncompressed encoding `0x04 || x || y`.
pub open spec fn sec1_uncompressed(x: Seq<u8>, y: Seq<u8>) -> Seq<u8> {
    seq![4u8] + x + y
}

/// The two 32-byte coordinates of an uncompressed SEC1 encoding.
pub open spec fn split_uncompressed(b: Seq<u8>) -> Option<(Seq<u8>, Seq<u8>)> {
    if b.len() == 65 && b[0] == 4 {
        Some((b.subrange(1, 33), b.subrange(33, 65)))
    } else {
        None
    }
}

/// Coordinates of a P-256 point, in the canonical form that p256 writes back
/// unchanged.
pub open spec fn valid_coordinates(x: Seq<u8>, y: Seq<u8>) -> bool {
    &&& x.len() == 32
    &&& y.len() == 32
    &&& p256_uncompressed(sec1_uncompressed(x, y)) == Some(sec1_uncompressed(x, y))
}

/// The affine coordinates of the point that a SEC1 encoding names, if any.
pub open spec fn peer_coordinates(b: Seq<u8>) -> Option<(Seq<u8>, Seq<u8>)> {
    match p256_uncompressed(b) {
        Some(u) => split_uncompressed(u),
        None => None,
    }
}

/// Writes `0x04 || x || y`.
pub fn encode_uncompressed(x: &[u8], y: &[u8]) -> (r: Vec<u8>)
    ensures
        r@ == sec1_uncompressed(x@, y@),
{
    let mut v: Vec<u8> = Vec::new();
    v.push(4u8);
    append(&mut v, x);
    append(&mut v, y);
    v
}

/// Appends every byte of `b` to `v`.
fn append(v: &mut Vec<u8>, b: &[u8])
    ensures
        final(v)@ == old(v)@ + b@,
{
    let ghost start = v@;
    let mut i: usize = 0;
    while i < b.len()
        invariant
            i <= b@.len(),
            v@ == start + b@.subrange(0, i as int),
        decreases b@.len() - i,
    {
        v.push(b[i]);
        i = i + 1;
        assert(b@.subrange(0, i as int) == b@.subrange(0, i - 1) + seq![b@[i - 1]]);
    }
    assert(b@.subrange(0, b@.len() as int) == b@);
}

/// Copies `b[lo..hi]`.
pub fn copy_range(b: &[u8], lo: usize, hi: usize) -> (r: Vec<u8>)
    requires
        lo <= hi <= b@.len(),
    ensures
        r@ == b@.subrange(lo as int, hi as int),
{
    let mut v: Vec<u8> = Vec::new();
    let mut i: usize = lo;
    while i < hi
        invariant
            lo <= i <= hi <= b@.len(),
            v@ == b@.subrange(lo as int, i as int),
        decreases hi - i,
    {
        v.push(b[i]);
        i = i + 1;
        assert(b@.subrange(lo as int, i as int) == b@.subrange(lo as int, i - 1) + seq![b@[i - 1]]);
    }
    v
}

/// Whether two byte strings are equal.
pub fn bytes_equal(a: &[u8], b: &[u8]) -> (r: bool)
    ensures
        r == (a@ == b@),
{
    if a.len() != b.len() {
        return false;
    }
    let mut i: usize = 0;
    while i < a.len()
        invariant
            i <= a@.len() == b@.len(),
            a@.subrange(0, i as int) == b@.subrange(0, i as int),
        decreases a@.len() - i,
    {
        if a[i] != b[i] {
            assert(a@[i as int] != b@[i as int]);
            return false;
        }
        i = i + 1;
        assert(a@.subrange(0, i as int) == a@.subrange(0, i - 1) + seq![a@[i - 1]]);
        assert(b@.subrange(0, i as int) == b@.subrange(0, i - 1) + seq![b@[i - 1]]);
    }
    assert(a@.subrange(0, a@.len() as int) == a@);
    assert(b@.subrange(0, b@.len() as int) == b@);
    true
}

/// Splits an uncompressed SEC1 encoding into its two coordinates.
pub fn split_point(b: &[u8]) -> (r: Option<(Vec<u8>, Vec<u8>)>)
    ensures
        r is Some <==> split_uncompressed(b@) is Some,
        r matches Some((x, y)) ==> split_uncompressed(b@) == Some((x@, y@)),
{
    if b.len() == 65 && b[0] == 4u8 {
        let x = copy_range(b, 1, 33);
        let y = copy_range(b, 33, 65);
        Some((x, y))
    } else {
        None
    }
}

/// Reduces a SEC1 encoding, compressed or not, to the affine coordinates of
/// the point it names.
pub fn point_coordinates(b: &[u8]) -> (r: Option<(Vec<u8>, Vec<u8>)>)
    ensures
        r is Some <==> peer_coordinates(b@) is Some,
        r matches Some((x, y)) ==> peer_coordinates(b@) == Some((x@, y@)),
{
    match normalize_point(b) {
        Some(u) => split_point(u.as_slice()),
        None => None,
    }
}

/// Whether `(x, y)` are the coordinates of a P-256 point, each 32 bytes wide.
pub fn check_coordinates(x: &[u8], y: &[u8]) -> (r: bool)
    ensures
        r == valid_coordinates(x@, y@),
{
    if x.len() != 32 || y.len() != 32 {
        return false;
    }
    let enc = encode_uncompressed(x, y);
    match normalize_point(enc.as_slice()) {
        Some(u) => bytes_equal(u.as_slice(), enc.as_slice()),
        None => false,
    }
}

/// Decoding the encoding of valid coordinates gives them back unchanged.
pub proof fn lemma_point_round_trip(x: Seq<u8>, y: Seq<u8>)
    requires
        valid_coordinates(x, y),
    ensures
        split_uncompressed(sec1_uncompressed(x, y)) == Some((x, y)),
{
    let e = sec1_uncompressed(x, y);
    assert(e.subrange(1, 33) == x);
    assert(e.subrange(33, 65) == y);
}

/// Keys built from different coordinates have different encodings, so two
/// slots that hold different keys never present the same public key.
pub proof fn lemma_distinct_points(x1: Seq<u8>, y1: Seq<u8>, x2: Seq<u8>, y2: Seq<u8>)
    requires
        valid_coordinates(x1, y1),
        valid_coordinates(x2, y2),
        x1 != x2 || y1 != y2,
    ensures
        sec1_uncompressed(x1, y1) != sec1_uncompressed(x2, y2),
{
    lemma_point_round_trip(x1, y1);
    lemma_point_round_trip(x2, y2);
}

} // verus!
