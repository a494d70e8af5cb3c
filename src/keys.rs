use crate::codec::{bytes_equal, check_coordinates, copy_range, encode_uncompressed, sec1_uncompressed, valid_coordinates};
use crate::types::{Error, Network};
use vstd::prelude::*;

verus! {

/// A network-tagged P-256 public key, held as the affine coordinates of its
/// point.
#[derive(Clone, Debug)]
pub struct PublicKey {
    pub network: Network,
    pub x: Vec<u8>,
    pub y: Vec<u8>,
}

impl PublicKey {
    /// The coordinates name a point of the curve in canonical form.
    pub open spec fn wf(&self) -> bool {
        valid_coordinates(self.x@, self.y@)
    }

    /// Builds the key whose point has coordinates `(x, y)`.
    pub fn from_coordinates(network: Network, x: &[u8], y: &[u8]) -> (r: Result<PublicKey, Error>)
        ensures
            r is Ok <==> valid_coordinates(x@, y@),
            r matches Ok(k) ==> k.wf() && k.network == network && k.x@ == x@ && k.y@ == y@,
            r matches Err(e) ==> e == Error::PointConversionFailure,
    {
        if check_coordinates(x, y) {
            assert(x@.subrange(0, x@.len() as int) == x@);
            assert(y@.subrange(0, y@.len() as int) == y@);
            Ok(PublicKey { network, x: copy_range(x, 0, x.len()), y: copy_range(y, 0, y.len()) })
        } else {
            Err(Error::PointConversionFailure)
        }
    }

    /// The SEC1 uncompressed encoding of the key's point.
    pub fn to_uncompressed(&self) -> (r: Vec<u8>)
        ensures
            r@ == sec1_uncompressed(self.x@, self.y@),
    {
        encode_uncompressed(self.x.as_slice(), self.y.as_slice())
    }
}

impl PartialEq for PublicKey {
    fn eq(&self, o: &PublicKey) -> (r: bool) {
        self.network == o.network && bytes_equal(self.x.as_slice(), o.x.as_slice())
            && bytes_equal(self.y.as_slice(), o.y.as_slice())
    }
}

impl vstd::std_specs::cmp::PartialEqSpecImpl for PublicKey {
    open spec fn obeys_eq_spec() -> bool {
        true
    }

    open spec fn eq_spec(&self, o: &PublicKey) -> bool {
        self.network == o.network && self.x@ == o.x@ && self.y@ == o.y@
    }
}

/// A fixed-width ECDSA signature, `r || s`.
#[derive(Clone, Debug)]
pub struct Signature {
    pub bytes: Vec<u8>,
}

impl Signature {
    /// The signature's 64 bytes.
    pub fn to_vec(&self) -> (r: Vec<u8>)
        ensures
            r@ == self.bytes@,
    {
        assert(self.bytes@.subrange(0, self.bytes@.len() as int) == self.bytes@);
        copy_range(self.bytes.as_slice(), 0, self.bytes.len())
    }
}

/// The field bytes of an ECDH shared secret.
#[derive(Clone, Debug)]
pub struct SharedSecret {
    pub bytes: Vec<u8>,
}

impl SharedSecret {
    /// The secret's 32 bytes.
    pub fn as_bytes(&self) -> (r: &[u8])
        ensures
            r@ == self.bytes@,
    {
        self.bytes.as_slice()
    }
}

} // verus!
