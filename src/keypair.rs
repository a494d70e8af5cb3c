use crate::codec::{
    parse_signature, p256_signature, peer_coordinates, point_coordinates, sha256, sha256_of,
    valid_coordinates,
};
use crate::keys::{PublicKey, SharedSecret, Signature};
use crate::types::{Error, KeyTag, KeyType, Network, TeeFault};
use vstd::prelude::*;

verus! {

/// How the hardware key is addressed, and which signing protocol it uses.
#[derive(Clone, Copy, Debug, PartialEq, Eq, Structural)]
pub enum Variant {
    /// The environment holds one key and signs whole messages.
    SingleKey,
    /// A slot-addressed key that signs the SHA-256 digest computed here.
    SlotDigested { slot: u8 },
    /// A slot-addressed key that signs whole messages.
    SlotRaw { slot: u8 },
}

impl Variant {
    /// The slot that addresses the key, if the environment has slots.
    pub open spec fn spec_slot(self) -> Option<u8> {
        match self {
            Variant::SingleKey => None,
            Variant::SlotDigested { slot } => Some(slot),
            Variant::SlotRaw { slot } => Some(slot),
        }
    }

    /// The slot that addresses the key, if the environment has slots.
    pub fn slot(&self) -> (r: Option<u8>)
        ensures
            r == self.spec_slot(),
    {
        match self {
            Variant::SingleKey => None,
            Variant::SlotDigested { slot } => Some(*slot),
            Variant::SlotRaw { slot } => Some(*slot),
        }
    }
}

/// The primitives of a trusted execution environment. Each one either answers
/// with bytes or reports a fault; none reveals a private key.
pub trait Tee {
    /// The raw coordinates `(x, y)` of the public key in `slot`.
    fn public_key(&self, slot: Option<u8>) -> Result<(Vec<u8>, Vec<u8>), TeeFault>;

    /// Signs a whole message with the key in `slot`.
    fn sign_message(&self, slot: Option<u8>, message: &[u8]) -> Result<Vec<u8>, TeeFault>;

    /// Signs a 32-byte digest with the key in `slot`.
    fn sign_digest(&self, slot: u8, digest: &[u8]) -> Result<Vec<u8>, TeeFault>;

    /// The shared secret of the key in `slot` with the point `(x, y)`.
    fn ecdh(&self, slot: Option<u8>, x: &[u8], y: &[u8]) -> Result<Vec<u8>, TeeFault>;
}

/// What a signing operation hands to the environment.
#[derive(Debug)]
#[allow(inconsistent_fields)]
pub enum SignRequest {
    /// The whole message, for a key that digests internally.
    Message { slot: Option<u8>, message: Vec<u8> },
    /// The SHA-256 digest of the message.
    Digest { slot: u8, digest: Vec<u8> },
}

/// The signature that an environment's answer to a signing request yields.
pub open spec fn spec_signature_result(outcome: Result<Seq<u8>, TeeFault>) -> Result<Seq<u8>, Error> {
    match outcome {
        Err(f) => Err(Error::spec_from_fault(f)),
        Ok(b) => match p256_signature(b) {
            Some(s) => Ok(s),
            None => Err(Error::SignatureDecodeFailure),
        },
    }
}

/// The shared secret that an environment's answer to an ECDH request yields.
pub open spec fn spec_secret_result(outcome: Result<Seq<u8>, TeeFault>) -> Result<Seq<u8>, Error> {
    match outcome {
        Ok(b) => if b.len() == 32 {
            Ok(b)
        } else {
            Err(Error::AgreementFailure)
        },
        Err(_) => Err(Error::AgreementFailure),
    }
}

/// A keypair whose private key never leaves the trusted environment.
#[derive(Debug)]
pub struct Keypair {
    pub network: Network,
    pub public_key: PublicKey,
    pub variant: Variant,
}

impl Keypair {
    /// The public key is a valid point tagged with the keypair's network.
    pub open spec fn wf(&self) -> bool {
        self.public_key.wf() && self.public_key.network == self.network
    }

    /// Builds the keypair from the environment's answer to a public-key fetch.
    pub fn from_public_key_outcome(
        variant: Variant,
        network: Network,
        outcome: Result<(Vec<u8>, Vec<u8>), TeeFault>,
    ) -> (r: Result<Keypair, Error>)
        ensures
            outcome matches Err(f) ==> r == Err::<Keypair, Error>(Error::spec_from_fault(f)),
            outcome matches Ok((x, y)) ==> (r is Ok <==> valid_coordinates(x@, y@)),
            outcome matches Ok((x, y)) ==> (r matches Ok(k) ==> k.wf() && k.variant == variant
                && k.network == network && k.public_key.x@ == x@ && k.public_key.y@ == y@),
            outcome matches Ok((x, y)) ==> (r matches Err(e) ==> e == Error::PointConversionFailure),
    {
        match outcome {
            Err(f) => Err(Error::from_fault(f)),
            Ok((x, y)) => match PublicKey::from_coordinates(network, x.as_slice(), y.as_slice()) {
                Ok(public_key) => Ok(Keypair { network, public_key, variant }),
                Err(e) => Err(e),
            },
        }
    }

    /// Asks `tee` for the public key that `variant` addresses and builds the
    /// keypair around it.
    pub fn keypair<T: Tee>(tee: &T, variant: Variant, network: Network) -> (r: Result<Keypair, Error>)
        ensures
            r matches Ok(k) ==> k.wf() && k.variant == variant && k.network == network,
            r matches Err(e) ==> e == Error::HardwareUnavailable || e == Error::InvalidSlot
                || e == Error::PointConversionFailure,
    {
        let outcome = tee.public_key(variant.slot());
        Keypair::from_public_key_outcome(variant, network, outcome)
    }

    /// The network and key family of this keypair.
    pub fn key_tag(&self) -> (r: KeyTag)
        ensures
            r == (KeyTag { network: self.network, key_type: KeyType::EccCompact }),
    {
        KeyTag { network: self.network, key_type: KeyType::EccCompact }
    }

    /// What signing `msg` hands to the environment: the digest of `msg` for a
    /// digesting key, `msg` itself otherwise.
    pub fn sign_request(&self, msg: &[u8]) -> (r: SignRequest)
        ensures
            self.variant matches Variant::SlotDigested { slot } ==> (r matches SignRequest::Digest {
                slot: s,
                digest,
            } && s == slot && digest@ == sha256_of(msg@)),
            !(self.variant is SlotDigested) ==> (r matches SignRequest::Message { slot, message }
                && slot == self.variant.spec_slot() && message@ == msg@),
    {
        match self.variant {
            Variant::SlotDigested { slot } => SignRequest::Digest { slot, digest: sha256(msg) },
            _ => {
                let message = crate::codec::copy_range(msg, 0, msg.len());
                assert(msg@.subrange(0, msg@.len() as int) == msg@);
                SignRequest::Message { slot: self.variant.slot(), message }
            },
        }
    }

    /// The signature that the environment's answer to a signing request
    /// yields.
    pub fn signature_from_outcome(outcome: Result<Vec<u8>, TeeFault>) -> (r: Result<Signature, Error>)
        ensures
            outcome matches Err(f) ==> r == Err::<Signature, Error>(Error::spec_from_fault(f)),
            outcome matches Ok(b) ==> (match spec_signature_result(Ok(b@)) {
                Ok(s) => r matches Ok(sig) && sig.bytes@ == s && s.len() == 64,
                Err(e) => r == Err::<Signature, Error>(e),
            }),
    {
        match outcome {
            Err(f) => Err(Error::from_fault(f)),
            Ok(b) => match parse_signature(b.as_slice()) {
                Some(bytes) => Ok(Signature { bytes }),
                None => Err(Error::SignatureDecodeFailure),
            },
        }
    }

    /// Signs `msg` with the hardware key, by the protocol of the keypair's
    /// variant.
    pub fn sign<T: Tee>(&self, tee: &T, msg: &[u8]) -> (r: Result<Signature, Error>)
        ensures
            r matches Ok(s) ==> s.bytes@.len() == 64 && exists|b: Seq<u8>|
                #[trigger] p256_signature(b) == Some(s.bytes@),
            r matches Err(e) ==> e == Error::HardwareUnavailable || e == Error::InvalidSlot
                || e == Error::SignatureDecodeFailure,
    {
        let outcome = match self.sign_request(msg) {
            SignRequest::Digest { slot, digest } => tee.sign_digest(slot, digest.as_slice()),
            SignRequest::Message { slot, message } => tee.sign_message(slot, message.as_slice()),
        };
        let ghost answer = outcome;
        let r = Keypair::signature_from_outcome(outcome);
        proof {
            if let Ok(b) = answer {
                if r is Ok {
                    assert(p256_signature(b@) == Some(r->Ok_0.bytes@));
                }
            }
        }
        r
    }

    /// The shared secret that the environment's answer to an ECDH request
    /// yields.
    pub fn secret_from_outcome(outcome: Result<Vec<u8>, TeeFault>) -> (r: Result<SharedSecret, Error>)
        ensures
            outcome matches Err(_) ==> r == Err::<SharedSecret, Error>(Error::AgreementFailure),
            outcome matches Ok(b) ==> (match spec_secret_result(Ok(b@)) {
                Ok(s) => r matches Ok(secret) && secret.bytes@ == s,
                Err(e) => r == Err::<SharedSecret, Error>(e),
            }),
    {
        match outcome {
            Err(_) => Err(Error::AgreementFailure),
            Ok(b) => if b.len() == 32 {
                Ok(SharedSecret { bytes: b })
            } else {
                Err(Error::AgreementFailure)
            },
        }
    }

    /// The coordinates that an ECDH with the SEC1-encoded key `peer` hands to
    /// the environment.
    pub fn peer_point(peer: &[u8]) -> (r: Result<(Vec<u8>, Vec<u8>), Error>)
        ensures
            r is Ok <==> peer_coordinates(peer@) is Some,
            r matches Ok((x, y)) ==> peer_coordinates(peer@) == Some((x@, y@)),
            r matches Err(e) ==> e == Error::PointConversionFailure,
    {
        match point_coordinates(peer) {
            Some(p) => Ok(p),
            None => Err(Error::PointConversionFailure),
        }
    }

    /// Derives the shared secret of the hardware key with the SEC1-encoded
    /// public key `peer`.
    pub fn ecdh<T: Tee>(&self, tee: &T, peer: &[u8]) -> (r: Result<SharedSecret, Error>)
        ensures
            (r == Err::<SharedSecret, Error>(Error::PointConversionFailure)) <==> peer_coordinates(
                peer@,
            ) is None,
            r matches Ok(s) ==> s.bytes@.len() == 32,
            r matches Err(e) ==> e == Error::PointConversionFailure || e == Error::AgreementFailure,
    {
        let (x, y) = match Keypair::peer_point(peer) {
            Ok(p) => p,
            Err(e) => return Err(e),
        };
        let outcome = tee.ecdh(self.variant.slot(), x.as_slice(), y.as_slice());
        Keypair::secret_from_outcome(outcome)
    }
}

impl PartialEq for Keypair {
    fn eq(&self, other: &Keypair) -> (r: bool) {
        self.public_key == other.public_key
    }
}

impl vstd::std_specs::cmp::PartialEqSpecImpl for Keypair {
    open spec fn obeys_eq_spec() -> bool {
        true
    }

    open spec fn eq_spec(&self, other: &Keypair) -> bool {
        self.public_key.network == other.public_key.network && self.public_key.x@
            == other.public_key.x@ && self.public_key.y@ == other.public_key.y@
    }
}

} // verus!
