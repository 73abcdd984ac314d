//! What the caller presents: the relying party's configuration and the
//! assertion to be checked against it.

use vstd::prelude::*;

verus! {

/// An assertion as an authenticator produced it. All three byte strings come
/// from outside and are taken as they are: nothing is assumed of their
/// structure.
#[derive(Debug, Clone)]
pub struct Verification {
    /// The public key: a point of P-256 in SEC1 encoding.
    pub pub_key: Vec<u8>,
    /// The authenticator's own data, signed along with the client data.
    pub authenticator_data: Vec<u8>,
    /// The ECDSA signature in DER encoding.
    pub signature: Vec<u8>,
}

/// The byte strings of a [`Verification`].
pub struct VerificationView {
    pub pub_key: Seq<u8>,
    pub authenticator_data: Seq<u8>,
    pub signature: Seq<u8>,
}

impl View for Verification {
    type V = VerificationView;

    open spec fn view(&self) -> VerificationView {
        VerificationView {
            pub_key: self.pub_key@,
            authenticator_data: self.authenticator_data@,
            signature: self.signature@,
        }
    }
}

/// What the relying party has decided for this ceremony: the origin it
/// expects and whether it expects a cross-origin request.
#[derive(Debug, Clone)]
pub struct RPConfig {
    pub origin: String,
    pub cross_origin: bool,
}

/// The origin as a sequence of characters, and the flag.
pub struct RPConfigView {
    pub origin: Seq<char>,
    pub cross_origin: bool,
}

impl View for RPConfig {
    type V = RPConfigView;

    open spec fn view(&self) -> RPConfigView {
        RPConfigView { origin: self.origin@, cross_origin: self.cross_origin }
    }
}

} // verus!
