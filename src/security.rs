//! Security session: the handshake state machine and the payload transform
//! of the negotiated security variant.

use vstd::prelude::*;
use vstd::slice::slice_subrange;

verus! {

/// Tag of the first handshake step, in which the client opens a key exchange.
pub const STEP_KEY_EXCHANGE: u8 = 0;

/// Tag of the second handshake step, in which the client proves possession
/// of the shared secret.
pub const STEP_PROOF: u8 = 1;

/// The security variant of a protocol service, fixed at construction.
#[derive(Debug, Clone)]
pub enum ProtocommSecurity {
    /// Payloads travel in the clear.
    NoSecurity,
    /// A two-step handshake, gated by a proof-of-possession secret when one
    /// is configured, after which payloads are sealed.
    ProofOfPossession(Option<Vec<u8>>),
}

/// Where a session stands in its handshake.
#[derive(Debug, Clone, Copy, PartialEq, Eq, Structural)]
pub enum HandshakeState {
    AwaitingKeyExchange,
    AwaitingProof,
    Established,
}

/// Per-request failures of the security layer.
#[derive(Debug, Clone, Copy, PartialEq, Eq, Structural)]
pub enum SecurityError {
    /// An empty handshake message.
    MalformedMessage,
    /// A handshake step that is not the one expected next.
    OutOfOrderStep,
    /// A proof that does not match the configured secret.
    ProofMismatch,
    /// Traffic before the handshake completed.
    HandshakeIncomplete,
    /// The cipher refused to seal or open a payload.
    AuthenticationFailed,
}

/// What a cipher is asked to do with a payload.
#[derive(Debug, Clone, Copy, PartialEq, Eq, Structural)]
pub enum CipherOp {
    Seal,
    Open,
}

/// Whether `proof` satisfies the configured secret: any proof does when no
/// secret is configured.
pub open spec fn proof_accepted(pop: Option<Vec<u8>>, proof: Seq<u8>) -> bool {
    match pop {
        None => true,
        Some(secret) => proof == secret@,
    }
}

/// One handshake step: the state after `msg` and the reply to it. Any failed
/// step sends the session back to the start of the handshake.
pub open spec fn handshake_step(
    scheme: ProtocommSecurity,
    state: HandshakeState,
    msg: Seq<u8>,
) -> (HandshakeState, Result<Seq<u8>, SecurityError>) {
    match scheme {
        ProtocommSecurity::NoSecurity => (HandshakeState::Established, Ok(Seq::empty())),
        ProtocommSecurity::ProofOfPossession(pop) => {
            if msg.len() == 0 {
                (HandshakeState::AwaitingKeyExchange, Err(SecurityError::MalformedMessage))
            } else if msg[0] == STEP_KEY_EXCHANGE && state == HandshakeState::AwaitingKeyExchange {
                (HandshakeState::AwaitingProof, Ok(seq![STEP_KEY_EXCHANGE]))
            } else if msg[0] == STEP_PROOF && state == HandshakeState::AwaitingProof {
                if proof_accepted(pop, msg.drop_first()) {
                    (HandshakeState::Established, Ok(seq![STEP_PROOF]))
                } else {
                    (HandshakeState::AwaitingKeyExchange, Err(SecurityError::ProofMismatch))
                }
            } else {
                (HandshakeState::AwaitingKeyExchange, Err(SecurityError::OutOfOrderStep))
            }
        },
    }
}

/// A result over bytes, seen through the view of its payload.
pub open spec fn bytes_result(r: Result<Vec<u8>, SecurityError>) -> Result<Seq<u8>, SecurityError> {
    match r {
        Ok(v) => Ok(v@),
        Err(e) => Err(e),
    }
}

/// What a cipher's answer means to the session.
pub open spec fn cipher_result(o: Option<Vec<u8>>) -> Result<Seq<u8>, SecurityError> {
    match o {
        Some(v) => Ok(v@),
        None => Err(SecurityError::AuthenticationFailed),
    }
}

/// The transform of a session that needs no cipher: the identity under
/// `NoSecurity`, nothing under proof of possession.
pub open spec fn clear_transform(scheme: ProtocommSecurity, x: Seq<u8>) -> Option<Seq<u8>> {
    match scheme {
        ProtocommSecurity::NoSecurity => Some(x),
        ProtocommSecurity::ProofOfPossession(_) => None,
    }
}

/// The outcome of sealing or opening `x` in a session, given the cipher's
/// possible answers.
pub open spec fn transform_outcome<C: Fn(CipherOp, Vec<u8>) -> Option<Vec<u8>>>(
    scheme: ProtocommSecurity,
    state: HandshakeState,
    op: CipherOp,
    x: Vec<u8>,
    cipher: C,
    r: Result<Vec<u8>, SecurityError>,
) -> bool {
    match scheme {
        ProtocommSecurity::NoSecurity => bytes_result(r) == Ok::<Seq<u8>, SecurityError>(x@),
        ProtocommSecurity::ProofOfPossession(_) => {
            if state != HandshakeState::Established {
                r == Err::<Vec<u8>, SecurityError>(SecurityError::HandshakeIncomplete)
            } else {
                exists|o: Option<Vec<u8>>|
                    #[trigger] cipher.ensures((op, x), o) && bytes_result(r) == cipher_result(o)
            }
        },
    }
}

fn bytes_eq(a: &[u8], b: &[u8]) -> (r: bool)
    ensures
        r == (a@ == b@),
{
    if a.len() != b.len() {
        return false;
    }
    let mut i: usize = 0;
    while i < a.len()
        invariant
            a@.len() == b@.len(),
            i <= a@.len(),
            forall|j: int| 0 <= j < i ==> a@[j] == b@[j],
        decreases a@.len() - i,
    {
        if a[i] != b[i] {
            return false;
        }
        i = i + 1;
    }
    assert(a@ =~= b@);
    true
}

fn proof_matches(pop: &Option<Vec<u8>>, msg: &Vec<u8>) -> (r: bool)
    requires
        msg@.len() >= 1,
    ensures
        r == proof_accepted(*pop, msg@.drop_first()),
{
    match pop {
        None => true,
        Some(secret) => {
            let proof = slice_subrange(msg.as_slice(), 1, msg.len());
            assert(proof@ =~= msg@.drop_first());
            bytes_eq(proof, secret.as_slice())
        },
    }
}

/// The security session of one protocol service.
pub struct SecuritySession {
    pub scheme: ProtocommSecurity,
    pub state: HandshakeState,
}

impl SecuritySession {
    /// A session of the given variant, at the start of its handshake.
    pub fn new(scheme: ProtocommSecurity) -> (r: Self)
        ensures
            r.scheme == scheme,
            r.state == HandshakeState::AwaitingKeyExchange,
    {
        SecuritySession { scheme, state: HandshakeState::AwaitingKeyExchange }
    }

    pub fn is_established(&self) -> (r: bool)
        ensures
            r == (self.state == HandshakeState::Established),
    {
        self.state == HandshakeState::Established
    }

    /// Drives one step of the handshake with the client's message.
    pub fn establish(&mut self, msg: &Vec<u8>) -> (r: Result<Vec<u8>, SecurityError>)
        ensures
            final(self).scheme == old(self).scheme,
            (final(self).state, bytes_result(r)) == handshake_step(old(self).scheme, old(self).state, msg@),
    {
        match &self.scheme {
            ProtocommSecurity::NoSecurity => {
                self.state = HandshakeState::Established;
                Ok(Vec::new())
            },
            ProtocommSecurity::ProofOfPossession(pop) => {
                if msg.len() == 0 {
                    self.state = HandshakeState::AwaitingKeyExchange;
                    Err(SecurityError::MalformedMessage)
                } else if msg[0] == STEP_KEY_EXCHANGE && self.state == HandshakeState::AwaitingKeyExchange {
                    self.state = HandshakeState::AwaitingProof;
                    let r = vec![STEP_KEY_EXCHANGE];
                    assert(r@ =~= seq![STEP_KEY_EXCHANGE]);
                    Ok(r)
                } else if msg[0] == STEP_PROOF && self.state == HandshakeState::AwaitingProof {
                    if proof_matches(pop, msg) {
                        self.state = HandshakeState::Established;
                        let r = vec![STEP_PROOF];
                        assert(r@ =~= seq![STEP_PROOF]);
                        Ok(r)
                    } else {
                        self.state = HandshakeState::AwaitingKeyExchange;
                        Err(SecurityError::ProofMismatch)
                    }
                } else {
                    self.state = HandshakeState::AwaitingKeyExchange;
                    Err(SecurityError::OutOfOrderStep)
                }
            },
        }
    }

    fn transform<C>(&self, op: CipherOp, x: Vec<u8>, cipher: &C) -> (r: Result<Vec<u8>, SecurityError>)
        where
            C: Fn(CipherOp, Vec<u8>) -> Option<Vec<u8>>,
        requires
            forall|o: CipherOp, d: Vec<u8>| cipher.requires((o, d)),
        ensures
            transform_outcome(self.scheme, self.state, op, x, *cipher, r),
    {
        match &self.scheme {
            ProtocommSecurity::NoSecurity => Ok(x),
            ProtocommSecurity::ProofOfPossession(_) => {
                if self.state != HandshakeState::Established {
                    Err(SecurityError::HandshakeIncomplete)
                } else {
                    let ghost xx = x;
                    let o = cipher(op, x);
                    let r = match o {
                        Some(v) => Ok(v),
                        None => Err(SecurityError::AuthenticationFailed),
                    };
                    assert(cipher.ensures((op, xx), o) && bytes_result(r) == cipher_result(o));
                    r
                }
            },
        }
    }

    /// Seals an outgoing payload: the identity under `NoSecurity`; under proof
    /// of possession, the cipher's work once the handshake has completed.
    pub fn encrypt<C>(&self, x: Vec<u8>, cipher: &C) -> (r: Result<Vec<u8>, SecurityError>)
        where
            C: Fn(CipherOp, Vec<u8>) -> Option<Vec<u8>>,
        requires
            forall|o: CipherOp, d: Vec<u8>| cipher.requires((o, d)),
        ensures
            transform_outcome(self.scheme, self.state, CipherOp::Seal, x, *cipher, r),
    {
        self.transform(CipherOp::Seal, x, cipher)
    }

    /// Opens an incoming payload: the identity under `NoSecurity`; under proof
    /// of possession, the cipher's work once the handshake has completed.
    pub fn decrypt<C>(&self, x: Vec<u8>, cipher: &C) -> (r: Result<Vec<u8>, SecurityError>)
        where
            C: Fn(CipherOp, Vec<u8>) -> Option<Vec<u8>>,
        requires
            forall|o: CipherOp, d: Vec<u8>| cipher.requires((o, d)),
        ensures
            transform_outcome(self.scheme, self.state, CipherOp::Open, x, *cipher, r),
    {
        self.transform(CipherOp::Open, x, cipher)
    }
}

/// Without security, opening what was sealed gives back the original bytes,
/// the empty sequence included, and neither step can fail.
pub proof fn law_no_security_roundtrip<C: Fn(CipherOp, Vec<u8>) -> Option<Vec<u8>>>(
    state: HandshakeState,
    x: Vec<u8>,
    sealed: Result<Vec<u8>, SecurityError>,
    opened: Result<Vec<u8>, SecurityError>,
    cipher: C,
)
    requires
        transform_outcome(ProtocommSecurity::NoSecurity, state, CipherOp::Seal, x, cipher, sealed),
        sealed is Ok ==> transform_outcome(
            ProtocommSecurity::NoSecurity,
            state,
            CipherOp::Open,
            sealed->Ok_0,
            cipher,
            opened,
        ),
    ensures
        sealed is Ok,
        opened is Ok,
        opened->Ok_0@ == x@,
        clear_transform(ProtocommSecurity::NoSecurity, x@) == Some(x@),
{
}

} // verus!
