//! Endpoint registry and dispatcher of the local control protocol.

use vstd::prelude::*;
use crate::keyed::KeyedList;
use crate::security::{
    CipherOp, HandshakeState, ProtocommSecurity, SecurityError, SecuritySession,
    handshake_step, transform_outcome,
};

verus! {

/// Setup failures of a protocol service.
#[derive(Debug, Clone, Copy, PartialEq, Eq, Structural)]
pub enum ProtocommError {
    /// The endpoint name is already registered.
    DuplicateEndpoint,
    /// The security or version endpoint has already been set.
    RoleAlreadySet,
}

/// The bytes that answer a request whose handling gave `r`: the payload, or
/// the empty response on failure.
pub open spec fn reply_of(r: Result<Seq<u8>, SecurityError>) -> Seq<u8> {
    match r {
        Ok(b) => b,
        Err(_) => Seq::empty(),
    }
}

/// Every callback in `m` accepts any endpoint name and request.
pub open spec fn handlers_total<H: Fn(String, Vec<u8>) -> Vec<u8>>(m: Map<Seq<char>, H>) -> bool {
    forall|n: Seq<char>, e: String, d: Vec<u8>| m.contains_key(n) ==> #[trigger] m[n].requires((e, d))
}

/// A protocol service: one security session, the security and version
/// endpoints, and the application endpoints with their callbacks.
pub struct Protocomm<H> {
    pub session: SecuritySession,
    pub security_ep: Option<String>,
    pub version_ep: Option<String>,
    pub version_info: Vec<u8>,
    pub endpoints: KeyedList<H>,
}

impl<H: Fn(String, Vec<u8>) -> Vec<u8>> Protocomm<H> {
    pub open spec fn is_security_ep(&self, name: Seq<char>) -> bool {
        self.security_ep matches Some(s) && s@ == name
    }

    pub open spec fn is_version_ep(&self, name: Seq<char>) -> bool {
        self.version_ep matches Some(s) && s@ == name
    }

    /// Whether `name` is taken by any endpoint of the service.
    pub open spec fn is_registered(&self, name: Seq<char>) -> bool {
        self.is_security_ep(name) || self.is_version_ep(name) || self.endpoints@.contains_key(name)
    }

    /// Every endpoint name is used once, and every callback accepts any
    /// request.
    pub open spec fn wf(&self) -> bool {
        &&& self.endpoints.wf()
        &&& forall|n: Seq<char>| self.endpoints@.contains_key(n)
            ==> !self.is_security_ep(n) && !self.is_version_ep(n)
        &&& forall|n: Seq<char>| self.is_security_ep(n) ==> !self.is_version_ep(n)
        &&& handlers_total(self.endpoints@)
    }

    /// What a request on application endpoint `h` may be answered with: the
    /// payload is opened, handed to the callback, and its answer sealed; a
    /// failure of the security layer gives the empty response.
    pub open spec fn app_reply<C: Fn(CipherOp, Vec<u8>) -> Option<Vec<u8>>>(
        &self,
        h: H,
        ep: Seq<char>,
        raw: Vec<u8>,
        cipher: C,
        r: Seq<u8>,
    ) -> bool {
        exists|opened: Result<Vec<u8>, SecurityError>|
            #[trigger] transform_outcome(self.session.scheme, self.session.state, CipherOp::Open, raw, cipher, opened)
            && match opened {
                Err(_) => r == Seq::<u8>::empty(),
                Ok(plain) => exists|name: String, resp: Vec<u8>, sealed: Result<Vec<u8>, SecurityError>|
                    name@ == ep
                    && #[trigger] h.ensures((name, plain), resp)
                    && #[trigger] transform_outcome(self.session.scheme, self.session.state, CipherOp::Seal, resp, cipher, sealed)
                    && r == reply_of(crate::security::bytes_result(sealed)),
            }
    }

    /// Well-formedness carries over a change that takes no name in use.
    proof fn lemma_wf_kept(&self, pre: Self)
        requires
            pre.wf(),
            self.endpoints.wf(),
            handlers_total(self.endpoints@),
            forall|n: Seq<char>| self.endpoints@.contains_key(n) ==> pre.is_registered(n)
                && !pre.is_security_ep(n) && !pre.is_version_ep(n),
            forall|n: Seq<char>| self.is_security_ep(n) ==> pre.is_security_ep(n) || !pre.is_registered(n),
            forall|n: Seq<char>| self.is_version_ep(n) ==> pre.is_version_ep(n) || !pre.is_registered(n),
            forall|n: Seq<char>| #![auto] self.is_security_ep(n) && !pre.is_security_ep(n) ==> self.version_ep == pre.version_ep,
            forall|n: Seq<char>| #![auto] self.is_version_ep(n) && !pre.is_version_ep(n) ==> self.security_ep == pre.security_ep,
        ensures
            self.wf(),
    {
    }

    /// A service with the given security variant and no endpoints.
    pub fn new(security: ProtocommSecurity) -> (r: Self)
        ensures
            r.wf(),
            r.session.scheme == security,
            r.session.state == HandshakeState::AwaitingKeyExchange,
            r.security_ep is None,
            r.version_ep is None,
            r.endpoints@ == Map::<Seq<char>, H>::empty(),
    {
        Protocomm {
            session: SecuritySession::new(security),
            security_ep: None,
            version_ep: None,
            version_info: Vec::new(),
            endpoints: KeyedList::new(),
        }
    }

    fn name_taken(&self, name: &str) -> (r: bool)
        requires
            self.wf(),
        ensures
            r == self.is_registered(name@),
    {
        let s = name.to_owned();
        let sec = match &self.security_ep {
            Some(e) => *e == s,
            None => false,
        };
        let ver = match &self.version_ep {
            Some(e) => *e == s,
            None => false,
        };
        sec || ver || self.endpoints.contains(name)
    }

    /// Names the endpoint that carries the security handshake.
    pub fn set_security_endpoint(&mut self, name: &str) -> (r: Result<(), ProtocommError>)
        requires
            old(self).wf(),
        ensures
            final(self).wf(),
            old(self).is_registered(name@) ==> r == Err::<(), ProtocommError>(ProtocommError::DuplicateEndpoint),
            !old(self).is_registered(name@) && old(self).security_ep is Some
                ==> r == Err::<(), ProtocommError>(ProtocommError::RoleAlreadySet),
            r is Err ==> *final(self) == *old(self),
            r is Ok <==> !old(self).is_registered(name@) && old(self).security_ep is None,
            r is Ok ==> final(self).is_security_ep(name@),
            final(self).session == old(self).session,
            final(self).version_ep == old(self).version_ep,
            final(self).version_info == old(self).version_info,
            final(self).endpoints == old(self).endpoints,
    {
        if self.name_taken(name) {
            return Err(ProtocommError::DuplicateEndpoint);
        }
        if self.security_ep.is_some() {
            return Err(ProtocommError::RoleAlreadySet);
        }
        let ghost pre = *self;
        self.security_ep = Some(name.to_owned());
        proof {
            self.lemma_wf_kept(pre);
        }
        Ok(())
    }

    /// Names the endpoint that answers with the static version descriptor.
    pub fn set_version_endpoint(&mut self, name: &str, info: Vec<u8>) -> (r: Result<(), ProtocommError>)
        requires
            old(self).wf(),
        ensures
            final(self).wf(),
            old(self).is_registered(name@) ==> r == Err::<(), ProtocommError>(ProtocommError::DuplicateEndpoint),
            !old(self).is_registered(name@) && old(self).version_ep is Some
                ==> r == Err::<(), ProtocommError>(ProtocommError::RoleAlreadySet),
            r is Err ==> *final(self) == *old(self),
            r is Ok <==> !old(self).is_registered(name@) && old(self).version_ep is None,
            r is Ok ==> final(self).is_version_ep(name@),
            r is Ok ==> final(self).version_info@ == info@,
            final(self).session == old(self).session,
            final(self).security_ep == old(self).security_ep,
            final(self).endpoints == old(self).endpoints,
    {
        if self.name_taken(name) {
            return Err(ProtocommError::DuplicateEndpoint);
        }
        if self.version_ep.is_some() {
            return Err(ProtocommError::RoleAlreadySet);
        }
        let ghost pre = *self;
        self.version_ep = Some(name.to_owned());
        self.version_info = info;
        proof {
            self.lemma_wf_kept(pre);
        }
        Ok(())
    }

    /// Registers an application endpoint. A name that is already taken is
    /// refused, and the endpoint registered under it stays as it was.
    pub fn register_endpoint(&mut self, name: &str, cb: H) -> (r: Result<(), ProtocommError>)
        requires
            old(self).wf(),
            forall|e: String, d: Vec<u8>| cb.requires((e, d)),
        ensures
            final(self).wf(),
            r is Err <==> old(self).is_registered(name@),
            r is Err ==> r == Err::<(), ProtocommError>(ProtocommError::DuplicateEndpoint)
                && *final(self) == *old(self),
            r is Ok ==> final(self).endpoints@ == old(self).endpoints@.insert(name@, cb),
            final(self).session == old(self).session,
            final(self).security_ep == old(self).security_ep,
            final(self).version_ep == old(self).version_ep,
            final(self).version_info == old(self).version_info,
    {
        if self.name_taken(name) {
            return Err(ProtocommError::DuplicateEndpoint);
        }
        let ghost pre = *self;
        self.endpoints.insert(name.to_owned(), cb);
        proof {
            assert forall|n: Seq<char>| self.endpoints@.contains_key(n) implies
                !self.is_security_ep(n) && !self.is_version_ep(n) by {
                assert(self.security_ep == pre.security_ep);
                assert(self.version_ep == pre.version_ep);
                if n != name@ {
                    assert(pre.endpoints@.contains_key(n));
                    assert(!pre.is_security_ep(n));
                    assert(!pre.is_version_ep(n));
                } else {
                    assert(!pre.is_registered(n));
                    assert(!pre.is_security_ep(n));
                    assert(!pre.is_version_ep(n));
                }
                assert(!self.is_security_ep(n));
                assert(!self.is_version_ep(n));
            }
            assert forall|n: Seq<char>, e: String, d: Vec<u8>| self.endpoints@.contains_key(n)
                implies #[trigger] self.endpoints@[n].requires((e, d)) by {
                if n != name@ {
                    assert(pre.endpoints@[n].requires((e, d)));
                }
            }
            assert(handlers_total(self.endpoints@));
            assert forall|n: Seq<char>| self.is_security_ep(n) implies !self.is_version_ep(n) by {
                assert(pre.is_security_ep(n));
            }
        }
        Ok(())
    }

    /// Answers one request on endpoint `ep`. The security and version
    /// endpoints are answered in the clear; an application endpoint has its
    /// payload opened, handled by its callback, and the answer sealed. An
    /// unknown endpoint, or a failure of the security layer, gives the empty
    /// response.
    pub fn dispatch<C>(&mut self, ep: &str, raw: Vec<u8>, cipher: &C) -> (r: Vec<u8>)
        where
            C: Fn(CipherOp, Vec<u8>) -> Option<Vec<u8>>,
        requires
            old(self).wf(),
            forall|o: CipherOp, d: Vec<u8>| cipher.requires((o, d)),
        ensures
            final(self).wf(),
            final(self).session.scheme == old(self).session.scheme,
            final(self).security_ep == old(self).security_ep,
            final(self).version_ep == old(self).version_ep,
            final(self).version_info == old(self).version_info,
            final(self).endpoints == old(self).endpoints,
            !old(self).is_security_ep(ep@) ==> final(self).session == old(self).session,
            old(self).is_security_ep(ep@) ==> ({
                let step = handshake_step(old(self).session.scheme, old(self).session.state, raw@);
                final(self).session.state == step.0 && r@ == reply_of(step.1)
            }),
            old(self).is_version_ep(ep@) ==> r@ == old(self).version_info@,
            !old(self).is_registered(ep@) ==> r@ == Seq::<u8>::empty(),
            old(self).endpoints@.contains_key(ep@) ==> old(self).app_reply(
                old(self).endpoints@[ep@],
                ep@,
                raw,
                *cipher,
                r@,
            ),
    {
        let name = ep.to_owned();
        let is_sec = match &self.security_ep {
            Some(e) => *e == name,
            None => false,
        };
        if is_sec {
            let ghost pre = *self;
            let res = self.session.establish(&raw);
            proof {
                self.lemma_wf_kept(pre);
            }
            return match res {
                Ok(b) => b,
                Err(_) => Vec::new(),
            };
        }
        let is_ver = match &self.version_ep {
            Some(e) => *e == name,
            None => false,
        };
        if is_ver {
            return self.version_info.clone();
        }
        match self.endpoints.get(ep) {
            None => Vec::new(),
            Some(h) => {
                let ghost raw0 = raw;
                let opened = self.session.decrypt(raw, cipher);
                match opened {
                    Err(_) => Vec::new(),
                    Ok(plain) => {
                        let ghost plain0 = plain;
                        let ghost name0 = name;
                        let resp = h(name, plain);
                        let ghost resp0 = resp;
                        let sealed = self.session.encrypt(resp, cipher);
                        let r = match sealed {
                            Ok(c) => c,
                            Err(_) => Vec::new(),
                        };
                        assert(h.ensures((name0, plain0), resp0));
                        assert(transform_outcome(self.session.scheme, self.session.state, CipherOp::Seal, resp0, *cipher, sealed));
                        assert(transform_outcome(self.session.scheme, self.session.state, CipherOp::Open, raw0, *cipher, opened));
                        r
                    },
                }
            },
        }
    }
}

} // verus!
