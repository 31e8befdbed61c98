//! HTTP transport: each endpoint is served at the path made of a separator
//! and its name, and a request is handed to the dispatcher by that name.

use vstd::prelude::*;
use vstd::string::StrSliceExecFns;
use vstd::string::StringExecFns;
use crate::protocomm::Protocomm;
use crate::security::CipherOp;

verus! {

/// Settings of the HTTP listener.
#[derive(Debug, Clone, Copy, PartialEq, Eq, Structural)]
pub struct HttpConfiguration {
    pub port: u16,
}

/// The path at which endpoint `name` is served.
pub open spec fn path_of(name: Seq<char>) -> Seq<char> {
    seq!['/'] + name
}

/// The endpoint named by a request path: the path without its leading
/// separator, or nothing when it does not start with one.
pub open spec fn endpoint_of(url: Seq<char>) -> Option<Seq<char>> {
    if url.len() > 0 && url[0] == '/' {
        Some(url.drop_first())
    } else {
        None
    }
}

/// The path at which endpoint `name` is served.
pub fn endpoint_path(name: &str) -> (r: String)
    ensures
        r@ == path_of(name@),
{
    let sep = String::from_str("/");
    proof {
        reveal_strlit("/");
    }
    let r = sep.concat(name);
    assert(r@ =~= path_of(name@));
    r
}

/// The endpoint named by a request path.
pub fn endpoint_from_url(url: &str) -> (r: Option<String>)
    ensures
        r is None <==> endpoint_of(url@) is None,
        r matches Some(n) ==> endpoint_of(url@) == Some(n@),
{
    let n = url.unicode_len();
    if n == 0 {
        return None;
    }
    if url.get_char(0) != '/' {
        return None;
    }
    let rest = url.substring_char(1, n);
    let r = rest.to_owned();
    assert(r@ =~= url@.drop_first());
    Some(r)
}

/// Answers one HTTP request: the path names the endpoint and the body is
/// the payload. A path without its leading separator gets the empty answer.
pub fn http_callback<H, C>(pc: &mut Protocomm<H>, url: &str, body: Vec<u8>, cipher: &C) -> (r: Vec<u8>)
    where
        H: Fn(String, Vec<u8>) -> Vec<u8>,
        C: Fn(CipherOp, Vec<u8>) -> Option<Vec<u8>>,
    requires
        old(pc).wf(),
        forall|o: CipherOp, d: Vec<u8>| cipher.requires((o, d)),
    ensures
        final(pc).wf(),
        endpoint_of(url@) is None ==> r@ == Seq::<u8>::empty() && *final(pc) == *old(pc),
        endpoint_of(url@) matches Some(ep) ==> !old(pc).is_registered(ep) ==> r@ == Seq::<u8>::empty(),
        endpoint_of(url@) matches Some(ep) ==> old(pc).is_version_ep(ep) ==> r@ == old(pc).version_info@,
        endpoint_of(url@) matches Some(ep) ==> old(pc).endpoints@.contains_key(ep) ==> old(pc).app_reply(
            old(pc).endpoints@[ep],
            ep,
            body,
            *cipher,
            r@,
        ),
{
    match endpoint_from_url(url) {
        None => Vec::new(),
        Some(ep) => pc.dispatch(ep.as_str(), body, cipher),
    }
}

/// The HTTP transport of a protocol service: its listener settings and the
/// paths of the endpoints it serves, in the order they were added.
pub struct TransportHttpd {
    pub config: HttpConfiguration,
    pub paths: Vec<String>,
}

impl TransportHttpd {
    /// A transport with the given settings that serves no endpoint yet.
    pub fn new(config: HttpConfiguration) -> (r: Self)
        ensures
            r.config == config,
            r.paths@.len() == 0,
    {
        TransportHttpd { config, paths: Vec::new() }
    }

    /// Serves endpoint `ep_name` at its path, and returns that path.
    pub fn add_endpoint(&mut self, ep_name: &str) -> (r: String)
        ensures
            r@ == path_of(ep_name@),
            final(self).config == old(self).config,
            final(self).paths@.len() == old(self).paths@.len() + 1,
            forall|i: int| 0 <= i < old(self).paths@.len() ==> final(self).paths@[i] == old(self).paths@[i],
            final(self).paths@.last()@ == path_of(ep_name@),
    {
        let path = endpoint_path(ep_name);
        self.paths.push(path.clone());
        path
    }
}

} // verus!
