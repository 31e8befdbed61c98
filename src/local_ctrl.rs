//! Local control service: a protocol service with the session, version and
//! control endpoints, served over HTTP.

use vstd::prelude::*;
use vstd::string::StrSliceExecFns;
use vstd::utf8::encode_utf8;
use crate::httpd::{HttpConfiguration, TransportHttpd, path_of};
use crate::protocomm::Protocomm;
use crate::security::{HandshakeState, ProtocommSecurity};

verus! {

/// Version of the local control protocol.
pub const LOCAL_CTRL_VER: &'static str = "v1.1";

/// Capability: the device can scan for Wi-Fi networks.
pub const CAP_LOCAL_CTRL: &'static str = "wifi_scan";

/// Capability: traffic is not secured.
pub const CAP_NO_SEC: &'static str = "no_sec";

/// Capability: the handshake asks for no proof of possession.
pub const CAP_NO_POP: &'static str = "no_pop";

/// Endpoint of the security handshake.
pub const SESSION_ENDPOINT: &'static str = "esp_local_ctrl/session";

/// Endpoint of the version descriptor.
pub const VERSION_ENDPOINT: &'static str = "esp_local_ctrl/version";

/// Endpoint of the control commands.
pub const CONTROL_ENDPOINT: &'static str = "esp_local_ctrl/control";

/// Port of the HTTP listener.
pub const LOCAL_CTRL_PORT: u16 = 8080;

/// The JSON text of a string: quoted and escaped.
pub uninterp spec fn json_string_of(s: Seq<char>) -> Seq<char>;

/// Relies on serde_json::to_string on a `str`: the string as JSON text.
/// Writing into memory cannot fail, so the error arm is never taken.
#[verifier::external_body]
fn json_quote(s: &str) -> (r: String)
    ensures
        r@ == json_string_of(s@),
{
    match serde_json::to_string(s) {
        Ok(t) => t,
        Err(_) => String::new(),
    }
}

/// How the local control service is reached.
#[derive(Debug, Clone, Copy, PartialEq, Eq, Structural)]
pub enum LocalCtrlScheme {
    SoftAP,
}

impl Default for LocalCtrlScheme {
    fn default() -> (r: Self)
        ensures
            r == LocalCtrlScheme::SoftAP,
    {
        LocalCtrlScheme::SoftAP
    }
}

/// Settings of the local control service.
pub struct LocalCtrlConfig {
    pub device_name: String,
    pub scheme: LocalCtrlScheme,
    pub security: ProtocommSecurity,
}

impl Default for LocalCtrlConfig {
    fn default() -> (r: Self)
        ensures
            r.device_name@ == Seq::<char>::empty(),
            r.scheme == LocalCtrlScheme::SoftAP,
            r.security == ProtocommSecurity::NoSecurity,
    {
        LocalCtrlConfig {
            device_name: String::new(),
            scheme: LocalCtrlScheme::SoftAP,
            security: ProtocommSecurity::NoSecurity,
        }
    }
}

/// The capabilities that a service with security `sec` announces.
pub open spec fn capabilities(sec: ProtocommSecurity) -> Seq<Seq<char>> {
    match sec {
        ProtocommSecurity::NoSecurity => seq![CAP_LOCAL_CTRL@, CAP_NO_SEC@],
        ProtocommSecurity::ProofOfPossession(None) => seq![CAP_LOCAL_CTRL@, CAP_NO_POP@],
        ProtocommSecurity::ProofOfPossession(Some(_)) => seq![CAP_LOCAL_CTRL@],
    }
}

/// The JSON array elements of a list of strings, comma-separated.
pub open spec fn json_list(items: Seq<Seq<char>>) -> Seq<char>
    decreases items.len(),
{
    if items.len() == 0 {
        Seq::empty()
    } else if items.len() == 1 {
        json_string_of(items[0])
    } else {
        json_list(items.drop_last()) + ","@ + json_string_of(items.last())
    }
}

/// The security version digit: 0 without security, 1 with proof of
/// possession.
pub open spec fn sec_ver_text(sec: ProtocommSecurity) -> Seq<char> {
    match sec {
        ProtocommSecurity::NoSecurity => "0"@,
        ProtocommSecurity::ProofOfPossession(_) => "1"@,
    }
}

/// The version descriptor as JSON text, its keys in sorted order.
pub open spec fn version_json(sec: ProtocommSecurity) -> Seq<char> {
    "{\"local_ctrl\":{\"cap\":["@ + json_list(capabilities(sec)) + "],\"sec_ver\":"@
        + sec_ver_text(sec) + ",\"ver\":"@ + json_string_of(LOCAL_CTRL_VER@) + "}}"@
}

fn capability_list(sec: &ProtocommSecurity) -> (r: Vec<&'static str>)
    ensures
        r@.map_values(|s: &str| s@) == capabilities(*sec),
{
    let mut caps: Vec<&'static str> = Vec::new();
    caps.push(CAP_LOCAL_CTRL);
    match sec {
        ProtocommSecurity::NoSecurity => caps.push(CAP_NO_SEC),
        ProtocommSecurity::ProofOfPossession(pop) => {
            if pop.is_none() {
                caps.push(CAP_NO_POP);
            }
        },
    }
    assert(caps@.map_values(|s: &str| s@) =~= capabilities(*sec));
    caps
}

/// The version descriptor announced by a service with security `sec`: the
/// protocol version, the security version, and the capabilities.
pub fn get_version_info(sec: &ProtocommSecurity) -> (r: String)
    ensures
        r@ == version_json(*sec),
{
    let caps = capability_list(sec);
    let ghost items = caps@.map_values(|s: &str| s@);
    let mut list = String::new();
    let mut i: usize = 0;
    while i < caps.len()
        invariant
            i <= caps@.len(),
            items == caps@.map_values(|s: &str| s@),
            list@ == json_list(items.subrange(0, i as int)),
        decreases caps@.len() - i,
    {
        let ghost before = list@;
        if i > 0 {
            list.append(",");
        }
        let q = json_quote(caps[i]);
        list.append(q.as_str());
        proof {
            let sub = items.subrange(0, i as int + 1);
            assert(sub.drop_last() =~= items.subrange(0, i as int));
            assert(sub.last() == caps@[i as int]@);
            if i == 0 {
                assert(before =~= Seq::<char>::empty());
                assert(list@ =~= json_list(sub));
            } else {
                assert(list@ =~= json_list(sub));
            }
        }
        i = i + 1;
    }
    assert(items.subrange(0, caps@.len() as int) =~= items);
    let mut r = String::from_str("{\"local_ctrl\":{\"cap\":[");
    r.append(list.as_str());
    r.append("],\"sec_ver\":");
    match sec {
        ProtocommSecurity::NoSecurity => r.append("0"),
        ProtocommSecurity::ProofOfPossession(_) => r.append("1"),
    }
    r.append(",\"ver\":");
    let v = json_quote(LOCAL_CTRL_VER);
    r.append(v.as_str());
    r.append("}}");
    assert(r@ =~= version_json(*sec));
    r
}

/// The local control service.
pub struct LocalCtrlService<H> {
    pub protocom: Protocomm<H>,
    pub transport: TransportHttpd,
}

impl<H: Fn(String, Vec<u8>) -> Vec<u8>> LocalCtrlService<H> {
    /// A service with the security of `config`: the session endpoint carries
    /// the handshake, the version endpoint the descriptor of that security,
    /// and the control endpoint goes to `control`. Each is served at its path
    /// on the local control port.
    pub fn new(config: LocalCtrlConfig, control: H) -> (r: Self)
        requires
            forall|e: String, d: Vec<u8>| control.requires((e, d)),
        ensures
            r.protocom.wf(),
            r.protocom.session.scheme == config.security,
            r.protocom.session.state == HandshakeState::AwaitingKeyExchange,
            r.protocom.is_security_ep(SESSION_ENDPOINT@),
            r.protocom.is_version_ep(VERSION_ENDPOINT@),
            r.protocom.version_info@ == encode_utf8(version_json(config.security)),
            r.protocom.endpoints@ == Map::<Seq<char>, H>::empty().insert(CONTROL_ENDPOINT@, control),
            r.transport.config == (HttpConfiguration { port: LOCAL_CTRL_PORT }),
            r.transport.paths@.map_values(|p: String| p@) == seq![
                path_of(SESSION_ENDPOINT@),
                path_of(VERSION_ENDPOINT@),
                path_of(CONTROL_ENDPOINT@),
            ],
    {
        let version_info = get_version_info(&config.security);
        let mut svc = LocalCtrlService {
            protocom: Protocomm::new(config.security),
            transport: TransportHttpd::new(HttpConfiguration { port: LOCAL_CTRL_PORT }),
        };
        svc.init(version_info, control);
        svc
    }

    /// Registers the three endpoints on a service that has none.
    pub fn init(&mut self, version_info: String, control: H)
        requires
            old(self).protocom.wf(),
            old(self).protocom.security_ep is None,
            old(self).protocom.version_ep is None,
            old(self).protocom.endpoints@ == Map::<Seq<char>, H>::empty(),
            old(self).transport.paths@.len() == 0,
            forall|e: String, d: Vec<u8>| control.requires((e, d)),
        ensures
            final(self).protocom.wf(),
            final(self).protocom.session == old(self).protocom.session,
            final(self).protocom.is_security_ep(SESSION_ENDPOINT@),
            final(self).protocom.is_version_ep(VERSION_ENDPOINT@),
            final(self).protocom.version_info@ == encode_utf8(version_info@),
            final(self).protocom.endpoints@ == Map::<Seq<char>, H>::empty().insert(CONTROL_ENDPOINT@, control),
            final(self).transport.config == old(self).transport.config,
            final(self).transport.paths@.map_values(|p: String| p@) == seq![
                path_of(SESSION_ENDPOINT@),
                path_of(VERSION_ENDPOINT@),
                path_of(CONTROL_ENDPOINT@),
            ],
    {
        self.register_listeners(version_info, control);
    }

    /// Registers the session, version and control endpoints with the
    /// protocol service and the transport.
    pub fn register_listeners(&mut self, version_info: String, control: H)
        requires
            old(self).protocom.wf(),
            old(self).protocom.security_ep is None,
            old(self).protocom.version_ep is None,
            old(self).protocom.endpoints@ == Map::<Seq<char>, H>::empty(),
            old(self).transport.paths@.len() == 0,
            forall|e: String, d: Vec<u8>| control.requires((e, d)),
        ensures
            final(self).protocom.wf(),
            final(self).protocom.session == old(self).protocom.session,
            final(self).protocom.is_security_ep(SESSION_ENDPOINT@),
            final(self).protocom.is_version_ep(VERSION_ENDPOINT@),
            final(self).protocom.version_info@ == encode_utf8(version_info@),
            final(self).protocom.endpoints@ == Map::<Seq<char>, H>::empty().insert(CONTROL_ENDPOINT@, control),
            final(self).transport.config == old(self).transport.config,
            final(self).transport.paths@.map_values(|p: String| p@) == seq![
                path_of(SESSION_ENDPOINT@),
                path_of(VERSION_ENDPOINT@),
                path_of(CONTROL_ENDPOINT@),
            ],
    {
        proof {
            reveal_strlit("esp_local_ctrl/session");
            reveal_strlit("esp_local_ctrl/version");
            reveal_strlit("esp_local_ctrl/control");
            assert(SESSION_ENDPOINT@[15] != VERSION_ENDPOINT@[15]);
            assert(SESSION_ENDPOINT@[15] != CONTROL_ENDPOINT@[15]);
            assert(VERSION_ENDPOINT@[15] != CONTROL_ENDPOINT@[15]);
        }
        let bytes = version_info.as_str().as_bytes_vec();
        let r1 = self.protocom.set_security_endpoint(SESSION_ENDPOINT);
        assert(r1 is Ok);
        let r2 = self.protocom.set_version_endpoint(VERSION_ENDPOINT, bytes);
        assert(r2 is Ok);
        let r3 = self.protocom.register_endpoint(CONTROL_ENDPOINT, control);
        assert(r3 is Ok);
        self.transport.add_endpoint(SESSION_ENDPOINT);
        self.transport.add_endpoint(VERSION_ENDPOINT);
        self.transport.add_endpoint(CONTROL_ENDPOINT);
        assert(self.transport.paths@.map_values(|p: String| p@) =~= seq![
            path_of(SESSION_ENDPOINT@),
            path_of(VERSION_ENDPOINT@),
            path_of(CONTROL_ENDPOINT@),
        ]);
    }
}

} // verus!
