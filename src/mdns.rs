//! Service announcement records: the host name and the services that the
//! device announces on the local network.

use vstd::prelude::*;
use vstd::string::StringExecFns;

verus! {

/// Port of the multicast DNS responder.
pub const MDNS_PORT: u16 = 5353;

/// Port announced for every service.
pub const SERVICE_PORT: u16 = 8080;

/// The announced form of a service type or protocol name.
pub open spec fn underscored(name: Seq<char>) -> Seq<char> {
    seq!['_'] + name
}

/// One announced service.
pub struct MdnsRecord {
    pub instance_name: String,
    pub service_type: String,
    pub proto: String,
    pub port: u16,
    pub txt: Vec<(String, String)>,
}

/// The announcement state of the device.
pub struct MdnsService {
    pub hostname: Option<String>,
    pub services: Vec<MdnsRecord>,
}

fn underscore(name: &str) -> (r: String)
    ensures
        r@ == underscored(name@),
{
    let p = String::from_str("_");
    proof {
        reveal_strlit("_");
    }
    let r = p.concat(name);
    assert(r@ =~= underscored(name@));
    r
}

impl MdnsService {
    /// Nothing announced yet.
    pub fn mdns_init() -> (r: Self)
        ensures
            r.hostname is None,
            r.services@.len() == 0,
    {
        MdnsService { hostname: None, services: Vec::new() }
    }

    /// Sets the announced host name.
    pub fn mdns_hostname_set(&mut self, hostname: &str)
        ensures
            final(self).hostname matches Some(h) && h@ == hostname@,
            final(self).services == old(self).services,
    {
        self.hostname = Some(hostname.to_owned());
    }

    /// Adds a service: its type and protocol are announced with a leading
    /// underscore, on the service port, with the given text pairs.
    pub fn mdns_service_add(&mut self, instance_name: &str, service_type: &str, proto: &str, txt: &[(&str, &str)])
        ensures
            final(self).hostname == old(self).hostname,
            final(self).services@.len() == old(self).services@.len() + 1,
            forall|i: int| 0 <= i < old(self).services@.len() ==> final(self).services@[i] == old(self).services@[i],
            ({
                let rec = final(self).services@.last();
                &&& rec.instance_name@ == instance_name@
                &&& rec.service_type@ == underscored(service_type@)
                &&& rec.proto@ == underscored(proto@)
                &&& rec.port == SERVICE_PORT
                &&& rec.txt@.len() == txt@.len()
                &&& forall|i: int| 0 <= i < txt@.len() ==> #[trigger] rec.txt@[i].0@ == txt@[i].0@
                    && rec.txt@[i].1@ == txt@[i].1@
            }),
    {
        let mut pairs: Vec<(String, String)> = Vec::new();
        let mut i: usize = 0;
        while i < txt.len()
            invariant
                i <= txt@.len(),
                pairs@.len() == i,
                forall|j: int| 0 <= j < i ==> #[trigger] pairs@[j].0@ == txt@[j].0@ && pairs@[j].1@ == txt@[j].1@,
            decreases txt@.len() - i,
        {
            let (k, v) = txt[i];
            pairs.push((k.to_owned(), v.to_owned()));
            i = i + 1;
        }
        let rec = MdnsRecord {
            instance_name: instance_name.to_owned(),
            service_type: underscore(service_type),
            proto: underscore(proto),
            port: SERVICE_PORT,
            txt: pairs,
        };
        self.services.push(rec);
    }
}

} // verus!
