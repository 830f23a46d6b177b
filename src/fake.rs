//! The fallback adapter: the same contract as the native one, with synthetic
//! data and no network access.

use vstd::prelude::*;
use vstd::string::*;
use crate::service::{
    DiscoveryListener, DiscoveryNotice, NoticeView, ResolveListener, ServiceInfo, ServiceProtocol,
    ServiceView, deliver, notices_view,
};

verus! {

/// The domain of every synthetic service.
pub open spec fn local_domain() -> Seq<char> {
    seq!['l', 'o', 'c', 'a', 'l']
}

/// The host name of this machine, as the fallback reports it.
pub open spec fn fake_name() -> Seq<char> {
    seq!['f', 'a', 'k', 'e']
}

/// The fully qualified host name, as the fallback reports it.
pub open spec fn fake_fqdn() -> Seq<char> {
    fake_name() + seq!['.'] + local_domain()
}

/// The address every synthetic resolution reports.
pub open spec fn fake_address() -> Seq<char> {
    seq!['1', '9', '2', '.', '1', '6', '8', '.', '1', '.', '1']
}

/// The text record every synthetic resolution reports.
pub open spec fn fake_txt() -> Seq<char> {
    seq!['"', 'm', 'o', 'd', 'e', 'l', '=', 'X', 's', 'e', 'r', 'v', 'e', '"']
}

/// The port every synthetic resolution reports.
pub const FAKE_PORT: u16 = 80;

/// The interface of the synthetic discovered service.
pub const FAKE_INTERFACE: i32 = 1;

/// The service that fallback discovery reports for a requested type.
pub open spec fn placeholder(t: Seq<char>) -> ServiceView {
    ServiceView {
        address: None,
        domain: Some(local_domain()),
        host_name: None,
        interface: FAKE_INTERFACE,
        name: Some(fake_name()),
        port: 0,
        protocol: ServiceProtocol::IPv4,
        txt: None,
        service_type: Some(t),
    }
}

/// What fallback discovery tells its listener for a requested type.
pub open spec fn fake_discovery(t: Seq<char>) -> Seq<NoticeView> {
    seq![NoticeView::Discovered(placeholder(t)), NoticeView::AllDiscovered]
}

/// What fallback resolution makes of a description.
pub open spec fn fake_resolution(d: ServiceView) -> ServiceView {
    ServiceView {
        address: Some(fake_address()),
        host_name: Some(fake_fqdn()),
        port: FAKE_PORT as u16,
        txt: Some(fake_txt()),
        ..d
    }
}

/// The alternative the fallback suggests for a taken host name.
pub open spec fn alternative_of(h: Seq<char>) -> Seq<char> {
    h + seq!['-', '2']
}

/// An adapter for platforms without a native client.
pub struct FakeAdapter;

impl FakeAdapter {
    pub fn new() -> (r: FakeAdapter) {
        FakeAdapter
    }

    /// The notices of a discovery run for `service_type`: one synthetic service,
    /// then the end of the enumeration.
    pub fn discovery_notices(&self, service_type: &str) -> (r: Vec<DiscoveryNotice>)
        ensures
            notices_view(r@) == fake_discovery(service_type@),
    {
        proof {
            reveal_strlit("local");
            reveal_strlit("fake");
        }
        let domain = String::from_str("local");
        let name = String::from_str("fake");
        assert(domain@ =~= local_domain());
        assert(name@ =~= fake_name());
        let service = ServiceInfo {
            address: None,
            domain: Some(domain),
            host_name: None,
            interface: FAKE_INTERFACE,
            name: Some(name),
            port: 0,
            protocol: ServiceProtocol::IPv4,
            txt: None,
            service_type: Some(String::from_str(service_type)),
        };
        let r = vec![DiscoveryNotice::Discovered(service), DiscoveryNotice::AllDiscovered];
        assert(notices_view(r@) =~= fake_discovery(service_type@));
        r
    }

    /// Runs a discovery for `service_type`, handing its notices to `listener`.
    pub fn start_discovery<L: DiscoveryListener>(&self, service_type: &str, listener: &mut L) {
        let notices = self.discovery_notices(service_type);
        deliver(notices, listener);
    }

    /// The synthetic resolution of `service`: its identity kept, the rest filled in.
    pub fn resolved(&self, service: ServiceInfo) -> (r: ServiceInfo)
        ensures
            r@ == fake_resolution(service@),
    {
        proof {
            reveal_strlit("192.168.1.1");
            reveal_strlit("fake.local");
            reveal_strlit("\"model=Xserve\"");
        }
        let address = String::from_str("192.168.1.1");
        let host_name = String::from_str("fake.local");
        let txt = String::from_str("\"model=Xserve\"");
        assert(address@ =~= fake_address());
        assert(host_name@ =~= fake_fqdn());
        assert(txt@ =~= fake_txt());
        let r = ServiceInfo {
            address: Some(address),
            domain: service.domain,
            host_name: Some(host_name),
            interface: service.interface,
            name: service.name,
            port: FAKE_PORT,
            protocol: service.protocol,
            txt: Some(txt),
            service_type: service.service_type,
        };
        r
    }

    /// Resolves `service` synthetically and hands the result to `listener`.
    pub fn resolve<L: ResolveListener>(&self, service: ServiceInfo, listener: &mut L) {
        let r = self.resolved(service);
        listener.on_service_resolved(r);
    }

    /// There is nothing to stop.
    pub fn stop_discovery(&self) {
    }

    pub fn get_name(&self) -> (r: String)
        ensures
            r@ == fake_name(),
    {
        proof {
            reveal_strlit("fake");
        }
        String::from_str("fake")
    }

    pub fn get_name_fqdn(&self) -> (r: String)
        ensures
            r@ == fake_fqdn(),
    {
        proof {
            reveal_strlit("fake.local");
        }
        let r = String::from_str("fake.local");
        assert(r@ =~= fake_fqdn());
        r
    }

    /// Accepts any name and applies it unchanged.
    pub fn set_name(&self, host_name: &str) -> (r: String)
        ensures
            r@ == host_name@,
    {
        String::from_str(host_name)
    }

    /// Every name is valid here.
    pub fn is_valid_name(&self, host_name: &str) -> (r: bool)
        ensures
            r,
    {
        true
    }

    /// The name with a disambiguating suffix.
    pub fn get_alternative_name(&self, host_name: &str) -> (r: String)
        ensures
            r@ == alternative_of(host_name@),
    {
        proof {
            reveal_strlit("-2");
        }
        let r = String::from_str(host_name).concat("-2");
        assert(r@ =~= alternative_of(host_name@));
        r
    }

    /// Alias requests cannot be honoured here; they are ignored.
    pub fn add_name_alias(&self, host_name: &str) {
    }
}

/// Fallback discovery reports exactly one service, of the requested type and in
/// the local domain, then the end of the enumeration, and nothing after it.
pub proof fn lemma_fake_discovery_once(t: Seq<char>)
    ensures
        fake_discovery(t).len() == 2,
        fake_discovery(t)[0] matches NoticeView::Discovered(s) && s.service_type == Some(t)
            && s.domain == Some(local_domain()) && s.is_unresolved(),
        fake_discovery(t)[1] == NoticeView::AllDiscovered,
        forall|i: int| 0 <= i < 2 ==> (fake_discovery(t)[i] is Discovered <==> i == 0),
{
}

/// Fallback resolution keeps the identity of a description and sets the rest to
/// fixed synthetic values.
pub proof fn lemma_fake_resolution_keeps_identity(d: ServiceView)
    ensures
        fake_resolution(d).domain == d.domain,
        fake_resolution(d).interface == d.interface,
        fake_resolution(d).name == d.name,
        fake_resolution(d).protocol == d.protocol,
        fake_resolution(d).service_type == d.service_type,
        fake_resolution(d).address == Some(fake_address()),
        fake_resolution(d).host_name == Some(fake_fqdn()),
        fake_resolution(d).port == FAKE_PORT,
        fake_resolution(d).txt == Some(fake_txt()),
{
}

} // verus!
