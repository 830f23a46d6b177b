//! The service model shared by every adapter, and the listeners that receive it.

use vstd::prelude::*;

verus! {

/// Native protocol code for IPv4.
pub const PROTO_INET: i32 = 0;

/// Native protocol code for IPv6.
pub const PROTO_INET6: i32 = 1;

/// Native protocol code for "any protocol".
pub const PROTO_UNSPEC: i32 = -1;

/// The address family a service was seen on.
#[derive(Clone, Copy, Debug, PartialEq, Eq, Structural)]
pub enum ServiceProtocol {
    IPv4,
    IPv6,
    Unspecified,
}

/// The protocol that a native protocol code stands for.
pub open spec fn protocol_of(code: i32) -> ServiceProtocol {
    if code == PROTO_INET {
        ServiceProtocol::IPv4
    } else if code == PROTO_INET6 {
        ServiceProtocol::IPv6
    } else {
        ServiceProtocol::Unspecified
    }
}

/// The native code of a protocol.
pub open spec fn code_of(p: ServiceProtocol) -> i32 {
    match p {
        ServiceProtocol::IPv4 => PROTO_INET,
        ServiceProtocol::IPv6 => PROTO_INET6,
        ServiceProtocol::Unspecified => PROTO_UNSPEC,
    }
}

impl ServiceProtocol {
    /// Reads a native protocol code; codes other than IPv4 and IPv6 mean "unspecified".
    pub fn from_native(code: i32) -> (r: ServiceProtocol)
        ensures
            r == protocol_of(code),
    {
        if code == PROTO_INET {
            ServiceProtocol::IPv4
        } else if code == PROTO_INET6 {
            ServiceProtocol::IPv6
        } else {
            ServiceProtocol::Unspecified
        }
    }

    /// The native code of this protocol.
    pub fn to_native(self) -> (r: i32)
        ensures
            r == code_of(self),
            protocol_of(r) == self,
    {
        match self {
            ServiceProtocol::IPv4 => PROTO_INET,
            ServiceProtocol::IPv6 => PROTO_INET6,
            ServiceProtocol::Unspecified => PROTO_UNSPEC,
        }
    }
}

/// The characters of an optional text.
pub open spec fn text_of(t: Option<String>) -> Option<Seq<char>> {
    match t {
        Some(s) => Some(s@),
        None => None,
    }
}

/// One advertised service instance, as discovered or as resolved.
#[derive(Debug)]
pub struct ServiceInfo {
    pub address: Option<String>,
    pub domain: Option<String>,
    pub host_name: Option<String>,
    pub interface: i32,
    pub name: Option<String>,
    pub port: u16,
    pub protocol: ServiceProtocol,
    pub txt: Option<String>,
    pub service_type: Option<String>,
}

/// A service as its fields' characters.
pub struct ServiceView {
    pub address: Option<Seq<char>>,
    pub domain: Option<Seq<char>>,
    pub host_name: Option<Seq<char>>,
    pub interface: i32,
    pub name: Option<Seq<char>>,
    pub port: u16,
    pub protocol: ServiceProtocol,
    pub txt: Option<Seq<char>>,
    pub service_type: Option<Seq<char>>,
}

impl View for ServiceInfo {
    type V = ServiceView;

    open spec fn view(&self) -> ServiceView {
        ServiceView {
            address: text_of(self.address),
            domain: text_of(self.domain),
            host_name: text_of(self.host_name),
            interface: self.interface,
            name: text_of(self.name),
            port: self.port,
            protocol: self.protocol,
            txt: text_of(self.txt),
            service_type: text_of(self.service_type),
        }
    }
}

impl ServiceView {
    /// A description as discovery produces it: nothing that only resolution learns.
    pub open spec fn is_unresolved(self) -> bool {
        &&& self.port == 0
        &&& self.address.is_none()
        &&& self.host_name.is_none()
        &&& self.txt.is_none()
    }
}

/// What a discovery run tells its listener, in order.
#[derive(Debug)]
pub enum DiscoveryNotice {
    /// One service was found.
    Discovered(ServiceInfo),
    /// The initial enumeration is complete.
    AllDiscovered,
}

/// The view of a notice.
pub enum NoticeView {
    Discovered(ServiceView),
    AllDiscovered,
}

impl View for DiscoveryNotice {
    type V = NoticeView;

    open spec fn view(&self) -> NoticeView {
        match self {
            DiscoveryNotice::Discovered(s) => NoticeView::Discovered(s@),
            DiscoveryNotice::AllDiscovered => NoticeView::AllDiscovered,
        }
    }
}

/// The views of a list of notices.
pub open spec fn notices_view(v: Seq<DiscoveryNotice>) -> Seq<NoticeView> {
    v.map_values(|n: DiscoveryNotice| n@)
}

/// Receives the results of a discovery run.
pub trait DiscoveryListener {
    fn on_service_discovered(&mut self, service: ServiceInfo);

    fn on_all_discovered(&mut self);
}

/// Receives the result of a resolution.
pub trait ResolveListener {
    fn on_service_resolved(&mut self, service: ServiceInfo);
}

/// Hands each notice to the listener, in the order given.
pub fn deliver<L: DiscoveryListener>(notices: Vec<DiscoveryNotice>, listener: &mut L) {
    let mut rest = notices;
    while rest.len() > 0
        decreases rest.len(),
    {
        match rest.remove(0) {
            DiscoveryNotice::Discovered(s) => listener.on_service_discovered(s),
            DiscoveryNotice::AllDiscovered => listener.on_all_discovered(),
        }
    }
}

} // verus!
