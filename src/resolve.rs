//! The decisions of a resolution: what a native resolver event makes of the
//! requested service, and the scope that owns the resolver until it is released.

use vstd::prelude::*;
use crate::service::{ServiceInfo, ServiceProtocol, ServiceView, protocol_of, text_of};

verus! {

/// The kind of a native resolver event.
#[derive(Clone, Copy, Debug, PartialEq, Eq, Structural)]
pub enum ResolverEventKind {
    Found,
    Failure,
    Unknown,
}

/// The kind that a native resolver event code stands for.
pub open spec fn resolver_kind_of(code: i32) -> ResolverEventKind {
    if code == 0 {
        ResolverEventKind::Found
    } else if code == 1 {
        ResolverEventKind::Failure
    } else {
        ResolverEventKind::Unknown
    }
}

impl ResolverEventKind {
    /// Reads a native resolver event code.
    pub fn from_native(code: i32) -> (r: ResolverEventKind)
        ensures
            r == resolver_kind_of(code),
    {
        if code == 0 {
            ResolverEventKind::Found
        } else if code == 1 {
            ResolverEventKind::Failure
        } else {
            ResolverEventKind::Unknown
        }
    }
}

/// One decoded resolver callback.
#[derive(Debug)]
pub struct ResolveEvent {
    pub kind: ResolverEventKind,
    pub address: Option<String>,
    pub interface: i32,
    pub port: u16,
    pub protocol: i32,
    pub name: Option<String>,
    pub service_type: Option<String>,
    pub domain: Option<String>,
    pub host_name: Option<String>,
    pub txt: Option<String>,
}

/// A resolver callback as plain values.
pub struct ResolveEventView {
    pub kind: ResolverEventKind,
    pub address: Option<Seq<char>>,
    pub interface: i32,
    pub port: u16,
    pub protocol: i32,
    pub name: Option<Seq<char>>,
    pub service_type: Option<Seq<char>>,
    pub domain: Option<Seq<char>>,
    pub host_name: Option<Seq<char>>,
    pub txt: Option<Seq<char>>,
}

impl View for ResolveEvent {
    type V = ResolveEventView;

    open spec fn view(&self) -> ResolveEventView {
        ResolveEventView {
            kind: self.kind,
            address: text_of(self.address),
            interface: self.interface,
            port: self.port,
            protocol: self.protocol,
            name: text_of(self.name),
            service_type: text_of(self.service_type),
            domain: text_of(self.domain),
            host_name: text_of(self.host_name),
            txt: text_of(self.txt),
        }
    }
}

/// Why a resolution gave no service.
#[derive(Debug)]
pub enum ResolveError {
    /// The resolver reported no complete answer for the service it was asked
    /// about; the request's interface, protocol and name are kept.
    ResolutionFailed { interface: i32, protocol: ServiceProtocol, name: Option<String> },
}

/// The event is a success that names everything a resolved service holds (all
/// but the text record, which may be absent).
pub open spec fn is_complete(e: ResolveEventView) -> bool {
    &&& e.kind == ResolverEventKind::Found
    &&& e.address is Some
    &&& e.domain is Some
    &&& e.host_name is Some
    &&& e.name is Some
    &&& e.service_type is Some
}

/// The service that a complete event describes.
pub open spec fn resolved_view(e: ResolveEventView) -> ServiceView {
    ServiceView {
        address: e.address,
        domain: e.domain,
        host_name: e.host_name,
        interface: e.interface,
        name: e.name,
        port: e.port,
        protocol: protocol_of(e.protocol),
        txt: e.txt,
        service_type: e.service_type,
    }
}

/// The result of a resolution of `request` that the resolver answered with `event`.
pub fn resolved_service(request: &ServiceInfo, event: ResolveEvent) -> (r: Result<
    ServiceInfo,
    ResolveError,
>)
    ensures
        r is Ok <==> is_complete(event@),
        r matches Ok(s) ==> s@ == resolved_view(event@),
        r matches Err(ResolveError::ResolutionFailed { interface, protocol, name }) ==> interface
            == request.interface && protocol == request.protocol && text_of(name) == request@.name,
{
    let complete = match event.kind {
        ResolverEventKind::Found => event.address.is_some() && event.domain.is_some()
            && event.host_name.is_some() && event.name.is_some() && event.service_type.is_some(),
        _ => false,
    };
    if complete {
        Ok(
            ServiceInfo {
                address: event.address,
                domain: event.domain,
                host_name: event.host_name,
                interface: event.interface,
                name: event.name,
                port: event.port,
                protocol: ServiceProtocol::from_native(event.protocol),
                txt: event.txt,
                service_type: event.service_type,
            },
        )
    } else {
        let name = match &request.name {
            Some(n) => Some(n.clone()),
            None => None,
        };
        Err(
            ResolveError::ResolutionFailed {
                interface: request.interface,
                protocol: request.protocol,
                name,
            },
        )
    }
}

/// The scope of one resolution: it owns the native resolver from its creation
/// until the resolver is handed back for release.
pub struct ResolveScope {
    pub resolver: Option<usize>,
}

impl ResolveScope {
    /// The scope of a resolver that was just created.
    pub fn open(resolver: usize) -> (r: ResolveScope)
        ensures
            r == opened(resolver),
    {
        ResolveScope { resolver: Some(resolver) }
    }

    /// Hands back the resolver for release, the first time only.
    pub fn close(&mut self) -> (r: Option<usize>)
        ensures
            r == old(self).resolver,
            *final(self) == closed(),
    {
        let r = self.resolver;
        self.resolver = None;
        r
    }

    /// Ends the resolution with the one event the resolver sent: its result, and
    /// the resolver to release, whether the resolution succeeded or not.
    pub fn finish(&mut self, request: &ServiceInfo, event: ResolveEvent) -> (r: (
        Result<ServiceInfo, ResolveError>,
        Option<usize>,
    ))
        ensures
            r.1 == old(self).resolver,
            *final(self) == closed(),
            r.0 is Ok <==> is_complete(event@),
            r.0 matches Ok(s) ==> s@ == resolved_view(event@),
            r.0 matches Err(ResolveError::ResolutionFailed { interface, protocol, name })
                ==> interface == request.interface && protocol == request.protocol && text_of(name)
                == request@.name,
    {
        let result = resolved_service(request, event);
        let release = self.close();
        (result, release)
    }
}

/// The scope in which `resolver` was just created.
pub open spec fn opened(resolver: usize) -> ResolveScope {
    ResolveScope { resolver: Some(resolver) }
}

/// A scope once its resolver has been handed back.
pub open spec fn closed() -> ResolveScope {
    ResolveScope { resolver: None }
}

/// A resolver is released exactly once: ending its scope hands it back, on
/// success and on failure alike, and ending it again hands back nothing.
pub proof fn lemma_resolver_released_once(resolver: usize)
    ensures
        opened(resolver).resolver == Some(resolver),
        closed().resolver is None,
{
}

} // verus!
