use avahi_discovery::browse::{drain, BrowseEvent, BrowseSession, BrowserEventKind};
use avahi_discovery::resolve::{
    resolved_service, ResolveError, ResolveEvent, ResolveScope, ResolverEventKind,
};
use avahi_discovery::service::{DiscoveryNotice, ServiceInfo, ServiceProtocol};
use avahi_discovery::wrapper::{
    AvahiServiceDiscoveryManager, AvahiWrapper, InitStep, NativeResource, WrapperError,
};

fn browse_event(kind: BrowserEventKind, name: &str) -> BrowseEvent {
    BrowseEvent {
        kind,
        interface: 2,
        protocol: 1,
        name: Some(name.to_string()),
        service_type: Some("_http._tcp".to_string()),
        domain: Some("local".to_string()),
    }
}

fn names(notices: &[DiscoveryNotice]) -> Vec<String> {
    notices
        .iter()
        .map(|n| match n {
            DiscoveryNotice::Discovered(s) => s.name.clone().unwrap_or_default(),
            DiscoveryNotice::AllDiscovered => "<all>".to_string(),
        })
        .collect()
}

#[test]
fn browse_events_keep_their_order_and_stop_at_all_for_now() {
    let events = vec![
        browse_event(BrowserEventKind::New, "a"),
        browse_event(BrowserEventKind::CacheExhausted, "x"),
        browse_event(BrowserEventKind::New, "b"),
        browse_event(BrowserEventKind::New, "c"),
        browse_event(BrowserEventKind::AllForNow, "x"),
        browse_event(BrowserEventKind::New, "late"),
        browse_event(BrowserEventKind::AllForNow, "x"),
    ];
    let notices = drain("_http._tcp", events);
    assert_eq!(names(&notices), vec!["a", "b", "c", "<all>"]);
}

#[test]
fn discovered_services_are_unresolved() {
    let mut session = BrowseSession::new("_ipp._tcp");
    let n = session.feed(browse_event(BrowserEventKind::New, "printer"));
    match n {
        Some(DiscoveryNotice::Discovered(s)) => {
            assert_eq!(s.service_type.as_deref(), Some("_ipp._tcp"));
            assert_eq!(s.protocol, ServiceProtocol::IPv6);
            assert_eq!(s.interface, 2);
            assert_eq!(s.port, 0);
            assert!(s.address.is_none() && s.host_name.is_none() && s.txt.is_none());
        }
        _ => panic!("expected a discovered service"),
    }
    assert!(session.feed(browse_event(BrowserEventKind::Failure, "x")).is_none());
    assert!(!session.finished);
    assert!(matches!(
        session.feed(browse_event(BrowserEventKind::AllForNow, "x")),
        Some(DiscoveryNotice::AllDiscovered)
    ));
    assert!(session.finished);
    assert!(session.feed(browse_event(BrowserEventKind::New, "y")).is_none());
}

#[test]
fn native_codes_are_read() {
    assert_eq!(BrowserEventKind::from_native(0), BrowserEventKind::New);
    assert_eq!(BrowserEventKind::from_native(3), BrowserEventKind::AllForNow);
    assert_eq!(BrowserEventKind::from_native(9), BrowserEventKind::Unknown);
    assert_eq!(ResolverEventKind::from_native(0), ResolverEventKind::Found);
    assert_eq!(ResolverEventKind::from_native(1), ResolverEventKind::Failure);
    assert_eq!(ServiceProtocol::from_native(0), ServiceProtocol::IPv4);
    assert_eq!(ServiceProtocol::from_native(-1), ServiceProtocol::Unspecified);
    assert_eq!(ServiceProtocol::IPv6.to_native(), 1);
}

fn request() -> ServiceInfo {
    ServiceInfo {
        address: None,
        domain: Some("local".to_string()),
        host_name: None,
        interface: 3,
        name: Some("printer".to_string()),
        port: 0,
        protocol: ServiceProtocol::IPv4,
        txt: None,
        service_type: Some("_ipp._tcp".to_string()),
    }
}

fn found() -> ResolveEvent {
    ResolveEvent {
        kind: ResolverEventKind::Found,
        address: Some("10.0.0.5".to_string()),
        interface: 3,
        port: 631,
        protocol: 0,
        name: Some("printer".to_string()),
        service_type: Some("_ipp._tcp".to_string()),
        domain: Some("local".to_string()),
        host_name: Some("printer.local".to_string()),
        txt: None,
    }
}

#[test]
fn resolution_success_releases_the_resolver() {
    let mut scope = ResolveScope::open(0x1000);
    let (result, release) = scope.finish(&request(), found());
    let s = result.unwrap();
    assert_eq!(s.address.as_deref(), Some("10.0.0.5"));
    assert_eq!(s.host_name.as_deref(), Some("printer.local"));
    assert_eq!(s.port, 631);
    assert_eq!(s.txt, None);
    assert_eq!(release, Some(0x1000));
    assert_eq!(scope.close(), None);
}

#[test]
fn resolution_failure_is_reported_and_releases_the_resolver() {
    let mut scope = ResolveScope::open(0x2000);
    let mut event = found();
    event.kind = ResolverEventKind::Failure;
    let (result, release) = scope.finish(&request(), event);
    match result {
        Err(ResolveError::ResolutionFailed { interface, protocol, name }) => {
            assert_eq!(interface, 3);
            assert_eq!(protocol, ServiceProtocol::IPv4);
            assert_eq!(name.as_deref(), Some("printer"));
        }
        Ok(_) => panic!("a failure event must not resolve"),
    }
    assert_eq!(release, Some(0x2000));
    assert_eq!(scope.close(), None);
}

#[test]
fn incomplete_answer_fails() {
    let mut event = found();
    event.address = None;
    assert!(resolved_service(&request(), event).is_err());
}

#[test]
fn initialization_runs_once() {
    let mut w = AvahiWrapper::new();
    assert_eq!(w.init_step(), InitStep::CreatePoll);
    w.poll_created(11);
    assert_eq!(w.init_step(), InitStep::CreateClient);
    assert_eq!(
        w.client_created(None, -26),
        Err(WrapperError::ClientCreation { code: -26 })
    );
    assert_eq!(w.init_step(), InitStep::CreateClient);
    assert_eq!(w.client_created(Some(22), 0), Ok(()));
    assert_eq!(w.init_step(), InitStep::Ready);
    assert_eq!(AvahiWrapper::poll_started(-1), Err(WrapperError::PollStart));
    assert_eq!(AvahiWrapper::poll_started(0), Ok(()));
}

#[test]
fn stopping_twice_releases_once() {
    let mut m = AvahiServiceDiscoveryManager::new();
    assert_eq!(m.stop_service_discovery(), None);
    m.wrapper.poll_created(1);
    m.wrapper.client_created(Some(2), 0).unwrap();
    let (session, replaced) = m.wrapper.start_browser("_http._tcp", 3);
    assert_eq!(session.service_type, "_http._tcp");
    assert_eq!(replaced, None);
    let (_, replaced) = m.wrapper.start_browser("_http._tcp", 4);
    assert_eq!(replaced, Some(NativeResource::Browser(3)));
    assert_eq!(m.stop_service_discovery(), Some(NativeResource::Browser(4)));
    assert_eq!(m.stop_service_discovery(), None);
}

#[test]
fn resolution_scope_opens_on_a_ready_wrapper() {
    let mut w = AvahiWrapper::new();
    w.poll_created(1);
    w.client_created(Some(2), 0).unwrap();
    let mut scope = w.resolve(0x3000);
    assert_eq!(scope.resolver, Some(0x3000));
    let mut event = found();
    event.kind = ResolverEventKind::Unknown;
    let (result, release) = scope.finish(&request(), event);
    assert!(result.is_err());
    assert_eq!(release, Some(0x3000));
}

#[test]
fn teardown_releases_dependents_first() {
    let mut w = AvahiWrapper::new();
    w.poll_created(1);
    w.client_created(Some(2), 0).unwrap();
    w.start_browser("_http._tcp", 3);
    assert_eq!(
        w.teardown(),
        vec![NativeResource::Browser(3), NativeResource::Client(2), NativeResource::Poll(1)]
    );
    assert_eq!(w.teardown(), vec![]);
}
