use avahi_discovery::fake::FakeAdapter;
use avahi_discovery::service::{DiscoveryListener, ResolveListener, ServiceInfo, ServiceProtocol};

#[derive(Default)]
struct Recorder {
    calls: Vec<String>,
    services: Vec<ServiceInfo>,
}

impl DiscoveryListener for Recorder {
    fn on_service_discovered(&mut self, service: ServiceInfo) {
        self.calls.push("one".to_string());
        self.services.push(service);
    }

    fn on_all_discovered(&mut self) {
        self.calls.push("all".to_string());
    }
}

impl ResolveListener for Recorder {
    fn on_service_resolved(&mut self, service: ServiceInfo) {
        self.calls.push("resolved".to_string());
        self.services.push(service);
    }
}

fn request() -> ServiceInfo {
    ServiceInfo {
        address: None,
        domain: Some("example.org".to_string()),
        host_name: None,
        interface: 7,
        name: Some("printer".to_string()),
        port: 0,
        protocol: ServiceProtocol::IPv6,
        txt: None,
        service_type: Some("_ipp._tcp".to_string()),
    }
}

#[test]
fn fake_discovery_reports_one_service_then_the_end() {
    let adapter = FakeAdapter::new();
    let mut rec = Recorder::default();
    adapter.start_discovery("_http._tcp", &mut rec);
    assert_eq!(rec.calls, vec!["one".to_string(), "all".to_string()]);
    assert_eq!(rec.services.len(), 1);
    let s = &rec.services[0];
    assert_eq!(s.service_type.as_deref(), Some("_http._tcp"));
    assert_eq!(s.domain.as_deref(), Some("local"));
    assert_eq!(s.name.as_deref(), Some("fake"));
    assert_eq!(s.interface, 1);
    assert_eq!(s.port, 0);
    assert_eq!(s.protocol, ServiceProtocol::IPv4);
    assert!(s.address.is_none() && s.host_name.is_none() && s.txt.is_none());
}

#[test]
fn fake_discovery_with_empty_type() {
    let adapter = FakeAdapter::new();
    let notices = adapter.discovery_notices("");
    assert_eq!(notices.len(), 2);
    let mut rec = Recorder::default();
    adapter.start_discovery("", &mut rec);
    assert_eq!(rec.services[0].service_type.as_deref(), Some(""));
}

#[test]
fn fake_resolution_keeps_identity() {
    let adapter = FakeAdapter::new();
    let mut rec = Recorder::default();
    adapter.resolve(request(), &mut rec);
    assert_eq!(rec.calls, vec!["resolved".to_string()]);
    let s = &rec.services[0];
    assert_eq!(s.domain.as_deref(), Some("example.org"));
    assert_eq!(s.interface, 7);
    assert_eq!(s.name.as_deref(), Some("printer"));
    assert_eq!(s.protocol, ServiceProtocol::IPv6);
    assert_eq!(s.service_type.as_deref(), Some("_ipp._tcp"));
    assert_eq!(s.address.as_deref(), Some("192.168.1.1"));
    assert_eq!(s.host_name.as_deref(), Some("fake.local"));
    assert_eq!(s.port, 80);
    assert_eq!(s.txt.as_deref(), Some("\"model=Xserve\""));
}

#[test]
fn fake_host_names() {
    let adapter = FakeAdapter::new();
    assert_eq!(adapter.get_name(), "fake");
    assert_eq!(adapter.get_name_fqdn(), "fake.local");
    assert_eq!(adapter.set_name("kitchen"), "kitchen");
    assert!(adapter.is_valid_name("any name at all"));
    assert_eq!(adapter.get_alternative_name("kitchen"), "kitchen-2");
    adapter.add_name_alias("pantry");
    adapter.stop_discovery();
}
