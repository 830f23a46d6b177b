//! The decisions of a browsing run: which native events reach the listener, as
//! what, and when the run ends.

use vstd::prelude::*;
use crate::service::{
    DiscoveryNotice, NoticeView, ServiceInfo, ServiceView, notices_view, protocol_of, text_of,
};

verus! {

/// The kind of a native browser event.
#[derive(Clone, Copy, Debug, PartialEq, Eq, Structural)]
pub enum BrowserEventKind {
    New,
    Remove,
    CacheExhausted,
    AllForNow,
    Failure,
    Unknown,
}

/// The kind that a native browser event code stands for.
pub open spec fn browser_kind_of(code: i32) -> BrowserEventKind {
    if code == 0 {
        BrowserEventKind::New
    } else if code == 1 {
        BrowserEventKind::Remove
    } else if code == 2 {
        BrowserEventKind::CacheExhausted
    } else if code == 3 {
        BrowserEventKind::AllForNow
    } else if code == 4 {
        BrowserEventKind::Failure
    } else {
        BrowserEventKind::Unknown
    }
}

impl BrowserEventKind {
    /// Reads a native browser event code.
    pub fn from_native(code: i32) -> (r: BrowserEventKind)
        ensures
            r == browser_kind_of(code),
    {
        if code == 0 {
            BrowserEventKind::New
        } else if code == 1 {
            BrowserEventKind::Remove
        } else if code == 2 {
            BrowserEventKind::CacheExhausted
        } else if code == 3 {
            BrowserEventKind::AllForNow
        } else if code == 4 {
            BrowserEventKind::Failure
        } else {
            BrowserEventKind::Unknown
        }
    }
}

/// One decoded browser callback.
#[derive(Debug)]
pub struct BrowseEvent {
    pub kind: BrowserEventKind,
    pub interface: i32,
    pub protocol: i32,
    pub name: Option<String>,
    pub service_type: Option<String>,
    pub domain: Option<String>,
}

/// A browser callback as plain values.
pub struct BrowseEventView {
    pub kind: BrowserEventKind,
    pub interface: i32,
    pub protocol: i32,
    pub name: Option<Seq<char>>,
    pub service_type: Option<Seq<char>>,
    pub domain: Option<Seq<char>>,
}

impl View for BrowseEvent {
    type V = BrowseEventView;

    open spec fn view(&self) -> BrowseEventView {
        BrowseEventView {
            kind: self.kind,
            interface: self.interface,
            protocol: self.protocol,
            name: text_of(self.name),
            service_type: text_of(self.service_type),
            domain: text_of(self.domain),
        }
    }
}

/// The description that a "new service" event gives, for the requested type `t`.
pub open spec fn discovered(t: Seq<char>, e: BrowseEventView) -> ServiceView {
    ServiceView {
        address: None,
        domain: e.domain,
        host_name: None,
        interface: e.interface,
        name: e.name,
        port: 0,
        protocol: protocol_of(e.protocol),
        txt: None,
        service_type: Some(t),
    }
}

/// What one event tells the listener of a run that has not ended.
pub open spec fn step_notices(t: Seq<char>, e: BrowseEventView) -> Seq<NoticeView> {
    match e.kind {
        BrowserEventKind::New => seq![NoticeView::Discovered(discovered(t, e))],
        BrowserEventKind::AllForNow => seq![NoticeView::AllDiscovered],
        _ => Seq::empty(),
    }
}

/// Some event of `events` ends the run.
pub open spec fn ends_run(events: Seq<BrowseEventView>) -> bool {
    exists|i: int| 0 <= i < events.len() && events[i].kind == BrowserEventKind::AllForNow
}

/// What a run for type `t` tells its listener when fed `events` in order.
pub open spec fn browse_notices(t: Seq<char>, events: Seq<BrowseEventView>) -> Seq<NoticeView>
    decreases events.len(),
{
    if events.len() == 0 {
        Seq::empty()
    } else if ends_run(events.drop_last()) {
        browse_notices(t, events.drop_last())
    } else {
        browse_notices(t, events.drop_last()) + step_notices(t, events.last())
    }
}

/// The views of a list of events.
pub open spec fn events_view(v: Seq<BrowseEvent>) -> Seq<BrowseEventView> {
    v.map_values(|e: BrowseEvent| e@)
}

/// A browsing run in progress, for one requested service type.
pub struct BrowseSession {
    pub service_type: String,
    pub finished: bool,
}

impl BrowseSession {
    /// A run for `service_type` that has not ended.
    pub fn new(service_type: &str) -> (r: BrowseSession)
        ensures
            r.service_type@ == service_type@,
            !r.finished,
    {
        BrowseSession { service_type: service_type.to_owned(), finished: false }
    }

    /// Takes one event. A "new service" event gives its description, unresolved;
    /// "all for now" gives the end of the enumeration and ends the run; any other
    /// event, and every event after the end, gives nothing.
    pub fn feed(&mut self, event: BrowseEvent) -> (r: Option<DiscoveryNotice>)
        ensures
            final(self).service_type == old(self).service_type,
            final(self).finished == (old(self).finished || event.kind
                == BrowserEventKind::AllForNow),
            old(self).finished ==> r is None,
            r matches Some(DiscoveryNotice::Discovered(s)) ==> s@.is_unresolved(),
            !old(self).finished ==> match r {
                Some(n) => seq![n@] == step_notices(old(self).service_type@, event@),
                None => step_notices(old(self).service_type@, event@).len() == 0,
            },
    {
        if self.finished {
            return None;
        }
        match event.kind {
            BrowserEventKind::New => {
                let service = ServiceInfo {
                    address: None,
                    domain: event.domain,
                    host_name: None,
                    interface: event.interface,
                    name: event.name,
                    port: 0,
                    protocol: crate::service::ServiceProtocol::from_native(event.protocol),
                    txt: None,
                    service_type: Some(self.service_type.clone()),
                };
                let r = DiscoveryNotice::Discovered(service);
                assert(seq![r@] =~= step_notices(self.service_type@, event@));
                Some(r)
            },
            BrowserEventKind::AllForNow => {
                self.finished = true;
                Some(DiscoveryNotice::AllDiscovered)
            },
            _ => None,
        }
    }
}

/// Runs a whole browse for `service_type` over `events`, in order, and returns
/// what its listener is told.
pub fn drain(service_type: &str, events: Vec<BrowseEvent>) -> (r: Vec<DiscoveryNotice>)
    ensures
        notices_view(r@) == browse_notices(service_type@, events_view(events@)),
{
    let ghost all = events_view(events@);
    let mut session = BrowseSession::new(service_type);
    let mut rest = events;
    let mut out: Vec<DiscoveryNotice> = Vec::new();
    let ghost mut fed: int = 0;
    while rest.len() > 0
        invariant
            0 <= fed <= all.len(),
            events_view(rest@) == all.skip(fed),
            session.service_type@ == service_type@,
            session.finished == ends_run(all.take(fed)),
            notices_view(out@) == browse_notices(service_type@, all.take(fed)),
        decreases rest.len(),
    {
        let ghost before = all.take(fed);
        let ghost old_rest = rest@;
        proof {
            assert(events_view(old_rest).len() == old_rest.len());
            assert(events_view(old_rest)[0] == all.skip(fed)[0]);
        }
        let e = rest.remove(0);
        proof {
            assert(e@ == all[fed]);
            assert(all.take(fed + 1).drop_last() =~= before);
            assert(all.take(fed + 1).last() == all[fed]);
            if ends_run(before) {
                let i = choose|i: int| 0 <= i < before.len() && before[i].kind
                    == BrowserEventKind::AllForNow;
                assert(all.take(fed + 1)[i] == before[i]);
            }
            if e.kind == BrowserEventKind::AllForNow {
                assert(all.take(fed + 1)[fed] == e@);
            }
            let next = all.take(fed + 1);
            if ends_run(next) && !ends_run(before) {
                let i = choose|i: int| 0 <= i < next.len() && next[i].kind
                    == BrowserEventKind::AllForNow;
                if i < fed {
                    assert(before[i] == next[i]);
                }
            }
        }
        let n = session.feed(e);
        match n {
            Some(n) => {
                out.push(n);
            },
            None => {},
        }
        proof {
            assert forall|k: int| 0 <= k < rest@.len() implies events_view(rest@)[k]
                == all.skip(fed + 1)[k] by {
                assert(rest@[k] == old_rest[k + 1]);
                assert(events_view(old_rest)[k + 1] == all.skip(fed)[k + 1]);
            }
            fed = fed + 1;
            assert(events_view(rest@) =~= all.skip(fed));
            assert(notices_view(out@) =~= browse_notices(service_type@, all.take(fed)));
        }
    }
    proof {
        assert(all.take(fed) =~= all);
    }
    out
}

/// What the listener is told of a list of "new service" events.
pub open spec fn discovered_all(t: Seq<char>, news: Seq<BrowseEventView>) -> Seq<NoticeView> {
    news.map_values(|e: BrowseEventView| NoticeView::Discovered(discovered(t, e)))
}

proof fn lemma_news_only(t: Seq<char>, news: Seq<BrowseEventView>)
    requires
        forall|i: int| 0 <= i < news.len() ==> news[i].kind == BrowserEventKind::New,
    ensures
        !ends_run(news),
        browse_notices(t, news) == discovered_all(t, news),
    decreases news.len(),
{
    if news.len() > 0 {
        let prev = news.drop_last();
        lemma_news_only(t, prev);
        assert(discovered_all(t, news) =~= discovered_all(t, prev) + step_notices(t, news.last()));
    } else {
        assert(discovered_all(t, news) =~= Seq::empty());
    }
}

proof fn lemma_ended_run_is_silent(t: Seq<char>, done: Seq<BrowseEventView>, rest: Seq<
    BrowseEventView,
>)
    requires
        ends_run(done),
    ensures
        ends_run(done + rest),
        browse_notices(t, done + rest) == browse_notices(t, done),
    decreases rest.len(),
{
    let i = choose|i: int| 0 <= i < done.len() && done[i].kind == BrowserEventKind::AllForNow;
    assert((done + rest)[i] == done[i]);
    if rest.len() > 0 {
        let shorter = rest.drop_last();
        lemma_ended_run_is_silent(t, done, shorter);
        assert((done + rest).drop_last() =~= done + shorter);
    } else {
        assert(done + rest =~= done);
    }
}

/// Events reach the listener in the order they came: a run fed some "new service"
/// events, then "all for now", then anything, tells of each of those services in
/// turn, then of the end of the enumeration once, and nothing after it.
pub proof fn lemma_browse_order(
    t: Seq<char>,
    news: Seq<BrowseEventView>,
    end: BrowseEventView,
    later: Seq<BrowseEventView>,
)
    requires
        forall|i: int| 0 <= i < news.len() ==> news[i].kind == BrowserEventKind::New,
        end.kind == BrowserEventKind::AllForNow,
    ensures
        browse_notices(t, news.push(end) + later) == discovered_all(t, news).push(
            NoticeView::AllDiscovered,
        ),
{
    lemma_news_only(t, news);
    let done = news.push(end);
    assert(done.drop_last() =~= news);
    assert(done[news.len() as int].kind == BrowserEventKind::AllForNow);
    lemma_ended_run_is_silent(t, done, later);
    assert(browse_notices(t, done) =~= discovered_all(t, news).push(NoticeView::AllDiscovered));
}

} // verus!
