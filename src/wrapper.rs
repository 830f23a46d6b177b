//! The native resources that one adapter owns, and the order in which they are
//! created and released.
//!
//! Handles are the addresses of native objects; whoever drives the native
//! library creates and frees them as these decisions say.

use vstd::prelude::*;
use crate::browse::BrowseSession;
use crate::resolve::{ResolveScope, opened};

verus! {

/// Why the adapter could not reach a usable state.
#[derive(Debug, PartialEq, Eq, Structural)]
pub enum WrapperError {
    /// The native client could not be created; the native error code is kept.
    ClientCreation { code: i32 },
    /// The poll engine's thread could not be started.
    PollStart,
}

/// A native object that is to be released.
#[derive(Clone, Copy, Debug, PartialEq, Eq, Structural)]
pub enum NativeResource {
    Poll(usize),
    Client(usize),
    Browser(usize),
}

/// What the adapter needs created next before it can browse or resolve.
#[derive(Clone, Copy, Debug, PartialEq, Eq, Structural)]
pub enum InitStep {
    CreatePoll,
    CreateClient,
    Ready,
}

/// The native resources of one adapter: poll engine, then client, then browser.
pub struct AvahiWrapper {
    pub poll: Option<usize>,
    pub client: Option<usize>,
    pub service_browser: Option<usize>,
}

/// What the native status code of starting the poll engine means.
pub open spec fn poll_start_ok(code: i32) -> bool {
    code != -1
}

impl AvahiWrapper {
    /// Each resource exists only once those it depends on do.
    pub open spec fn wf(&self) -> bool {
        &&& self.client is Some ==> self.poll is Some
        &&& self.service_browser is Some ==> self.client is Some
    }

    /// The same wrapper once its browser has been handed back.
    pub open spec fn stopped(self) -> AvahiWrapper {
        AvahiWrapper { service_browser: None, ..self }
    }

    /// What stopping hands back for release.
    pub open spec fn stop_release(self) -> Option<NativeResource> {
        match self.service_browser {
            Some(b) => Some(NativeResource::Browser(b)),
            None => None,
        }
    }

    /// A wrapper that owns nothing yet.
    pub open spec fn fresh() -> AvahiWrapper {
        AvahiWrapper { poll: None, client: None, service_browser: None }
    }

    pub fn new() -> (r: AvahiWrapper)
        ensures
            r == AvahiWrapper::fresh(),
            r.wf(),
    {
        AvahiWrapper { poll: None, client: None, service_browser: None }
    }

    /// What has to be created next; creation is done once, whatever the number
    /// of runs.
    pub fn init_step(&self) -> (r: InitStep)
        requires
            self.wf(),
        ensures
            self.poll is None <==> r == InitStep::CreatePoll,
            (self.poll is Some && self.client is None) <==> r == InitStep::CreateClient,
            self.client is Some <==> r == InitStep::Ready,
    {
        if self.poll.is_none() {
            InitStep::CreatePoll
        } else if self.client.is_none() {
            InitStep::CreateClient
        } else {
            InitStep::Ready
        }
    }

    /// Records the poll engine that was created.
    pub fn poll_created(&mut self, poll: usize)
        requires
            old(self).wf(),
            old(self).poll is None,
        ensures
            final(self).wf(),
            *final(self) == (AvahiWrapper { poll: Some(poll), ..*old(self) }),
    {
        self.poll = Some(poll);
    }

    /// Records the outcome of creating the client: the handle, or `None` with the
    /// native error code, which fails the adapter.
    pub fn client_created(&mut self, client: Option<usize>, error_code: i32) -> (r: Result<
        (),
        WrapperError,
    >)
        requires
            old(self).wf(),
            old(self).poll is Some,
        ensures
            final(self).wf(),
            client is Some ==> r is Ok && *final(self) == (AvahiWrapper {
                client: client,
                ..*old(self)
            }),
            client is None ==> r == Err::<(), WrapperError>(
                WrapperError::ClientCreation { code: error_code },
            ) && *final(self) == *old(self),
    {
        match client {
            Some(c) => {
                self.client = Some(c);
                Ok(())
            },
            None => Err(WrapperError::ClientCreation { code: error_code }),
        }
    }

    /// Reads the status of starting the poll engine.
    pub fn poll_started(code: i32) -> (r: Result<(), WrapperError>)
        ensures
            poll_start_ok(code) <==> r is Ok,
            !poll_start_ok(code) ==> r == Err::<(), WrapperError>(WrapperError::PollStart),
    {
        if code == -1 {
            Err(WrapperError::PollStart)
        } else {
            Ok(())
        }
    }

    /// Records the browser created for `service_type` and opens the run that
    /// consumes its events; a browser it replaces is handed back for release.
    pub fn start_browser(&mut self, service_type: &str, browser: usize) -> (r: (
        BrowseSession,
        Option<NativeResource>,
    ))
        requires
            old(self).wf(),
            old(self).client is Some,
        ensures
            final(self).wf(),
            *final(self) == (AvahiWrapper { service_browser: Some(browser), ..*old(self) }),
            r.0.service_type@ == service_type@,
            !r.0.finished,
            r.1 == old(self).stop_release(),
    {
        let replaced = self.stop_browser();
        self.service_browser = Some(browser);
        (BrowseSession::new(service_type), replaced)
    }

    /// Opens the scope of a resolver just created on this wrapper's client; the
    /// scope owns it until it is handed back for release.
    pub fn resolve(&self, resolver: usize) -> (r: ResolveScope)
        requires
            self.wf(),
            self.client is Some,
        ensures
            r == opened(resolver),
    {
        ResolveScope::open(resolver)
    }

    /// Hands back the active browser for release, if there is one; calling it
    /// again, or before any browsing, hands back nothing.
    pub fn stop_browser(&mut self) -> (r: Option<NativeResource>)
        requires
            old(self).wf(),
        ensures
            final(self).wf(),
            *final(self) == old(self).stopped(),
            r == old(self).stop_release(),
    {
        match self.service_browser {
            Some(b) => {
                self.service_browser = None;
                Some(NativeResource::Browser(b))
            },
            None => None,
        }
    }

    /// Hands back every resource for release, dependents first: browser, client,
    /// poll engine. Afterwards the wrapper owns nothing.
    pub fn teardown(&mut self) -> (r: Vec<NativeResource>)
        requires
            old(self).wf(),
        ensures
            *final(self) == AvahiWrapper::fresh(),
            r@ == teardown_order(*old(self)),
    {
        let mut r: Vec<NativeResource> = Vec::new();
        if let Some(b) = self.service_browser {
            r.push(NativeResource::Browser(b));
        }
        if let Some(c) = self.client {
            r.push(NativeResource::Client(c));
        }
        if let Some(p) = self.poll {
            r.push(NativeResource::Poll(p));
        }
        self.service_browser = None;
        self.client = None;
        self.poll = None;
        proof {
            assert(r@ =~= teardown_order(*old(self)));
        }
        r
    }
}

/// A present resource as a one-item list, an absent one as the empty list.
pub open spec fn present(h: Option<usize>, f: spec_fn(usize) -> NativeResource) -> Seq<
    NativeResource,
> {
    match h {
        Some(x) => seq![f(x)],
        None => Seq::empty(),
    }
}

/// The order in which a wrapper's resources are released.
pub open spec fn teardown_order(w: AvahiWrapper) -> Seq<NativeResource> {
    present(w.service_browser, |b| NativeResource::Browser(b)) + present(
        w.client,
        |c| NativeResource::Client(c),
    ) + present(w.poll, |p| NativeResource::Poll(p))
}

/// The discovery manager backed by the native client.
pub struct AvahiServiceDiscoveryManager {
    pub wrapper: AvahiWrapper,
}

impl AvahiServiceDiscoveryManager {
    pub fn new() -> (r: AvahiServiceDiscoveryManager)
        ensures
            r.wrapper == AvahiWrapper::fresh(),
            r.wrapper.wf(),
    {
        AvahiServiceDiscoveryManager { wrapper: AvahiWrapper::new() }
    }

    /// Stops browsing: hands back the active browser for release, if any.
    pub fn stop_service_discovery(&mut self) -> (r: Option<NativeResource>)
        requires
            old(self).wrapper.wf(),
        ensures
            final(self).wrapper.wf(),
            final(self).wrapper == old(self).wrapper.stopped(),
            r == old(self).wrapper.stop_release(),
    {
        self.wrapper.stop_browser()
    }
}

/// Stopping twice releases the browser at most once, and stopping before any
/// browsing releases nothing.
pub proof fn lemma_stop_idempotent(w: AvahiWrapper)
    requires
        w.wf(),
    ensures
        w.stopped().stop_release() is None,
        w.stopped().stopped() == w.stopped(),
        AvahiWrapper::fresh().stop_release() is None,
{
}

} // verus!
