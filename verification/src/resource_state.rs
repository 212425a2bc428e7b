//! Loading state of a remote resource: the last good payload survives
//! failed and timed-out refreshes.

use std::time::{Duration, Instant};
use vstd::prelude::*;

verus! {

/// Declares `std::time::Instant`, which a loading resource holds as the
/// moment its refresh began; Verus sees nothing inside it.
#[verifier::external_type_specification]
#[verifier::external_body]
pub struct ExInstant(Instant);

/// Where a resource stands in its refresh cycle.
#[derive(Debug, Clone, Copy, PartialEq, Eq, Structural)]
pub enum ResourcePhase {
    Idle,
    Loading,
    Ready,
    Stale,
    Error,
}

impl ResourcePhase {
    pub open spec fn spec_as_str(self) -> Seq<char> {
        match self {
            ResourcePhase::Idle => "idle"@,
            ResourcePhase::Loading => "loading"@,
            ResourcePhase::Ready => "ready"@,
            ResourcePhase::Stale => "stale"@,
            ResourcePhase::Error => "error"@,
        }
    }

    /// The lower-case name of the phase.
    pub fn as_str(self) -> (r: &'static str)
        ensures
            r@ == self.spec_as_str(),
    {
        match self {
            ResourcePhase::Idle => "idle",
            ResourcePhase::Loading => "loading",
            ResourcePhase::Ready => "ready",
            ResourcePhase::Stale => "stale",
            ResourcePhase::Error => "error",
        }
    }
}

/// The abstract state of a `ResourceState`.
pub struct ResourceView<T> {
    pub phase: ResourcePhase,
    pub last_good: Option<T>,
    pub started_at: Option<Instant>,
    pub last_error: Option<Seq<char>>,
}

impl<T> ResourceView<T> {
    /// A refresh start time is held exactly while loading.
    pub open spec fn inv(self) -> bool {
        (self.phase == ResourcePhase::Loading) <==> self.started_at is Some
    }

    pub open spec fn spec_idle() -> Self {
        ResourceView { phase: ResourcePhase::Idle, last_good: None, started_at: None, last_error: None }
    }

    pub open spec fn spec_ready(payload: T) -> Self {
        ResourceView {
            phase: ResourcePhase::Ready,
            last_good: Some(payload),
            started_at: None,
            last_error: None,
        }
    }

    /// A refresh started at `at`.
    pub open spec fn begun(self, at: Instant) -> Self {
        ResourceView { phase: ResourcePhase::Loading, started_at: Some(at), ..self }
    }

    /// A refresh delivered `payload`.
    pub open spec fn succeeded(self, payload: T) -> Self {
        ResourceView {
            phase: ResourcePhase::Ready,
            last_good: Some(payload),
            started_at: None,
            last_error: None,
        }
    }

    /// A refresh failed with `error`.
    pub open spec fn failed(self, error: Seq<char>) -> Self {
        ResourceView {
            phase: ResourcePhase::Error,
            started_at: None,
            last_error: Some(error),
            ..self
        }
    }

    /// A refresh ran past its timeout; `detail` explains why.
    pub open spec fn expired(self, detail: Seq<char>) -> Self {
        ResourceView {
            phase: ResourcePhase::Stale,
            started_at: None,
            last_error: Some(detail),
            ..self
        }
    }
}

/// The state of a resource that is refreshed from a remote source.
#[derive(Debug)]
pub struct ResourceState<T> {
    phase: ResourcePhase,
    last_good: Option<T>,
    loading_started_at: Option<Instant>,
    last_error: Option<String>,
}

impl<T> View for ResourceState<T> {
    type V = ResourceView<T>;

    closed spec fn view(&self) -> ResourceView<T> {
        ResourceView {
            phase: self.phase,
            last_good: self.last_good,
            started_at: self.loading_started_at,
            last_error: match self.last_error {
                Some(e) => Some(e@),
                None => None,
            },
        }
    }
}

impl<T: Clone> Clone for ResourceState<T> {
    /// A copy of the state: the same phase, start time and error, and a
    /// clone of the last good payload.
    fn clone(&self) -> (r: Self)
        ensures
            r@.phase == self@.phase,
            r@.started_at == self@.started_at,
            r@.last_error == self@.last_error,
            r@.last_good is Some <==> self@.last_good is Some,
            r@.last_good matches Some(x) ==> cloned::<T>(self@.last_good->0, x),
    {
        proof {
            use_type_invariant(self);
        }
        let last_good = match &self.last_good {
            Some(v) => Some(v.clone()),
            None => None,
        };
        let loading_started_at = match &self.loading_started_at {
            Some(i) => Some(*i),
            None => None,
        };
        let last_error = match &self.last_error {
            Some(e) => Some(e.clone()),
            None => None,
        };
        ResourceState { phase: self.phase, last_good, loading_started_at, last_error }
    }
}

/// Calls `Instant::now`. Nothing is claimed of the instant returned: it
/// rests on the clock.
#[verifier::external_body]
fn instant_now() -> Instant {
    Instant::now()
}

/// Calls `Instant::elapsed`. Nothing is claimed of the duration returned:
/// it rests on the clock.
#[verifier::external_body]
fn elapsed_since(started: &Instant) -> Duration {
    started.elapsed()
}

/// Calls `Duration::as_nanos`, the whole duration in nanoseconds. A
/// `Duration` is opaque here, so the number returned is left unstated.
#[verifier::external_body]
fn duration_nanos(d: &Duration) -> u128 {
    d.as_nanos()
}

impl<T> ResourceState<T> {
    #[verifier::type_invariant]
    spec fn well_formed(self) -> bool {
        (self.phase == ResourcePhase::Loading) <==> self.loading_started_at is Some
    }

    /// Nothing loaded yet.
    pub fn idle() -> (r: Self)
        ensures
            r@ == ResourceView::<T>::spec_idle(),
    {
        ResourceState {
            phase: ResourcePhase::Idle,
            last_good: None,
            loading_started_at: None,
            last_error: None,
        }
    }

    /// Loaded with `payload`.
    pub fn ready(payload: T) -> (r: Self)
        ensures
            r@ == ResourceView::spec_ready(payload),
    {
        ResourceState {
            phase: ResourcePhase::Ready,
            last_good: Some(payload),
            loading_started_at: None,
            last_error: None,
        }
    }

    /// A refresh starts at `started_at`.
    pub fn begin_refresh(&mut self, started_at: Instant)
        ensures
            final(self)@ == old(self)@.begun(started_at),
    {
        proof {
            use_type_invariant(&*self);
        }
        let mut last_good = None;
        std::mem::swap(&mut last_good, &mut self.last_good);
        let mut last_error = None;
        std::mem::swap(&mut last_error, &mut self.last_error);
        *self = ResourceState {
            phase: ResourcePhase::Loading,
            last_good,
            loading_started_at: Some(started_at),
            last_error,
        };
    }

    /// A refresh starts now.
    pub fn begin_refresh_now(&mut self)
        ensures
            exists|at: Instant| final(self)@ == old(self)@.begun(at),
    {
        let now = instant_now();
        self.begin_refresh(now);
    }

    /// The refresh delivered `payload`.
    pub fn finish_ok(&mut self, payload: T)
        ensures
            final(self)@ == old(self)@.succeeded(payload),
    {
        *self = ResourceState {
            phase: ResourcePhase::Ready,
            last_good: Some(payload),
            loading_started_at: None,
            last_error: None,
        };
    }

    /// The refresh failed with `error`; the last good payload is kept.
    pub fn finish_error(&mut self, error: String)
        ensures
            final(self)@ == old(self)@.failed(error@),
    {
        proof {
            use_type_invariant(&*self);
        }
        let mut last_good = None;
        std::mem::swap(&mut last_good, &mut self.last_good);
        *self = ResourceState {
            phase: ResourcePhase::Error,
            last_good,
            loading_started_at: None,
            last_error: Some(error),
        };
    }

    /// Marks a loading resource stale when the refresh has been running for
    /// at least `timeout_nanos` (it has run `elapsed_nanos`); returns whether
    /// it did.
    pub fn expire_if_elapsed(&mut self, elapsed_nanos: u128, timeout_nanos: u128, detail: String) -> (r: bool)
        ensures
            r == (old(self)@.phase == ResourcePhase::Loading && elapsed_nanos >= timeout_nanos),
            r ==> final(self)@ == old(self)@.expired(detail@),
            !r ==> final(self)@ == old(self)@,
    {
        if self.phase != ResourcePhase::Loading {
            return false;
        }
        if elapsed_nanos < timeout_nanos {
            return false;
        }
        proof {
            use_type_invariant(&*self);
        }
        let mut last_good = None;
        std::mem::swap(&mut last_good, &mut self.last_good);
        *self = ResourceState {
            phase: ResourcePhase::Stale,
            last_good,
            loading_started_at: None,
            last_error: Some(detail),
        };
        true
    }

    /// Marks a loading resource stale once its refresh has run for `timeout`;
    /// returns whether it did. Only a loading resource can expire, and an
    /// expired one keeps its last good payload.
    pub fn expire_if_overdue(&mut self, timeout: Duration, detail: String) -> (r: bool)
        ensures
            r ==> old(self)@.phase == ResourcePhase::Loading && final(self)@ == old(
                self,
            )@.expired(detail@),
            !r ==> final(self)@ == old(self)@,
    {
        proof {
            use_type_invariant(&*self);
        }
        let elapsed = match &self.loading_started_at {
            Some(started_at) => duration_nanos(&elapsed_since(started_at)),
            None => return false,
        };
        let limit = duration_nanos(&timeout);
        self.expire_if_elapsed(elapsed, limit, detail)
    }

    pub fn phase(&self) -> (r: ResourcePhase)
        ensures
            r == self@.phase,
            self@.inv(),
    {
        proof {
            use_type_invariant(self);
        }
        self.phase
    }

    pub fn is_loading(&self) -> (r: bool)
        ensures
            r == (self@.phase == ResourcePhase::Loading),
    {
        self.phase == ResourcePhase::Loading
    }

    pub fn last_good(&self) -> (r: Option<&T>)
        ensures
            match r {
                Some(x) => self@.last_good == Some(*x),
                None => self@.last_good is None,
            },
    {
        self.last_good.as_ref()
    }

    pub fn last_error(&self) -> (r: Option<&str>)
        ensures
            match r {
                Some(e) => self@.last_error == Some(e@),
                None => self@.last_error is None,
            },
    {
        match &self.last_error {
            Some(e) => Some(e.as_str()),
            None => None,
        }
    }
}

// ---------------------------------------------------------------------------
// Laws
// ---------------------------------------------------------------------------

/// Every state that a `ResourceState` passes through holds a refresh start
/// time exactly while it is loading.
pub proof fn lemma_transitions_keep_invariant<T>(
    v: ResourceView<T>,
    at: Instant,
    payload: T,
    message: Seq<char>,
)
    requires
        v.inv(),
    ensures
        ResourceView::<T>::spec_idle().inv(),
        ResourceView::spec_ready(payload).inv(),
        v.begun(at).inv(),
        v.succeeded(payload).inv(),
        v.failed(message).inv(),
        v.phase == ResourcePhase::Loading ==> v.expired(message).inv(),
{
}

/// Only a successful refresh replaces the last good payload: starting a
/// refresh, failing it, or letting it expire keep it.
pub proof fn lemma_only_success_replaces_payload<T>(
    v: ResourceView<T>,
    at: Instant,
    message: Seq<char>,
)
    ensures
        v.begun(at).last_good == v.last_good,
        v.failed(message).last_good == v.last_good,
        v.expired(message).last_good == v.last_good,
        v.begun(at).failed(message).last_good == v.last_good,
        v.begun(at).expired(message).last_good == v.last_good,
{
}

/// A refresh that fails or expires after a success still offers the payload
/// of that success, together with the reason of the failure.
pub proof fn lemma_failed_refresh_after_success<T>(
    v: ResourceView<T>,
    payload: T,
    at: Instant,
    message: Seq<char>,
)
    ensures
        v.succeeded(payload).begun(at).failed(message).last_good == Some(payload),
        v.succeeded(payload).begun(at).failed(message).last_error == Some(message),
        v.succeeded(payload).begun(at).expired(message).last_good == Some(payload),
        v.succeeded(payload).begun(at).expired(message).phase == ResourcePhase::Stale,
{
}

/// A successful refresh clears the error of an earlier failure.
pub proof fn lemma_success_clears_error<T>(v: ResourceView<T>, payload: T, message: Seq<char>)
    ensures
        v.failed(message).succeeded(payload).last_error is None,
        v.failed(message).succeeded(payload).phase == ResourcePhase::Ready,
{
}

} // verus!
