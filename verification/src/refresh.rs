//! The refresh controller: the one background component that fetches the
//! headers and writes them to the shared cache.
//!
//! The controller owns the poll interval and nothing else. A tick moves the
//! interval to the configured expiry and asks for a fetch; every failure
//! moves it back to the short bootstrap interval, which is all there is to
//! retrying. The host performs what the entry points return and reports how
//! it went.

use crate::cache::{payload_view, CacheWrite, StoreOutcome, WriteView};
use crate::config::{parsed, ConfigView, FilterConfig};
use crate::error::FilterError;
use crate::interval::Interval;
use vstd::prelude::*;

verus! {

/// Seconds between polls until a refresh cycle has run, and after a failure.
pub const BOOTSTRAP_SECS: u64 = 3;

/// Seconds that the header providing service has to answer.
pub const REQUEST_TIMEOUT_SECS: u64 = 5;

/// The short interval used before the first fetch and after any failure.
pub open spec fn bootstrap_interval() -> Interval {
    Interval { secs: BOOTSTRAP_SECS, nanos: 0 }
}

/// The time that the header providing service has to answer.
pub open spec fn request_timeout() -> Interval {
    Interval { secs: REQUEST_TIMEOUT_SECS, nanos: 0 }
}

/// Where the controller stands in its life.
#[derive(Clone, Copy, Debug, PartialEq, Eq, Structural)]
pub enum Phase {
    /// No configuration was accepted yet.
    Unconfigured,
    /// Configured, and waiting for the first tick.
    Initializing,
    /// At least one refresh cycle has started.
    Steady,
}

/// What a fetch is for; it is recorded and decides nothing.
#[derive(Clone, Copy, Debug, PartialEq, Eq, Structural)]
pub enum FetchPurpose {
    /// The cache holds nothing yet.
    Initialising,
    /// The cache holds a payload that is to be replaced.
    Refreshing,
}

/// The call to the header providing service.
#[derive(Clone, Debug)]
pub struct FetchRequest {
    /// The cluster to call.
    pub upstream: String,
    /// The request's headers, pseudo-headers included.
    pub headers: Vec<(String, String)>,
    /// The request's body.
    pub body: Option<Vec<u8>>,
    /// The request's trailers.
    pub trailers: Vec<(String, String)>,
    /// How long the call may take.
    pub timeout: Interval,
}

/// A `FetchRequest` as sequences.
pub struct FetchView {
    pub upstream: Seq<char>,
    pub headers: Seq<(Seq<char>, Seq<char>)>,
    pub body: Option<Seq<u8>>,
    pub trailers: Seq<(Seq<char>, Seq<char>)>,
    pub timeout: Interval,
}

impl View for FetchRequest {
    type V = FetchView;

    open spec fn view(&self) -> FetchView {
        FetchView {
            upstream: self.upstream@,
            headers: self.headers.deep_view(),
            body: payload_view(self.body),
            trailers: self.trailers.deep_view(),
            timeout: self.timeout,
        }
    }
}

/// The fetch that a configuration asks for: a GET of the configured path at
/// the configured cluster, under the configured authority, without body or
/// trailers.
pub open spec fn fetch_for(config: ConfigView) -> FetchView {
    FetchView {
        upstream: config.cluster,
        headers: seq![
            (":method"@, "GET"@),
            (":path"@, config.path),
            (":authority"@, config.authority),
        ],
        body: None,
        trailers: Seq::empty(),
        timeout: request_timeout(),
    }
}

impl FetchRequest {
    /// The fetch that `config` asks for.
    pub fn for_config(config: &FilterConfig) -> (res: FetchRequest)
        ensures
            res@ == fetch_for(config@),
    {
        let mut headers: Vec<(String, String)> = Vec::new();
        headers.push((":method".to_owned(), "GET".to_owned()));
        headers.push((":path".to_owned(), config.header_providing_service_path.clone()));
        headers.push((":authority".to_owned(), config.header_providing_service_authority.clone()));
        let trailers: Vec<(String, String)> = Vec::new();
        proof {
            assert(headers.deep_view() =~= fetch_for(config@).headers);
            assert(trailers.deep_view() =~= Seq::<(Seq<char>, Seq<char>)>::empty());
        }
        FetchRequest {
            upstream: config.header_providing_service_cluster.clone(),
            headers,
            body: None,
            trailers,
            timeout: Interval::from_secs(REQUEST_TIMEOUT_SECS),
        }
    }
}

/// What a tick asks of the host.
#[derive(Clone, Debug)]
pub struct TickAction {
    pub purpose: FetchPurpose,
    pub request: FetchRequest,
}

/// The write that empties the cache slot, whatever its version.
pub open spec fn reset_write() -> WriteView {
    WriteView { value: None, expected_version: None }
}

/// The write that stores a fetched payload, whatever the slot's version.
pub open spec fn store_write(payload: Seq<u8>) -> WriteView {
    WriteView { value: Some(payload), expected_version: None }
}

/// A configuration payload, if one was supplied, as a sequence of bytes.
pub open spec fn supplied(raw: Option<&[u8]>) -> Option<Seq<u8>> {
    match raw {
        Some(bytes) => Some(bytes@),
        None => None,
    }
}

/// The configuration that a supplied payload stands for. A payload that is
/// absent or empty counts as missing.
pub open spec fn configured(raw: Option<Seq<u8>>) -> Result<ConfigView, FilterError> {
    match raw {
        None => Err(FilterError::ConfigMissing),
        Some(bytes) => if bytes.len() == 0 {
            Err(FilterError::ConfigMissing)
        } else {
            parsed(bytes)
        },
    }
}

/// The controller as a value.
pub struct ControllerView {
    pub config: ConfigView,
    pub phase: Phase,
    pub tick_period: Option<Interval>,
}

impl ControllerView {
    /// The configuration is sound, and the timer, once armed, runs at the
    /// bootstrap interval or at the configured expiry.
    pub open spec fn well_formed(self) -> bool {
        &&& self.config.well_formed()
        &&& self.tick_period matches Some(period) ==> period == bootstrap_interval() || period
            == self.config.expiry
    }

    /// The controller with its timer back at the bootstrap interval.
    pub open spec fn fast_retry(self) -> ControllerView {
        ControllerView { tick_period: Some(bootstrap_interval()), ..self }
    }

    /// The controller after it was handed a configuration payload: freshly
    /// configured where the payload is accepted, and as it was otherwise.
    pub open spec fn after_configure(self, raw: Option<Seq<u8>>) -> ControllerView {
        match configured(raw) {
            Ok(config) => ControllerView {
                config,
                phase: Phase::Initializing,
                tick_period: Some(bootstrap_interval()),
            },
            Err(_) => self,
        }
    }

    /// The controller after a tick.
    pub open spec fn after_tick(self) -> ControllerView {
        ControllerView {
            config: self.config,
            phase: Phase::Steady,
            tick_period: Some(self.config.expiry),
        }
    }

    /// The controller after the host said whether the fetch was started.
    pub open spec fn after_dispatch(self, dispatched: bool) -> ControllerView {
        if dispatched {
            self
        } else {
            self.fast_retry()
        }
    }

    /// The controller after the host said how the write of a payload ended.
    pub open spec fn after_store(self, outcome: StoreOutcome) -> ControllerView {
        if outcome == StoreOutcome::Stored {
            self
        } else {
            self.fast_retry()
        }
    }
}

/// The write that a configuration payload leads to: the emptying of the
/// slot where the payload is accepted.
pub open spec fn configure_write(raw: Option<Seq<u8>>) -> Result<WriteView, FilterError> {
    match configured(raw) {
        Ok(_) => Ok(reset_write()),
        Err(e) => Err(e),
    }
}

/// The write that a response body leads to: none for a body that is absent
/// or empty, and else the storing of the body as it is.
pub open spec fn response_write(body: Option<Seq<u8>>) -> Result<WriteView, FilterError> {
    match body {
        Some(payload) => if payload.len() > 0 {
            Ok(store_write(payload))
        } else {
            Err(FilterError::EmptyUpstreamResponse)
        },
        None => Err(FilterError::EmptyUpstreamResponse),
    }
}

/// What asking for a write gave, seen as sequences of bytes.
pub open spec fn write_view(res: Result<CacheWrite, FilterError>) -> Result<
    WriteView,
    FilterError,
> {
    match res {
        Ok(write) => Ok(write@),
        Err(e) => Err(e),
    }
}

/// The refresh controller of one filter instance.
#[derive(Debug)]
pub struct RefreshController {
    config: FilterConfig,
    phase: Phase,
    tick_period: Option<Interval>,
}

impl View for RefreshController {
    type V = ControllerView;

    closed spec fn view(&self) -> ControllerView {
        ControllerView { config: self.config@, phase: self.phase, tick_period: self.tick_period }
    }
}

impl RefreshController {
    #[verifier::type_invariant]
    spec fn sound(self) -> bool {
        self@.well_formed()
    }

    /// A controller that was not configured yet: it holds the default
    /// configuration and its timer is not armed.
    pub fn new() -> (res: RefreshController)
        ensures
            res@ == (ControllerView {
                config: crate::config::default_config(),
                phase: Phase::Unconfigured,
                tick_period: None,
            }),
            res@.well_formed(),
    {
        RefreshController {
            config: FilterConfig::default(),
            phase: Phase::Unconfigured,
            tick_period: None,
        }
    }

    /// The configuration in force.
    pub fn config(&self) -> (res: &FilterConfig)
        ensures
            res@ == self@.config,
            res@.well_formed(),
    {
        proof {
            use_type_invariant(self);
        }
        &self.config
    }

    /// Where the controller stands in its life.
    pub fn phase(&self) -> (res: Phase)
        ensures
            res == self@.phase,
    {
        self.phase
    }

    /// The interval that the timer runs at, if it is armed.
    pub fn tick_period(&self) -> (res: Option<Interval>)
        ensures
            res == self@.tick_period,
            res matches Some(period) ==> period == bootstrap_interval() || period
                == self@.config.expiry,
    {
        proof {
            use_type_invariant(self);
        }
        self.tick_period
    }

    /// Takes a configuration payload.
    ///
    /// A payload that is absent, empty or of the wrong shape is refused and
    /// leaves the controller as it was. An accepted payload replaces the
    /// configuration, arms the timer at the bootstrap interval and asks for
    /// the cache slot to be emptied.
    pub fn on_configure(&mut self, raw: Option<&[u8]>) -> (res: Result<CacheWrite, FilterError>)
        ensures
            write_view(res) == configure_write(supplied(raw)),
            final(self)@ == old(self)@.after_configure(supplied(raw)),
            res is Err ==> *final(self) == *old(self),
            final(self)@.well_formed(),
    {
        proof {
            use_type_invariant(&*self);
        }
        let bytes = match raw {
            Some(bytes) => bytes,
            None => { return Err(FilterError::ConfigMissing); },
        };
        if bytes.len() == 0 {
            return Err(FilterError::ConfigMissing);
        }
        match FilterConfig::parse(bytes) {
            Ok(config) => {
                *self = RefreshController {
                    config,
                    phase: Phase::Initializing,
                    tick_period: Some(Interval::from_secs(BOOTSTRAP_SECS)),
                };
                Ok(CacheWrite { value: None, expected_version: None })
            },
            Err(e) => Err(e),
        }
    }

    /// The timer fired.
    ///
    /// The timer moves to the configured expiry before anything else, on the
    /// assumption that this cycle succeeds, and the first tick thereby ends
    /// the initialising phase whatever becomes of the fetch. The host is
    /// asked to start the fetch. A controller that was never configured
    /// ticks under the default configuration.
    pub fn on_tick(&mut self, cache_populated: bool) -> (res: TickAction)
        ensures
            final(self)@ == old(self)@.after_tick(),
            final(self)@.well_formed(),
            res.request@ == fetch_for(old(self)@.config),
            res.purpose == if cache_populated {
                FetchPurpose::Refreshing
            } else {
                FetchPurpose::Initialising
            },
    {
        proof {
            use_type_invariant(&*self);
        }
        let request = FetchRequest::for_config(&self.config);
        self.phase = Phase::Steady;
        self.tick_period = Some(self.config.header_cache_expiry);
        let purpose = if cache_populated {
            FetchPurpose::Refreshing
        } else {
            FetchPurpose::Initialising
        };
        TickAction { purpose, request }
    }

    /// The host reports whether it could start the fetch.
    ///
    /// A fetch that could not be started moves the timer back to the
    /// bootstrap interval, in whatever phase the controller is; nothing else
    /// changes.
    pub fn on_dispatch_result(&mut self, dispatched: bool) -> (res: Result<(), FilterError>)
        ensures
            res == if dispatched {
                Ok::<(), FilterError>(())
            } else {
                Err::<(), FilterError>(FilterError::DispatchFailure)
            },
            final(self)@ == old(self)@.after_dispatch(dispatched),
            dispatched ==> *final(self) == *old(self),
            final(self)@.well_formed(),
    {
        proof {
            use_type_invariant(&*self);
        }
        if dispatched {
            Ok(())
        } else {
            self.tick_period = Some(Interval::from_secs(BOOTSTRAP_SECS));
            Err(FilterError::DispatchFailure)
        }
    }

    /// The fetch completed with this body.
    ///
    /// A body that is absent or empty is recorded as a failure and asks for
    /// nothing, so that a payload cached before stays in force. Any other
    /// body is to be stored as it is, over whatever the slot holds: its shape
    /// is judged when a request reads it.
    pub fn on_response(&self, body: Option<Vec<u8>>) -> (res: Result<CacheWrite, FilterError>)
        ensures
            write_view(res) == response_write(payload_view(body)),
    {
        match body {
            Some(payload) => {
                if payload.len() > 0 {
                    Ok(CacheWrite { value: Some(payload), expected_version: None })
                } else {
                    Err(FilterError::EmptyUpstreamResponse)
                }
            },
            None => Err(FilterError::EmptyUpstreamResponse),
        }
    }

    /// The host reports how the write of a fetched payload ended.
    ///
    /// A write that was taken leaves the timer where the tick put it. Any
    /// other end moves the timer back to the bootstrap interval; nothing else
    /// changes.
    pub fn on_store_result(&mut self, outcome: StoreOutcome) -> (res: Result<(), FilterError>)
        ensures
            res == if outcome == StoreOutcome::Stored {
                Ok::<(), FilterError>(())
            } else {
                Err::<(), FilterError>(FilterError::CacheWriteFailure)
            },
            final(self)@ == old(self)@.after_store(outcome),
            outcome == StoreOutcome::Stored ==> *final(self) == *old(self),
            final(self)@.well_formed(),
    {
        proof {
            use_type_invariant(&*self);
        }
        match outcome {
            StoreOutcome::Stored => Ok(()),
            _ => {
                self.tick_period = Some(Interval::from_secs(BOOTSTRAP_SECS));
                Err(FilterError::CacheWriteFailure)
            },
        }
    }
}

} // verus!
