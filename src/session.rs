use vstd::prelude::*;

verus! {

/// The DNS-SD service type that is browsed for.
pub const SERVICE_TYPE: &'static str = "_clubscore._tcp.local.";

/// The overall deadline, in milliseconds, when the caller gives none.
pub const DEFAULT_TIMEOUT_MS: u64 = 2500;

/// The longest single wait for the next event, in milliseconds.
pub const POLL_SLICE_MS: u64 = 300;

/// What the multicast subsystem delivered while the session waited.
pub enum ResolutionEvent {
    /// An instance was resolved: its addresses (as text), its hostname and its port.
    Resolved { addresses: Vec<String>, hostname: String, port: u16 },
    /// An instance went away.
    Removed,
    /// Any other informational event.
    Other,
}

/// The address and port of the instance that was found.
pub struct DiscoveryResult {
    pub host: String,
    pub port: u16,
}

/// The two failures that end a discovery with an error.
pub enum DiscoveryError {
    /// The multicast session could not be set up.
    SessionInit(String),
    /// The browse query could not be issued.
    Browse(String),
}

/// The host that a resolved instance is reached by: its first address if it
/// has any, else its hostname.
pub open spec fn chosen_host(addresses: Seq<String>, hostname: String) -> Seq<char> {
    if addresses.len() > 0 {
        addresses[0]@
    } else {
        hostname@
    }
}

/// Picks the host of a resolved instance: the first address, else the hostname.
pub fn select_host(addresses: Vec<String>, hostname: String) -> (r: String)
    ensures
        r@ == chosen_host(addresses@, hostname),
{
    let mut addresses = addresses;
    if addresses.len() > 0 {
        addresses.remove(0)
    } else {
        hostname
    }
}


/// Where a discovery stands.
#[derive(PartialEq, Eq, Structural, Clone, Copy, Debug)]
pub enum Phase {
    /// The multicast session is to be acquired.
    Acquiring,
    /// The browse query is to be issued.
    Browsing,
    /// The clock is to be read against the deadline.
    Checking,
    /// The next event is awaited, for at most one poll slice.
    Waiting,
    /// The session is to be released.
    Releasing,
    /// The outcome is settled.
    Finished,
}

/// What the caller is asked to do next.
#[derive(PartialEq, Eq, Structural, Clone, Copy, Debug)]
pub enum Action {
    /// Set up the multicast session.
    AcquireSession,
    /// Issue a browse query for `SERVICE_TYPE`.
    Browse,
    /// Report the milliseconds elapsed since the browse was issued.
    ReadClock,
    /// Wait for the next event, for at most `cap_ms` milliseconds.
    Wait { cap_ms: u64 },
    /// Release the multicast session; a failure to do so is ignored.
    Release,
    /// Take the outcome with `Discovery::finish`.
    Finish,
}

/// What the caller reports back after performing an action.
pub enum Input {
    SessionAcquired,
    /// Setting up the session failed, for the cause given.
    SessionFailed(String),
    BrowseStarted,
    /// Issuing the browse failed, for the cause given.
    BrowseFailed(String),
    /// Milliseconds elapsed since the browse was issued.
    Clock(u64),
    /// An event arrived within the wait.
    Delivered(ResolutionEvent),
    /// No event arrived within the wait.
    WaitTimedOut,
    /// The session was released (whether or not that succeeded).
    Released,
}

/// An event as the flow sees it: a resolved instance is its host and port.
pub enum EventView {
    Resolved(Seq<char>, u16),
    Removed,
    Other,
}

/// An input as the flow sees it.
pub enum InputView {
    SessionAcquired,
    SessionFailed(Seq<char>),
    BrowseStarted,
    BrowseFailed(Seq<char>),
    Clock(u64),
    Delivered(EventView),
    WaitTimedOut,
    Released,
}

/// An error as the flow sees it: its kind and its cause.
pub enum ErrorView {
    SessionInit(Seq<char>),
    Browse(Seq<char>),
}

/// The state of a discovery: the deadline in milliseconds after the browse,
/// the phase, the instance found (host and port) and the error met.
pub struct SessionView {
    pub deadline: u64,
    pub phase: Phase,
    pub found: Option<(Seq<char>, u16)>,
    pub error: Option<ErrorView>,
}

impl View for ResolutionEvent {
    type V = EventView;

    open spec fn view(&self) -> EventView {
        match self {
            ResolutionEvent::Resolved { addresses, hostname, port } => EventView::Resolved(
                chosen_host(addresses@, *hostname),
                *port,
            ),
            ResolutionEvent::Removed => EventView::Removed,
            ResolutionEvent::Other => EventView::Other,
        }
    }
}

impl View for Input {
    type V = InputView;

    open spec fn view(&self) -> InputView {
        match self {
            Input::SessionAcquired => InputView::SessionAcquired,
            Input::SessionFailed(m) => InputView::SessionFailed(m@),
            Input::BrowseStarted => InputView::BrowseStarted,
            Input::BrowseFailed(m) => InputView::BrowseFailed(m@),
            Input::Clock(t) => InputView::Clock(*t),
            Input::Delivered(e) => InputView::Delivered(e@),
            Input::WaitTimedOut => InputView::WaitTimedOut,
            Input::Released => InputView::Released,
        }
    }
}

impl View for DiscoveryError {
    type V = ErrorView;

    open spec fn view(&self) -> ErrorView {
        match self {
            DiscoveryError::SessionInit(m) => ErrorView::SessionInit(m@),
            DiscoveryError::Browse(m) => ErrorView::Browse(m@),
        }
    }
}

impl View for DiscoveryResult {
    type V = (Seq<char>, u16);

    open spec fn view(&self) -> (Seq<char>, u16) {
        (self.host@, self.port)
    }
}

/// The deadline that a requested timeout gives.
pub open spec fn effective_timeout(timeout_ms: Option<u64>) -> u64 {
    match timeout_ms {
        Some(t) => t,
        None => DEFAULT_TIMEOUT_MS,
    }
}

/// A discovery that has not started yet.
pub open spec fn initial(timeout_ms: Option<u64>) -> SessionView {
    SessionView {
        deadline: effective_timeout(timeout_ms),
        phase: Phase::Acquiring,
        found: None,
        error: None,
    }
}

/// The action that each phase asks for.
pub open spec fn action_of(phase: Phase) -> Action {
    match phase {
        Phase::Acquiring => Action::AcquireSession,
        Phase::Browsing => Action::Browse,
        Phase::Checking => Action::ReadClock,
        Phase::Waiting => Action::Wait { cap_ms: POLL_SLICE_MS },
        Phase::Releasing => Action::Release,
        Phase::Finished => Action::Finish,
    }
}

/// The same state in another phase.
pub open spec fn with_phase(s: SessionView, phase: Phase) -> SessionView {
    SessionView { deadline: s.deadline, phase, found: s.found, error: s.error }
}

/// One transition of the flow. An input that the phase does not wait for
/// leaves the state unchanged.
pub open spec fn step_spec(s: SessionView, i: InputView) -> SessionView {
    match s.phase {
        Phase::Acquiring => match i {
            InputView::SessionAcquired => with_phase(s, Phase::Browsing),
            InputView::SessionFailed(m) => SessionView {
                deadline: s.deadline,
                phase: Phase::Finished,
                found: s.found,
                error: Some(ErrorView::SessionInit(m)),
            },
            _ => s,
        },
        Phase::Browsing => match i {
            InputView::BrowseStarted => with_phase(s, Phase::Checking),
            InputView::BrowseFailed(m) => SessionView {
                deadline: s.deadline,
                phase: Phase::Releasing,
                found: s.found,
                error: Some(ErrorView::Browse(m)),
            },
            _ => s,
        },
        Phase::Checking => match i {
            InputView::Clock(t) => if t < s.deadline {
                with_phase(s, Phase::Waiting)
            } else {
                with_phase(s, Phase::Releasing)
            },
            _ => s,
        },
        Phase::Waiting => match i {
            InputView::Delivered(EventView::Resolved(host, port)) => SessionView {
                deadline: s.deadline,
                phase: Phase::Releasing,
                found: Some((host, port)),
                error: s.error,
            },
            InputView::Delivered(_) => with_phase(s, Phase::Checking),
            InputView::WaitTimedOut => with_phase(s, Phase::Checking),
            _ => s,
        },
        Phase::Releasing => match i {
            InputView::Released => with_phase(s, Phase::Finished),
            _ => s,
        },
        Phase::Finished => s,
    }
}

/// The state after a sequence of inputs.
pub open spec fn run(s: SessionView, inputs: Seq<InputView>) -> SessionView
    decreases inputs.len(),
{
    if inputs.len() == 0 {
        s
    } else {
        run(step_spec(s, inputs[0]), inputs.drop_first())
    }
}

/// The outcome that a state stands for: the error if one was met, else the
/// instance found, if any.
pub open spec fn outcome(s: SessionView) -> Result<Option<(Seq<char>, u16)>, ErrorView> {
    match s.error {
        Some(e) => Err(e),
        None => Ok(s.found),
    }
}

/// The view of a discovery's outcome as returned to the caller.
pub open spec fn outcome_view(r: Result<Option<DiscoveryResult>, DiscoveryError>) -> Result<
    Option<(Seq<char>, u16)>,
    ErrorView,
> {
    match r {
        Ok(Some(d)) => Ok(Some(d@)),
        Ok(None) => Ok(None),
        Err(e) => Err(e@),
    }
}

/// One bounded-time discovery attempt, driven by its caller.
pub struct Discovery {
    deadline: u64,
    phase: Phase,
    found: Option<DiscoveryResult>,
    error: Option<DiscoveryError>,
}

impl View for Discovery {
    type V = SessionView;

    closed spec fn view(&self) -> SessionView {
        SessionView {
            deadline: self.deadline,
            phase: self.phase,
            found: match self.found {
                Some(d) => Some(d@),
                None => None,
            },
            error: match self.error {
                Some(e) => Some(e@),
                None => None,
            },
        }
    }
}

impl Discovery {
    /// Starts a discovery whose deadline is `timeout_ms` milliseconds after the
    /// browse, or `DEFAULT_TIMEOUT_MS` when none is given.
    pub fn new(timeout_ms: Option<u64>) -> (r: Discovery)
        ensures
            r@ == initial(timeout_ms),
    {
        let deadline = match timeout_ms {
            Some(t) => t,
            None => DEFAULT_TIMEOUT_MS,
        };
        Discovery { deadline, phase: Phase::Acquiring, found: None, error: None }
    }

    /// The action that the caller is to perform now.
    pub fn next_action(&self) -> (a: Action)
        ensures
            a == action_of(self@.phase),
    {
        match self.phase {
            Phase::Acquiring => Action::AcquireSession,
            Phase::Browsing => Action::Browse,
            Phase::Checking => Action::ReadClock,
            Phase::Waiting => Action::Wait { cap_ms: POLL_SLICE_MS },
            Phase::Releasing => Action::Release,
            Phase::Finished => Action::Finish,
        }
    }

    /// Takes in what happened and returns the next action.
    pub fn step(&mut self, input: Input) -> (a: Action)
        ensures
            final(self)@ == step_spec(old(self)@, input@),
            a == action_of(final(self)@.phase),
    {
        match self.phase {
            Phase::Acquiring => match input {
                Input::SessionAcquired => {
                    self.phase = Phase::Browsing;
                },
                Input::SessionFailed(m) => {
                    self.error = Some(DiscoveryError::SessionInit(m));
                    self.phase = Phase::Finished;
                },
                _ => {},
            },
            Phase::Browsing => match input {
                Input::BrowseStarted => {
                    self.phase = Phase::Checking;
                },
                Input::BrowseFailed(m) => {
                    self.error = Some(DiscoveryError::Browse(m));
                    self.phase = Phase::Releasing;
                },
                _ => {},
            },
            Phase::Checking => match input {
                Input::Clock(t) => {
                    if t < self.deadline {
                        self.phase = Phase::Waiting;
                    } else {
                        self.phase = Phase::Releasing;
                    }
                },
                _ => {},
            },
            Phase::Waiting => match input {
                Input::Delivered(ResolutionEvent::Resolved { addresses, hostname, port }) => {
                    let host = select_host(addresses, hostname);
                    self.found = Some(DiscoveryResult { host, port });
                    self.phase = Phase::Releasing;
                },
                Input::Delivered(_) => {
                    self.phase = Phase::Checking;
                },
                Input::WaitTimedOut => {
                    self.phase = Phase::Checking;
                },
                _ => {},
            },
            Phase::Releasing => match input {
                Input::Released => {
                    self.phase = Phase::Finished;
                },
                _ => {},
            },
            Phase::Finished => {},
        }
        self.next_action()
    }

    /// The outcome, once the discovery has finished; `None` before that.
    pub fn finish(self) -> (r: Option<Result<Option<DiscoveryResult>, DiscoveryError>>)
        ensures
            r is Some <==> self@.phase == Phase::Finished,
            r matches Some(o) ==> outcome_view(o) == outcome(self@),
    {
        if self.phase != Phase::Finished {
            return None;
        }
        match self.error {
            Some(e) => Some(Err(e)),
            None => Some(Ok(self.found)),
        }
    }
}

impl DiscoveryError {
    /// The description of the underlying cause.
    pub fn into_message(self) -> (r: String)
        ensures
            r@ == match self@ {
                ErrorView::SessionInit(m) => m,
                ErrorView::Browse(m) => m,
            },
    {
        match self {
            DiscoveryError::SessionInit(m) => m,
            DiscoveryError::Browse(m) => m,
        }
    }
}

} // verus!
