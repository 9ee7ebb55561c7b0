//! The connectivity-test session: a state machine that is told how each
//! attempt on the network ended and answers with the status events to report
//! and the next thing to attempt.
//!
//! The session itself performs no I/O. Its driver asks it what to do
//! ([`ConnectionTestSession::advance`]), does it, and reports the outcome
//! ([`ConnectionTestSession::handle`]); the events that come back go to the
//! observer in the order given.

use vstd::prelude::*;
use vstd::string::*;
use crate::event::{StatusEvent, TestSourceMessage};
use crate::json::decimal;
use crate::table::{TableSettings, WebsocketTable};

verus! {

/// How long a session waits for a first message, in seconds.
pub const WAIT_BUDGET_SECS: u64 = 30;

/// What the session says when the socket is open.
pub const CONNECTED: &'static str = "Successfully connected to websocket server";

/// What the session says when the socket could not be opened; the reason
/// follows.
pub const CONNECT_FAILED: &'static str = "Failed to connect to websocket server: ";

/// What the session says when the subscription message is delivered.
pub const SUBSCRIBED: &'static str = "Sent subscription message";

/// What the session says when the subscription message could not be
/// delivered; the reason follows.
pub const SUBSCRIBE_FAILED: &'static str = "Failed to send subscription message: ";

/// What the session says when a first message arrives.
pub const RECEIVED: &'static str = "Received message from websocket";

/// What the session says when the transport fails while it waits; the
/// reason follows.
pub const RECEIVE_FAILED: &'static str = "Received error from websocket: ";

/// What the session says when the server hangs up before sending anything.
pub const DISCONNECTED: &'static str = "Websocket disconnected before sending message";

/// What the session says when the wait budget elapses.
pub const TIMED_OUT: &'static str = "Did not receive any messages after 30 seconds";

/// What the session says at the end of a successful test.
pub const VALIDATED: &'static str = "Successfully validated websocket connection";

/// The text for an elapsed wait names the wait budget.
pub proof fn lemma_timeout_text_names_the_budget()
    ensures
        TIMED_OUT@ == "Did not receive any messages after "@ + decimal(WAIT_BUDGET_SECS as nat)
            + " seconds"@,
{
    reveal_strlit("Did not receive any messages after 30 seconds");
    reveal_strlit("Did not receive any messages after ");
    reveal_strlit(" seconds");
    reveal_with_fuel(decimal, 2);
    assert(decimal(30) =~= seq!['3', '0']);
    assert(TIMED_OUT@ =~= "Did not receive any messages after "@ + decimal(30) + " seconds"@);
}

/// Where a session stands.
#[derive(Clone, Copy, Debug, PartialEq, Eq, Structural)]
pub enum SessionState {
    /// The connection attempt is under way.
    Connecting,
    /// The socket is open and nothing has been asked of it yet.
    Connected,
    /// The subscription message is being sent.
    Subscribing,
    /// The session waits for a first message, against the clock.
    Waiting,
    /// A message arrived: the test succeeded.
    Validated,
    /// The test failed.
    Failed,
}

impl SessionState {
    /// Whether the session has ended, one way or the other.
    pub open spec fn is_terminal(self) -> bool {
        self is Validated || self is Failed
    }
}

/// How an attempt on the network ended, as the driver reports it.
#[derive(Debug)]
pub enum SessionOutcome {
    /// The socket was opened.
    Connected,
    /// The socket could not be opened; the text says why.
    ConnectFailure(String),
    /// The subscription message was delivered.
    Sent,
    /// The subscription message could not be delivered; the text says why.
    SendFailure(String),
    /// A message arrived within the wait budget.
    Message,
    /// The transport reported an error while waiting; the text says which.
    ReceiveFailure(String),
    /// The server closed the socket before sending anything.
    Disconnected,
    /// The wait budget elapsed first.
    Timeout,
}

/// The mathematical value of a [`SessionOutcome`].
pub enum Outcome {
    Connected,
    ConnectFailure(Seq<char>),
    Sent,
    SendFailure(Seq<char>),
    Message,
    ReceiveFailure(Seq<char>),
    Disconnected,
    Timeout,
}

impl View for SessionOutcome {
    type V = Outcome;

    open spec fn view(&self) -> Outcome {
        match self {
            SessionOutcome::Connected => Outcome::Connected,
            SessionOutcome::ConnectFailure(detail) => Outcome::ConnectFailure(detail@),
            SessionOutcome::Sent => Outcome::Sent,
            SessionOutcome::SendFailure(detail) => Outcome::SendFailure(detail@),
            SessionOutcome::Message => Outcome::Message,
            SessionOutcome::ReceiveFailure(detail) => Outcome::ReceiveFailure(detail@),
            SessionOutcome::Disconnected => Outcome::Disconnected,
            SessionOutcome::Timeout => Outcome::Timeout,
        }
    }
}

/// What the driver is to attempt next.
#[derive(Debug)]
pub enum SessionAction {
    /// Open a socket to this endpoint.
    Connect { endpoint: String },
    /// Send this text over the open socket.
    SendSubscription { payload: String },
    /// Wait for a first message, for at most this many seconds.
    AwaitMessage { budget_secs: u64 },
    /// Nothing: release the socket and stop.
    Finish,
}

/// The mathematical value of a [`SessionAction`].
pub enum Action {
    Connect { endpoint: Seq<char> },
    SendSubscription { payload: Seq<char> },
    AwaitMessage { budget_secs: u64 },
    Finish,
}

impl View for SessionAction {
    type V = Action;

    open spec fn view(&self) -> Action {
        match self {
            SessionAction::Connect { endpoint } => Action::Connect { endpoint: endpoint@ },
            SessionAction::SendSubscription { payload } => Action::SendSubscription {
                payload: payload@,
            },
            SessionAction::AwaitMessage { budget_secs } => Action::AwaitMessage {
                budget_secs: *budget_secs,
            },
            SessionAction::Finish => Action::Finish,
        }
    }
}

/// An event that reports progress.
pub open spec fn progress(message: Seq<char>) -> StatusEvent {
    StatusEvent { error: false, done: false, message }
}

/// The event that closes a failed test.
pub open spec fn failure(message: Seq<char>) -> StatusEvent {
    StatusEvent { error: true, done: true, message }
}

/// The event that closes a successful test.
pub open spec fn success(message: Seq<char>) -> StatusEvent {
    StatusEvent { error: false, done: true, message }
}

/// The state that follows `state` when `outcome` is reported in it, and the
/// events to emit, in order. An outcome that answers nothing the state has
/// asked for changes nothing and emits nothing.
pub open spec fn reaction(state: SessionState, outcome: Outcome) -> (SessionState, Seq<StatusEvent>) {
    match (state, outcome) {
        (SessionState::Connecting, Outcome::Connected) => (
            SessionState::Connected,
            seq![progress(CONNECTED@)],
        ),
        (SessionState::Connecting, Outcome::ConnectFailure(detail)) => (
            SessionState::Failed,
            seq![failure(CONNECT_FAILED@ + detail)],
        ),
        (SessionState::Subscribing, Outcome::Sent) => (
            SessionState::Waiting,
            seq![progress(SUBSCRIBED@)],
        ),
        (SessionState::Subscribing, Outcome::SendFailure(detail)) => (
            SessionState::Failed,
            seq![failure(SUBSCRIBE_FAILED@ + detail)],
        ),
        (SessionState::Waiting, Outcome::Message) => (
            SessionState::Validated,
            seq![progress(RECEIVED@), success(VALIDATED@)],
        ),
        (SessionState::Waiting, Outcome::ReceiveFailure(detail)) => (
            SessionState::Failed,
            seq![failure(RECEIVE_FAILED@ + detail)],
        ),
        (SessionState::Waiting, Outcome::Disconnected) => (
            SessionState::Failed,
            seq![failure(DISCONNECTED@)],
        ),
        (SessionState::Waiting, Outcome::Timeout) => (
            SessionState::Failed,
            seq![failure(TIMED_OUT@)],
        ),
        _ => (state, Seq::empty()),
    }
}

/// The mathematical value of a [`ConnectionTestSession`].
pub struct Session {
    /// The settings under test.
    pub table: TableSettings,
    /// Where the session stands.
    pub state: SessionState,
    /// Whether the observer is still there to receive events.
    pub observed: bool,
}

impl Session {
    /// The session as it starts: about to connect, with an observer.
    pub open spec fn start(table: TableSettings) -> Session {
        Session { table, state: SessionState::Connecting, observed: true }
    }

    /// A session is only ever in `Subscribing` when it has something to send.
    pub open spec fn well_formed(self) -> bool {
        self.state is Subscribing ==> self.table.subscription_message is Some
    }

    /// Whether the driver has nothing left to do: the session has ended or
    /// its observer is gone.
    pub open spec fn stopped(self) -> bool {
        self.state.is_terminal() || !self.observed
    }

    /// The session after it has decided what to attempt next. Only a session
    /// that has just connected moves: to `Subscribing` when the table carries
    /// a subscription message, and straight to `Waiting` when it does not.
    pub open spec fn settled(self) -> Session {
        if self.observed && self.state is Connected {
            Session {
                state: if self.table.subscription_message is Some {
                    SessionState::Subscribing
                } else {
                    SessionState::Waiting
                },
                ..self
            }
        } else {
            self
        }
    }

    /// What a settled session asks of its driver.
    pub open spec fn pending(self) -> Action {
        if !self.observed {
            Action::Finish
        } else {
            match self.state {
                SessionState::Connecting => Action::Connect { endpoint: self.table.endpoint },
                SessionState::Subscribing => Action::SendSubscription {
                    payload: self.table.subscription_message->0,
                },
                SessionState::Waiting => Action::AwaitMessage { budget_secs: WAIT_BUDGET_SECS },
                _ => Action::Finish,
            }
        }
    }

    /// The session after `outcome` was reported to it. Without an observer
    /// it stays as it is.
    pub open spec fn after(self, outcome: Outcome) -> Session {
        if self.observed {
            Session { state: reaction(self.state, outcome).0, ..self }
        } else {
            self
        }
    }

    /// The events that the session emits when `outcome` is reported to it.
    /// Without an observer it emits none.
    pub open spec fn emits(self, outcome: Outcome) -> Seq<StatusEvent> {
        if self.observed {
            reaction(self.state, outcome).1
        } else {
            Seq::empty()
        }
    }
}

/// The values of a sequence of events.
pub open spec fn event_views(events: Seq<TestSourceMessage>) -> Seq<StatusEvent> {
    events.map_values(|event: TestSourceMessage| event@)
}

/// One run of the connectivity test for one table.
pub struct ConnectionTestSession {
    table: WebsocketTable,
    state: SessionState,
    observed: bool,
}

impl View for ConnectionTestSession {
    type V = Session;

    closed spec fn view(&self) -> Session {
        Session { table: self.table@, state: self.state, observed: self.observed }
    }
}

impl ConnectionTestSession {
    #[verifier::type_invariant]
    spec fn type_inv(self) -> bool {
        self@.well_formed()
    }

    /// A session for `table`, about to connect.
    pub fn new(table: WebsocketTable) -> (session: Self)
        ensures
            session@ == Session::start(table@),
    {
        ConnectionTestSession { table, state: SessionState::Connecting, observed: true }
    }

    /// Where the session stands.
    pub fn state(&self) -> (state: SessionState)
        ensures
            state == self@.state,
    {
        self.state
    }

    /// The settings under test.
    pub fn table(&self) -> (table: &WebsocketTable)
        ensures
            table@ == self@.table,
    {
        &self.table
    }

    /// Whether the observer is still there.
    pub fn is_observed(&self) -> (observed: bool)
        ensures
            observed == self@.observed,
    {
        self.observed
    }

    /// Whether the driver has nothing left to do.
    pub fn is_stopped(&self) -> (stopped: bool)
        ensures
            stopped == self@.stopped(),
    {
        !self.observed || self.state == SessionState::Validated || self.state
            == SessionState::Failed
    }

    /// Records that an event could not be delivered because the observer is
    /// gone. From then on the session emits nothing and asks for nothing.
    pub fn observer_gone(&mut self)
        ensures
            final(self)@ == (Session { observed: false, ..old(self)@ }),
            final(self)@.well_formed(),
    {
        proof {
            use_type_invariant(&*self);
        }
        self.observed = false;
    }

    /// Decides what to attempt next, and enters the state that attempts it.
    pub fn advance(&mut self) -> (action: SessionAction)
        ensures
            final(self)@ == old(self)@.settled(),
            final(self)@.well_formed(),
            action@ == old(self)@.settled().pending(),
    {
        proof {
            use_type_invariant(&*self);
        }
        if !self.observed {
            return SessionAction::Finish;
        }
        match self.state {
            SessionState::Connecting => SessionAction::Connect {
                endpoint: self.table.endpoint.clone(),
            },
            SessionState::Connected => match &self.table.subscription_message {
                Some(message) => {
                    let payload = message.0.clone();
                    self.state = SessionState::Subscribing;
                    SessionAction::SendSubscription { payload }
                },
                None => {
                    self.state = SessionState::Waiting;
                    SessionAction::AwaitMessage { budget_secs: WAIT_BUDGET_SECS }
                },
            },
            SessionState::Subscribing => match &self.table.subscription_message {
                Some(message) => SessionAction::SendSubscription { payload: message.0.clone() },
                None => vstd::pervasive::unreached(),
            },
            SessionState::Waiting => SessionAction::AwaitMessage { budget_secs: WAIT_BUDGET_SECS },
            SessionState::Validated => SessionAction::Finish,
            SessionState::Failed => SessionAction::Finish,
        }
    }

    /// Takes the outcome of the last attempt: moves to the next state and
    /// returns the events to report, in order.
    pub fn handle(&mut self, outcome: &SessionOutcome) -> (events: Vec<TestSourceMessage>)
        ensures
            final(self)@ == old(self)@.after(outcome@),
            final(self)@.well_formed(),
            event_views(events@) == old(self)@.emits(outcome@),
    {
        proof {
            use_type_invariant(&*self);
        }
        let mut events: Vec<TestSourceMessage> = Vec::new();
        if self.observed {
            match (self.state, outcome) {
                (SessionState::Connecting, SessionOutcome::Connected) => {
                    events.push(TestSourceMessage::progress(String::from_str(CONNECTED)));
                    self.state = SessionState::Connected;
                },
                (SessionState::Connecting, SessionOutcome::ConnectFailure(detail)) => {
                    events.push(
                        TestSourceMessage::failure(
                            String::from_str(CONNECT_FAILED).concat(detail.as_str()),
                        ),
                    );
                    self.state = SessionState::Failed;
                },
                (SessionState::Subscribing, SessionOutcome::Sent) => {
                    events.push(TestSourceMessage::progress(String::from_str(SUBSCRIBED)));
                    self.state = SessionState::Waiting;
                },
                (SessionState::Subscribing, SessionOutcome::SendFailure(detail)) => {
                    events.push(
                        TestSourceMessage::failure(
                            String::from_str(SUBSCRIBE_FAILED).concat(detail.as_str()),
                        ),
                    );
                    self.state = SessionState::Failed;
                },
                (SessionState::Waiting, SessionOutcome::Message) => {
                    events.push(TestSourceMessage::progress(String::from_str(RECEIVED)));
                    events.push(TestSourceMessage::success(String::from_str(VALIDATED)));
                    self.state = SessionState::Validated;
                },
                (SessionState::Waiting, SessionOutcome::ReceiveFailure(detail)) => {
                    events.push(
                        TestSourceMessage::failure(
                            String::from_str(RECEIVE_FAILED).concat(detail.as_str()),
                        ),
                    );
                    self.state = SessionState::Failed;
                },
                (SessionState::Waiting, SessionOutcome::Disconnected) => {
                    events.push(TestSourceMessage::failure(String::from_str(DISCONNECTED)));
                    self.state = SessionState::Failed;
                },
                (SessionState::Waiting, SessionOutcome::Timeout) => {
                    events.push(TestSourceMessage::failure(String::from_str(TIMED_OUT)));
                    self.state = SessionState::Failed;
                },
                _ => {},
            }
        }
        assert(event_views(events@) =~= old(self)@.emits(outcome@));
        events
    }
}

} // verus!
