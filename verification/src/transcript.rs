//! Whole runs of the connectivity test: what a session emits when it is fed
//! a script of outcomes, and what holds of every such run.

use vstd::prelude::*;
use crate::event::{StatusEvent, TestSourceMessage};
use crate::session::{
    event_views, failure, progress, Action, ConnectionTestSession, Outcome, Session,
    SessionOutcome, SessionState, CONNECT_FAILED, SUBSCRIBED, TIMED_OUT,
};
use crate::table::{TableSettings, WebsocketTable};

verus! {

/// An event together with the state that the session was in when it emitted
/// the event.
pub struct Emission {
    pub phase: SessionState,
    pub event: StatusEvent,
}

/// The events of a sequence of emissions.
pub open spec fn events_of(emissions: Seq<Emission>) -> Seq<StatusEvent> {
    emissions.map_values(|emission: Emission| emission.event)
}

/// The values of a script of outcomes.
pub open spec fn outcome_views(script: Seq<SessionOutcome>) -> Seq<Outcome> {
    script.map_values(|outcome: SessionOutcome| outcome@)
}

impl Session {
    /// One turn of the driver: the session decides what to attempt, and the
    /// attempt ends in `outcome`.
    pub open spec fn turn(self, outcome: Outcome) -> Session {
        self.settled().after(outcome)
    }

    /// What the session emits in that turn, each event with the state that
    /// emitted it.
    pub open spec fn turn_emissions(self, outcome: Outcome) -> Seq<Emission> {
        let phase = self.settled().state;
        self.settled().emits(outcome).map_values(|event: StatusEvent| Emission { phase, event })
    }

    /// The session after the driver has gone through `script`, one turn for
    /// each outcome.
    pub open spec fn run(self, script: Seq<Outcome>) -> Session
        decreases script.len(),
    {
        if script.len() == 0 {
            self
        } else {
            self.run(script.drop_last()).turn(script.last())
        }
    }

    /// Everything the session emits while the driver goes through `script`.
    pub open spec fn trace(self, script: Seq<Outcome>) -> Seq<Emission>
        decreases script.len(),
    {
        if script.len() == 0 {
            Seq::empty()
        } else {
            self.trace(script.drop_last()) + self.run(script.drop_last()).turn_emissions(
                script.last(),
            )
        }
    }

    /// The events that the observer is sent while the driver goes through
    /// `script`.
    pub open spec fn transcript(self, script: Seq<Outcome>) -> Seq<StatusEvent> {
        events_of(self.trace(script))
    }
}

/// The emission that confirms the subscription.
pub open spec fn subscription_confirmed() -> Emission {
    Emission { phase: SessionState::Subscribing, event: progress(SUBSCRIBED@) }
}

/// What the trace of a run looks like, by the state that the run has reached.
/// It is the induction hypothesis behind the statements below.
spec fn shaped(table: TableSettings, script: Seq<Outcome>) -> bool {
    let session = Session::start(table).run(script);
    let trace = Session::start(table).trace(script);
    &&& session.table == table
    &&& session.observed
    &&& session.well_formed()
    &&& match session.state {
        SessionState::Connecting => trace.len() == 0,
        SessionState::Connected => trace.len() == 1,
        SessionState::Subscribing => trace.len() == 1,
        SessionState::Waiting => 1 <= trace.len() <= 2,
        SessionState::Validated => 3 <= trace.len() <= 4,
        SessionState::Failed => 1 <= trace.len() <= 3,
    }
    &&& session.state.is_terminal() <==> trace.len() > 0 && trace.last().event.done
    &&& forall|i: int| 0 <= i < trace.len() - 1 ==> !(#[trigger] trace[i]).event.done
    &&& forall|i: int|
        0 <= i < trace.len() && (#[trigger] trace[i]).phase is Subscribing
            ==> table.subscription_message is Some
    &&& table.subscription_message is Some ==> {
        &&& session.state is Waiting || session.state is Validated || trace.len() >= 3
            ==> trace.len() >= 2 && trace[1] == subscription_confirmed()
        &&& forall|i: int|
            0 <= i < trace.len() && (#[trigger] trace[i]).phase is Waiting ==> i >= 2
    }
}

proof fn lemma_shaped(table: TableSettings, script: Seq<Outcome>)
    ensures
        shaped(table, script),
    decreases script.len(),
{
    if script.len() > 0 {
        lemma_shaped(table, script.drop_last());
        let before = Session::start(table).run(script.drop_last());
        let emitted = before.turn_emissions(script.last());
        let earlier = Session::start(table).trace(script.drop_last());
        let trace = Session::start(table).trace(script);
        assert(trace == earlier + emitted);
        assert(forall|i: int| 0 <= i < earlier.len() ==> trace[i] == earlier[i]);
        assert(forall|i: int|
            earlier.len() <= i < trace.len() ==> trace[i] == emitted[i - earlier.len()]);
    }
}

/// A session that has ended stays as it is and emits nothing more, whatever
/// is reported to it.
pub proof fn lemma_ended_session_is_silent(table: TableSettings, script: Seq<Outcome>, k: int)
    requires
        0 <= k <= script.len(),
        Session::start(table).run(script.take(k)).state.is_terminal(),
    ensures
        Session::start(table).run(script) == Session::start(table).run(script.take(k)),
        Session::start(table).trace(script) == Session::start(table).trace(script.take(k)),
    decreases script.len() - k,
{
    if k == script.len() {
        assert(script.take(k) == script);
    } else {
        assert(script.drop_last().take(k) == script.take(k));
        lemma_ended_session_is_silent(table, script.drop_last(), k);
        let before = Session::start(table).run(script.drop_last());
        assert(before.turn_emissions(script.last()) =~= Seq::<Emission>::empty());
        assert(Session::start(table).trace(script) =~= Session::start(table).trace(
            script.drop_last(),
        ));
    }
}

/// Every run keeps its table and its observer. It is in `Subscribing` only
/// when the table carries a subscription message, and only then does it emit
/// anything while subscribing.
pub proof fn lemma_subscribing_needs_a_message(table: TableSettings, script: Seq<Outcome>)
    ensures
        Session::start(table).run(script).table == table,
        Session::start(table).run(script).observed,
        Session::start(table).run(script).state is Subscribing
            ==> table.subscription_message is Some,
        table.subscription_message is None ==> forall|i: int|
            0 <= i < Session::start(table).trace(script).len() ==> !((
            #[trigger] Session::start(table).trace(script)[i]).phase is Subscribing),
{
    lemma_shaped(table, script);
}

/// From every state but the two final ones, one turn can end the test in
/// failure.
pub proof fn lemma_failure_is_one_turn_away(session: Session)
    requires
        session.observed,
        session.well_formed(),
        !session.state.is_terminal(),
    ensures
        exists|outcome: Outcome| (#[trigger] session.turn(outcome)).state is Failed,
{
    let outcome = match session.settled().state {
        SessionState::Connecting => Outcome::ConnectFailure(Seq::empty()),
        SessionState::Subscribing => Outcome::SendFailure(Seq::empty()),
        _ => Outcome::Timeout,
    };
    assert(session.turn(outcome).state is Failed);
}

/// Whether `outcome` is one of the ways in which the attempt `action` can end.
pub open spec fn answers(action: Action, outcome: Outcome) -> bool {
    match action {
        Action::Connect { .. } => outcome is Connected || outcome is ConnectFailure,
        Action::SendSubscription { .. } => outcome is Sent || outcome is SendFailure,
        Action::AwaitMessage { .. } => outcome is Message || outcome is ReceiveFailure
            || outcome is Disconnected || outcome is Timeout,
        Action::Finish => false,
    }
}

/// One more outcome is one more turn.
proof fn lemma_one_more_turn(table: TableSettings, script: Seq<Outcome>, k: int)
    requires
        0 <= k < script.len(),
    ensures
        Session::start(table).run(script.take(k + 1)) == Session::start(table).run(
            script.take(k),
        ).turn(script[k]),
{
    assert(script.take(k + 1).drop_last() == script.take(k));
}

/// A driver that reports how each of its attempts ended brings the session
/// to its end within three turns.
pub proof fn lemma_session_ends_within_three_turns(table: TableSettings, script: Seq<Outcome>)
    requires
        script.len() >= 3,
        forall|k: int|
            0 <= k < script.len() && !Session::start(table).run(
                #[trigger] script.take(k),
            ).state.is_terminal() ==> answers(
                Session::start(table).run(script.take(k)).settled().pending(),
                script[k],
            ),
    ensures
        Session::start(table).run(script).state.is_terminal(),
{
    lemma_shaped(table, script.take(0));
    lemma_one_more_turn(table, script, 0);
    lemma_shaped(table, script.take(1));
    lemma_one_more_turn(table, script, 1);
    lemma_shaped(table, script.take(2));
    lemma_one_more_turn(table, script, 2);
    lemma_ended_session_is_silent(table, script, 3);
}

/// No run emits more than four events.
pub proof fn lemma_at_most_four_events(table: TableSettings, script: Seq<Outcome>)
    ensures
        Session::start(table).transcript(script).len() <= 4,
{
    lemma_shaped(table, script);
}

/// Of every run: the trace holds at most one closing event, and if it holds
/// one it is the last; a run that has ended has emitted at least one event,
/// and its last event is the closing one; a run that has not ended has
/// emitted no closing event.
pub proof fn lemma_one_closing_event_last(table: TableSettings, script: Seq<Outcome>)
    ensures
        ({
            let session = Session::start(table).run(script);
            let events = Session::start(table).transcript(script);
            &&& forall|i: int|
                0 <= i < events.len() && (#[trigger] events[i]).done ==> i == events.len() - 1
            &&& session.state.is_terminal() ==> events.len() > 0 && events.last().done
            &&& !session.state.is_terminal() ==> forall|i: int|
                0 <= i < events.len() ==> !(#[trigger] events[i]).done
        }),
{
    lemma_shaped(table, script);
}

/// When the first connection attempt fails, the whole run emits exactly one
/// event: the failure, which closes the test.
pub proof fn lemma_failed_connect_emits_one_event(table: TableSettings, script: Seq<Outcome>)
    requires
        script.len() > 0,
        script[0] is ConnectFailure,
    ensures
        Session::start(table).run(script).state is Failed,
        Session::start(table).transcript(script) == seq![
            failure(CONNECT_FAILED@ + script[0]->ConnectFailure_0),
        ],
        Session::start(table).transcript(script).len() == 1,
        Session::start(table).transcript(script)[0].error,
        Session::start(table).transcript(script)[0].done,
{
    let first = script.take(1);
    assert(first.drop_last() == Seq::<Outcome>::empty());
    assert(first.last() == script[0]);
    assert(Session::start(table).run(first.drop_last()) == Session::start(table));
    assert(Session::start(table).trace(first.drop_last()) == Seq::<Emission>::empty());
    let emitted = Session::start(table).turn_emissions(script[0]);
    assert(Session::start(table).trace(first) =~= emitted);
    lemma_ended_session_is_silent(table, script, 1);
    assert(Session::start(table).transcript(script) =~= seq![
        failure(CONNECT_FAILED@ + script[0]->ConnectFailure_0),
    ]);
}

/// When the wait budget elapses while the session waits, the session emits
/// the time-out as its closing event, fails, and emits nothing after it,
/// whatever the rest of the script holds.
pub proof fn lemma_timeout_closes_the_run(table: TableSettings, script: Seq<Outcome>, k: int)
    requires
        0 <= k < script.len(),
        Session::start(table).run(script.take(k)).settled().state is Waiting,
        script[k] is Timeout,
    ensures
        Session::start(table).run(script).state is Failed,
        Session::start(table).transcript(script) == Session::start(table).transcript(
            script.take(k),
        ).push(failure(TIMED_OUT@)),
{
    let upto = script.take(k + 1);
    assert(upto.drop_last() == script.take(k));
    assert(upto.last() == script[k]);
    lemma_shaped(table, script.take(k));
    let before = Session::start(table).run(script.take(k));
    assert(before.turn_emissions(script[k]) =~= seq![
        Emission { phase: SessionState::Waiting, event: failure(TIMED_OUT@) },
    ]);
    lemma_ended_session_is_silent(table, script, k + 1);
    assert(Session::start(table).transcript(script) =~= Session::start(table).transcript(
        script.take(k),
    ).push(failure(TIMED_OUT@)));
}

/// When the table carries a subscription message, every event that the
/// session emits while waiting comes strictly after the event that confirms
/// the subscription.
pub proof fn lemma_subscription_confirmed_before_waiting(
    table: TableSettings,
    script: Seq<Outcome>,
)
    requires
        table.subscription_message is Some,
    ensures
        forall|j: int|
            0 <= j < Session::start(table).trace(script).len() && (#[trigger] Session::start(
                table,
            ).trace(script)[j]).phase is Waiting ==> exists|i: int|
                0 <= i < j && #[trigger] Session::start(table).trace(script)[i]
                    == subscription_confirmed(),
{
    lemma_shaped(table, script);
    let trace = Session::start(table).trace(script);
    assert forall|j: int| 0 <= j < trace.len() && (#[trigger] trace[j]).phase is Waiting implies exists|
        i: int,
    |
        0 <= i < j && #[trigger] trace[i] == subscription_confirmed() by {
        assert(trace[1] == subscription_confirmed());
    }
}

impl ConnectionTestSession {
    /// Runs a session for `table` through `script`, one turn for each
    /// outcome, and returns every event that the session emits, in order.
    pub fn replay(table: WebsocketTable, script: &Vec<SessionOutcome>) -> (events: Vec<
        TestSourceMessage,
    >)
        ensures
            event_views(events@) == Session::start(table@).transcript(outcome_views(script@)),
    {
        let ghost start = Session::start(table@);
        let ghost outcomes = outcome_views(script@);
        let mut session = ConnectionTestSession::new(table);
        let mut events: Vec<TestSourceMessage> = Vec::new();
        let mut i: usize = 0;
        assert(start.trace(outcomes.take(0)) =~= Seq::<Emission>::empty());
        assert(event_views(events@) =~= start.transcript(outcomes.take(0)));
        while i < script.len()
            invariant
                0 <= i <= script.len(),
                outcomes == outcome_views(script@),
                session@ == start.run(outcomes.take(i as int)),
                event_views(events@) == start.transcript(outcomes.take(i as int)),
            decreases script.len() - i,
        {
            let ghost before = session@;
            let ghost earlier = events@;
            session.advance();
            let mut emitted = session.handle(&script[i]);
            let ghost batch = emitted@;
            events.append(&mut emitted);
            proof {
                let upto = outcomes.take(i + 1);
                assert(upto.drop_last() == outcomes.take(i as int));
                assert(upto.last() == script@[i as int]@);
                assert(event_views(earlier + batch) =~= event_views(earlier) + event_views(batch));
                assert(events_of(before.turn_emissions(upto.last())) =~= before.settled().emits(
                    upto.last(),
                ));
                assert(events_of(
                    start.trace(outcomes.take(i as int)) + before.turn_emissions(upto.last()),
                ) =~= events_of(start.trace(outcomes.take(i as int))) + events_of(
                    before.turn_emissions(upto.last()),
                ));
            }
            i = i + 1;
        }
        assert(outcomes.take(i as int) == outcomes);
        events
    }
}

} // verus!
