//! One reload session: the decisions taken on each thing that happens to an
//! upgraded connection. The caller owns the transport and the subscription,
//! waits for whichever is ready first, hands the outcome in as an event, and
//! carries out the action that comes back.

use vstd::prelude::*;

verus! {

/// The payload of the text frame that tells a browser to reload.
pub const RELOAD_MESSAGE: &'static str = "reload";

/// A frame received from the browser.
pub enum Frame {
    Text(String),
    Binary(Vec<u8>),
    Ping(Vec<u8>),
    Pong(Vec<u8>),
    Close,
}

/// What can happen to a running session.
pub enum SessionEvent {
    /// A frame arrived.
    Received(Frame),
    /// Reading from the connection failed.
    ReceiveFailed,
    /// The connection has no more frames.
    InboundEnded,
    /// The subscription delivered a change.
    Changed,
    /// The subscription fell behind and skipped older changes.
    Lagged,
    /// The subscription can deliver nothing more.
    SubscriptionClosed,
    /// The last frame sent could not be written.
    SendFailed,
}

/// A frame that the session sends.
pub enum Outgoing {
    /// The answer to a ping, with its payload.
    Pong(Vec<u8>),
    /// The text frame `reload`.
    Reload,
}

/// What the caller does next.
pub enum SessionAction {
    Nothing,
    Send(Outgoing),
    /// Close the transport and drop the subscription.
    Close,
}

#[derive(PartialEq, Eq, Structural, Clone, Copy, Debug)]
pub enum SessionState {
    /// Waiting for frames and changes.
    Running,
    /// Done: the transport has been released.
    Closed,
}

pub enum FrameView {
    Text(Seq<char>),
    Binary(Seq<u8>),
    Ping(Seq<u8>),
    Pong(Seq<u8>),
    Close,
}

pub enum EventView {
    Received(FrameView),
    ReceiveFailed,
    InboundEnded,
    Changed,
    Lagged,
    SubscriptionClosed,
    SendFailed,
}

pub enum ActionView {
    Nothing,
    SendPong(Seq<u8>),
    SendReload,
    Close,
}

impl View for Frame {
    type V = FrameView;

    open spec fn view(&self) -> FrameView {
        match self {
            Frame::Text(t) => FrameView::Text(t@),
            Frame::Binary(b) => FrameView::Binary(b@),
            Frame::Ping(p) => FrameView::Ping(p@),
            Frame::Pong(p) => FrameView::Pong(p@),
            Frame::Close => FrameView::Close,
        }
    }
}

impl View for SessionEvent {
    type V = EventView;

    open spec fn view(&self) -> EventView {
        match self {
            SessionEvent::Received(f) => EventView::Received(f@),
            SessionEvent::ReceiveFailed => EventView::ReceiveFailed,
            SessionEvent::InboundEnded => EventView::InboundEnded,
            SessionEvent::Changed => EventView::Changed,
            SessionEvent::Lagged => EventView::Lagged,
            SessionEvent::SubscriptionClosed => EventView::SubscriptionClosed,
            SessionEvent::SendFailed => EventView::SendFailed,
        }
    }
}

impl View for SessionAction {
    type V = ActionView;

    open spec fn view(&self) -> ActionView {
        match self {
            SessionAction::Nothing => ActionView::Nothing,
            SessionAction::Send(Outgoing::Pong(p)) => ActionView::SendPong(p@),
            SessionAction::Send(Outgoing::Reload) => ActionView::SendReload,
            SessionAction::Close => ActionView::Close,
        }
    }
}

/// One step of a session: a ping is answered with a pong of the same payload;
/// a change (or a lag, which means changes were missed) sends `reload`; a close
/// frame, a failure on either side, the end of the connection or of the
/// subscription closes the session; any other frame is ignored; a closed
/// session does nothing more.
pub open spec fn step(s: SessionState, e: EventView) -> (SessionState, ActionView) {
    match s {
        SessionState::Closed => (SessionState::Closed, ActionView::Nothing),
        SessionState::Running => match e {
            EventView::Received(FrameView::Ping(p)) => (SessionState::Running, ActionView::SendPong(p)),
            EventView::Received(FrameView::Close) => (SessionState::Closed, ActionView::Close),
            EventView::Received(_) => (SessionState::Running, ActionView::Nothing),
            EventView::Changed => (SessionState::Running, ActionView::SendReload),
            EventView::Lagged => (SessionState::Running, ActionView::SendReload),
            _ => (SessionState::Closed, ActionView::Close),
        },
    }
}

/// The state after a sequence of events.
pub open spec fn run_state(s: SessionState, evs: Seq<EventView>) -> SessionState
    decreases evs.len(),
{
    if evs.len() == 0 {
        s
    } else {
        run_state(step(s, evs[0]).0, evs.drop_first())
    }
}

/// The actions taken over a sequence of events, one per event.
pub open spec fn run_actions(s: SessionState, evs: Seq<EventView>) -> Seq<ActionView>
    decreases evs.len(),
{
    if evs.len() == 0 {
        seq![]
    } else {
        seq![step(s, evs[0]).1] + run_actions(step(s, evs[0]).0, evs.drop_first())
    }
}

/// How many of `acts` close the transport.
pub open spec fn close_count(acts: Seq<ActionView>) -> nat
    decreases acts.len(),
{
    if acts.len() == 0 {
        0
    } else {
        close_count(acts.drop_last()) + if acts.last() == ActionView::Close {
            1nat
        } else {
            0nat
        }
    }
}

/// `n` actions that do nothing.
pub open spec fn idle(n: nat) -> Seq<ActionView> {
    Seq::new(n, |i: int| ActionView::Nothing)
}

/// A session, as the decisions see it.
pub struct Session {
    state: SessionState,
}

impl View for Session {
    type V = SessionState;

    closed spec fn view(&self) -> SessionState {
        self.state
    }
}

impl Session {
    /// A session whose handshake is done.
    pub fn new() -> (r: Session)
        ensures
            r@ == SessionState::Running,
    {
        Session { state: SessionState::Running }
    }

    /// The current state.
    pub fn state(&self) -> (r: SessionState)
        ensures
            r == self@,
    {
        self.state
    }

    /// Whether the session still waits for frames and changes.
    pub fn is_running(&self) -> (r: bool)
        ensures
            r == (self@ == SessionState::Running),
    {
        self.state == SessionState::Running
    }

    /// Takes one event and says what to do about it.
    pub fn on_event(&mut self, e: SessionEvent) -> (a: SessionAction)
        ensures
            (final(self)@, a@) == step(old(self)@, e@),
    {
        if self.state == SessionState::Closed {
            return SessionAction::Nothing;
        }
        match e {
            SessionEvent::Received(Frame::Ping(p)) => SessionAction::Send(Outgoing::Pong(p)),
            SessionEvent::Received(Frame::Close) => {
                self.state = SessionState::Closed;
                SessionAction::Close
            },
            SessionEvent::Received(_) => SessionAction::Nothing,
            SessionEvent::Changed => SessionAction::Send(Outgoing::Reload),
            SessionEvent::Lagged => SessionAction::Send(Outgoing::Reload),
            _ => {
                self.state = SessionState::Closed;
                SessionAction::Close
            },
        }
    }
}

/// Running a sequence in two parts is running the first, then the second
/// from where the first left off.
pub proof fn lemma_run_append(s: SessionState, a: Seq<EventView>, b: Seq<EventView>)
    ensures
        run_state(s, a + b) == run_state(run_state(s, a), b),
        run_actions(s, a + b) == run_actions(s, a) + run_actions(run_state(s, a), b),
    decreases a.len(),
{
    if a.len() == 0 {
        assert(a + b =~= b);
        assert(run_actions(s, a) + run_actions(s, b) =~= run_actions(s, b));
    } else {
        assert((a + b).drop_first() =~= a.drop_first() + b);
        lemma_run_append(step(s, a[0]).0, a.drop_first(), b);
        assert(run_actions(s, a + b) =~= run_actions(s, a) + run_actions(run_state(s, a), b));
    }
}

/// Running a single event is one step.
pub proof fn lemma_run_one(s: SessionState, e: EventView)
    ensures
        run_state(s, seq![e]) == step(s, e).0,
        run_actions(s, seq![e]) == seq![step(s, e).1],
{
    let rest = seq![e].drop_first();
    assert(rest =~= Seq::<EventView>::empty());
    assert(run_state(step(s, e).0, rest) == step(s, e).0);
    assert(run_actions(step(s, e).0, rest) =~= Seq::<ActionView>::empty());
    assert(run_actions(s, seq![e]) =~= seq![step(s, e).1]);
}

/// A closed session stays closed and does nothing, whatever happens.
pub proof fn lemma_closed_is_final(evs: Seq<EventView>)
    ensures
        run_state(SessionState::Closed, evs) == SessionState::Closed,
        run_actions(SessionState::Closed, evs) == idle(evs.len()),
    decreases evs.len(),
{
    if evs.len() == 0 {
        assert(run_actions(SessionState::Closed, evs) =~= idle(0));
    } else {
        lemma_closed_is_final(evs.drop_first());
        assert(run_actions(SessionState::Closed, evs) =~= idle(evs.len()));
    }
}

/// A ping to a running session is answered at once by exactly one pong that
/// carries the same payload, and the session keeps running.
pub proof fn lemma_ping_answered(s: SessionState, before: Seq<EventView>, p: Seq<u8>)
    requires
        run_state(s, before) == SessionState::Running,
    ensures
        run_state(s, before.push(EventView::Received(FrameView::Ping(p))))
            == SessionState::Running,
        run_actions(s, before.push(EventView::Received(FrameView::Ping(p)))) == run_actions(
            s,
            before,
        ).push(ActionView::SendPong(p)),
{
    let e = EventView::Received(FrameView::Ping(p));
    assert(before.push(e) =~= before + seq![e]);
    lemma_run_append(s, before, seq![e]);
    lemma_run_one(SessionState::Running, e);
    assert(run_actions(s, before) + seq![ActionView::SendPong(p)] =~= run_actions(s, before).push(
        ActionView::SendPong(p),
    ));
}

/// A close frame or a receive failure ends the session: it is closed after
/// whatever follows, and nothing is sent or closed again afterwards.
pub proof fn lemma_close_ends_session(
    s: SessionState,
    before: Seq<EventView>,
    e: EventView,
    after: Seq<EventView>,
)
    requires
        e == EventView::Received(FrameView::Close) || e == EventView::ReceiveFailed,
    ensures
        run_state(s, before.push(e) + after) == SessionState::Closed,
        run_actions(s, before.push(e) + after) == run_actions(s, before.push(e)) + idle(
            after.len(),
        ),
{
    assert(before.push(e) =~= before + seq![e]);
    lemma_run_append(s, before, seq![e]);
    lemma_run_one(run_state(s, before), e);
    lemma_run_append(s, before.push(e), after);
    lemma_closed_is_final(after);
}

/// A session that starts running closes its transport exactly once if it
/// has ended, and never otherwise.
pub proof fn lemma_closed_once(evs: Seq<EventView>)
    ensures
        close_count(run_actions(SessionState::Running, evs)) == if run_state(
            SessionState::Running,
            evs,
        ) == SessionState::Closed {
            1nat
        } else {
            0nat
        },
    decreases evs.len(),
{
    if evs.len() > 0 {
        let last = evs.last();
        let init = evs.drop_last();
        assert(evs =~= init + seq![last]);
        lemma_run_append(SessionState::Running, init, seq![last]);
        lemma_closed_once(init);
        let mid = run_state(SessionState::Running, init);
        lemma_run_one(mid, last);
        let acts = run_actions(SessionState::Running, evs);
        assert(acts.drop_last() =~= run_actions(SessionState::Running, init));
        assert(acts.last() == step(mid, last).1);
        if mid == SessionState::Closed {
            assert(step(mid, last).1 == ActionView::Nothing);
        }
    }
}

/// How many of `states` are running.
pub open spec fn running_count(states: Seq<SessionState>) -> nat
    decreases states.len(),
{
    if states.len() == 0 {
        0
    } else {
        running_count(states.drop_last()) + if states.last() == SessionState::Running {
            1nat
        } else {
            0nat
        }
    }
}

/// What each of `states` does on one published change.
pub open spec fn deliver(states: Seq<SessionState>) -> Seq<ActionView> {
    states.map_values(|s: SessionState| step(s, EventView::Changed).1)
}

/// How many of `acts` send `reload`.
pub open spec fn reload_count(acts: Seq<ActionView>) -> nat
    decreases acts.len(),
{
    if acts.len() == 0 {
        0
    } else {
        reload_count(acts.drop_last()) + if acts.last() == ActionView::SendReload {
            1nat
        } else {
            0nat
        }
    }
}

/// One published change makes every connected session send exactly one
/// `reload` frame, and the others nothing: as many frames as sessions
/// still connected.
pub proof fn lemma_one_reload_per_session(states: Seq<SessionState>)
    ensures
        deliver(states).len() == states.len(),
        forall|i: int|
            0 <= i < states.len() ==> #[trigger] deliver(states)[i] == if states[i]
                == SessionState::Running {
                ActionView::SendReload
            } else {
                ActionView::Nothing
            },
        reload_count(deliver(states)) == running_count(states),
    decreases states.len(),
{
    if states.len() > 0 {
        lemma_one_reload_per_session(states.drop_last());
        assert(deliver(states).drop_last() =~= deliver(states.drop_last()));
    }
}

/// Ending one session leaves every other session as it was: each of them
/// still answers the next change as before.
pub proof fn lemma_disconnect_isolated(states: Seq<SessionState>, i: int, e: EventView)
    requires
        0 <= i < states.len(),
    ensures
        forall|j: int|
            0 <= j < states.len() && j != i ==> #[trigger] deliver(
                states.update(i, step(states[i], e).0),
            )[j] == deliver(states)[j],
        states[i] == SessionState::Running && (e == EventView::Received(FrameView::Close)
            || e == EventView::ReceiveFailed) ==> deliver(states.update(i, step(states[i], e).0))[i]
            == ActionView::Nothing,
{
}

} // verus!
