use crate::protocol::ConnectionState;
use crate::server::network::PacketProcessingError;
use vstd::prelude::*;

verus! {

/// What happened since the client's connection last made progress.
#[derive(Debug, PartialEq, Eq)]
pub enum SessionEvent {
    /// A read finished: a packet was handled or a keep-alive sent, or it failed.
    Read(Result<(), PacketProcessingError>),
    /// The queue pushed this player.
    Pushed,
    /// The queue let go of the player's push handle without pushing them.
    PushDropped,
}

/// What the connection has to do next, in order.
#[derive(Clone, Copy, Debug, PartialEq, Eq, Structural)]
pub enum SessionAction {
    /// Put the player at the back of the queue, with a fresh push handle.
    Enqueue,
    /// Start refreshing the queue display.
    StartDisplay,
    /// Stop refreshing the queue display.
    StopDisplay,
    /// Send the boss bar removal, if the display has one.
    RemoveBossBar,
    /// Take the player out of the queue.
    Dequeue,
    /// Send the player on as the push says.
    Deliver,
    /// Stop waiting for a push: the queue let go of the player's push handle.
    ForgetPush,
    /// Close the connection.
    Shutdown,
    /// Count the player as gone from the game.
    LeaveGame,
}

/// The state of a client's connection as the contracts see it.
#[derive(Clone, Copy, Debug, PartialEq, Eq, Structural)]
pub struct SessionState {
    /// The client has reached the play state.
    pub was_in_play_state: bool,
    /// The player was put in the queue.
    pub queued: bool,
    /// The queue display is being refreshed.
    pub display_running: bool,
    /// The server runs a queue.
    pub queue_enabled: bool,
    /// The connection is done.
    pub finished: bool,
}

impl SessionState {
    /// Only a player in play joins the queue, only a queued player sees the display,
    /// and a finished connection refreshes nothing.
    pub open spec fn wf(self) -> bool {
        &&& self.queued ==> self.was_in_play_state && self.queue_enabled
        &&& self.display_running ==> self.queued
        &&& self.finished ==> !self.display_running
    }
}

/// The actions that end a connection, after `actions`: stop the display, leave the
/// queue, close the connection, and count the player out of the game if they were in it.
pub open spec fn session_finish(s: SessionState, actions: Seq<SessionAction>) -> (
    SessionState,
    Seq<SessionAction>,
) {
    let stop = if s.display_running {
        seq![SessionAction::StopDisplay]
    } else {
        seq![]
    };
    let leave_queue = if s.queue_enabled {
        seq![SessionAction::Dequeue]
    } else {
        seq![]
    };
    let leave_game = if s.was_in_play_state {
        seq![SessionAction::LeaveGame]
    } else {
        seq![]
    };
    (
        SessionState { display_running: false, finished: true, ..s },
        actions + stop + leave_queue + seq![SessionAction::Shutdown] + leave_game,
    )
}

/// One turn of a client's connection: a disconnect ends it; a player in play who is
/// not queued yet joins the queue and gets the display; a push stops the display,
/// removes the boss bar, takes the player out of the queue, sends them on, and ends
/// the connection; a dropped push handle is no longer waited on.
pub open spec fn session_step(s: SessionState, event: SessionEvent) -> (
    SessionState,
    Seq<SessionAction>,
) {
    if event matches SessionEvent::Read(Err(PacketProcessingError::Disconnected)) {
        session_finish(s, seq![])
    } else {
        let joins = s.was_in_play_state && !s.queued && s.queue_enabled;
        let s1 = if joins {
            SessionState { queued: true, display_running: true, ..s }
        } else {
            s
        };
        let join_actions = if joins {
            seq![SessionAction::Enqueue, SessionAction::StartDisplay]
        } else {
            seq![]
        };
        if event is Pushed {
            let stop = if s1.display_running {
                seq![SessionAction::StopDisplay]
            } else {
                seq![]
            };
            let leave_queue = if s.queue_enabled {
                seq![SessionAction::RemoveBossBar, SessionAction::Dequeue]
            } else {
                seq![]
            };
            session_finish(
                SessionState { display_running: false, ..s1 },
                join_actions + stop + leave_queue + seq![SessionAction::Deliver],
            )
        } else if event is PushDropped {
            (s1, join_actions + seq![SessionAction::ForgetPush])
        } else {
            (s1, join_actions)
        }
    }
}

/// The decisions of one client's connection while it waits in the queue.
pub struct ClientSession {
    state: SessionState,
}

impl View for ClientSession {
    type V = SessionState;

    closed spec fn view(&self) -> SessionState {
        self.state
    }
}

impl ClientSession {
    /// A new connection, to a server that runs a queue or not.
    pub fn new(queue_enabled: bool) -> (session: Self)
        ensures
            session@ == (SessionState {
                was_in_play_state: false,
                queued: false,
                display_running: false,
                queue_enabled,
                finished: false,
            }),
            session@.wf(),
    {
        ClientSession {
            state: SessionState {
                was_in_play_state: false,
                queued: false,
                display_running: false,
                queue_enabled,
                finished: false,
            },
        }
    }

    /// Whether the connection is done.
    pub fn is_finished(&self) -> (finished: bool)
        ensures
            finished == self@.finished,
    {
        self.state.finished
    }

    /// Whether the client has reached the play state.
    pub fn was_in_play_state(&self) -> (in_play: bool)
        ensures
            in_play == self@.was_in_play_state,
    {
        self.state.was_in_play_state
    }

    /// Notes the client's state after a packet was handled. Returns whether the
    /// client has just joined the game, which happens once per connection.
    pub fn note_client_state(&mut self, state: ConnectionState) -> (joined: bool)
        requires
            old(self)@.wf(),
        ensures
            joined == joins_game(old(self)@, state),
            final(self)@ == session_note(old(self)@, state),
            joined == (!old(self)@.was_in_play_state && state == ConnectionState::Play),
            final(self)@.was_in_play_state == (old(self)@.was_in_play_state || state
                == ConnectionState::Play),
            final(self)@.queued == old(self)@.queued,
            final(self)@.display_running == old(self)@.display_running,
            final(self)@.queue_enabled == old(self)@.queue_enabled,
            final(self)@.finished == old(self)@.finished,
            final(self)@.wf(),
    {
        if !self.state.was_in_play_state && state == ConnectionState::Play {
            self.state.was_in_play_state = true;
            true
        } else {
            false
        }
    }

    /// Decides what the connection does after `event`.
    pub fn step(&mut self, event: SessionEvent) -> (actions: Vec<SessionAction>)
        requires
            old(self)@.wf(),
            !old(self)@.finished,
        ensures
            (final(self)@, actions@) == session_step(old(self)@, event),
            final(self)@.wf(),
    {
        let mut actions: Vec<SessionAction> = Vec::new();
        let disconnected = match &event {
            SessionEvent::Read(Err(PacketProcessingError::Disconnected)) => true,
            _ => false,
        };
        if !disconnected {
            if self.state.was_in_play_state && !self.state.queued && self.state.queue_enabled {
                self.state.queued = true;
                self.state.display_running = true;
                actions.push(SessionAction::Enqueue);
                actions.push(SessionAction::StartDisplay);
            }
            let pushed = match &event {
                SessionEvent::Pushed => true,
                _ => false,
            };
            if !pushed {
                if let SessionEvent::PushDropped = &event {
                    actions.push(SessionAction::ForgetPush);
                }
                return actions;
            }
            if self.state.display_running {
                self.state.display_running = false;
                actions.push(SessionAction::StopDisplay);
            }
            if self.state.queue_enabled {
                actions.push(SessionAction::RemoveBossBar);
                actions.push(SessionAction::Dequeue);
            }
            actions.push(SessionAction::Deliver);
        }
        if self.state.display_running {
            self.state.display_running = false;
            actions.push(SessionAction::StopDisplay);
        }
        if self.state.queue_enabled {
            actions.push(SessionAction::Dequeue);
        }
        actions.push(SessionAction::Shutdown);
        if self.state.was_in_play_state {
            actions.push(SessionAction::LeaveGame);
        }
        self.state.finished = true;
        actions
    }
}


/// A connection ends exactly when the client disconnects or the queue pushes the
/// player, and an ended connection refreshes no display.
pub proof fn lemma_session_ends(s: SessionState, event: SessionEvent)
    requires
        s.wf(),
        !s.finished,
    ensures
        session_step(s, event).0.finished <==> (event matches SessionEvent::Read(
            Err(PacketProcessingError::Disconnected),
        ) || event is Pushed),
        session_step(s, event).0.wf(),
{
}

/// A player joins the queue at most once per connection, and only once in play on a
/// server that runs a queue.
pub proof fn lemma_enqueued_once(s: SessionState, event: SessionEvent)
    requires
        s.wf(),
        !s.finished,
    ensures
        session_step(s, event).1.contains(SessionAction::Enqueue) ==> !s.queued
            && s.was_in_play_state && s.queue_enabled,
        session_step(s, event).0.queued == (s.queued || session_step(s, event).1.contains(
            SessionAction::Enqueue,
        )),
{
    let actions = session_step(s, event).1;
    if actions.contains(SessionAction::Enqueue) {
        let i = choose|i: int| 0 <= i < actions.len() && actions[i] == SessionAction::Enqueue;
        assert(actions[i] == SessionAction::Enqueue);
    }
    if s.was_in_play_state && !s.queued && s.queue_enabled && !(event matches SessionEvent::Read(
        Err(PacketProcessingError::Disconnected),
    )) {
        assert(actions[0] == SessionAction::Enqueue);
    }
}

proof fn lemma_pushed_shape(s: SessionState)
    requires
        s.wf(),
        !s.finished,
    ensures
        session_step(s, SessionEvent::Pushed).1 == if !s.was_in_play_state {
            if s.queue_enabled {
                seq![
                    SessionAction::RemoveBossBar,
                    SessionAction::Dequeue,
                    SessionAction::Deliver,
                    SessionAction::Dequeue,
                    SessionAction::Shutdown,
                ]
            } else {
                seq![SessionAction::Deliver, SessionAction::Shutdown]
            }
        } else if !s.queued {
            if s.queue_enabled {
                seq![
                    SessionAction::Enqueue,
                    SessionAction::StartDisplay,
                    SessionAction::StopDisplay,
                    SessionAction::RemoveBossBar,
                    SessionAction::Dequeue,
                    SessionAction::Deliver,
                    SessionAction::Dequeue,
                    SessionAction::Shutdown,
                    SessionAction::LeaveGame,
                ]
            } else {
                seq![SessionAction::Deliver, SessionAction::Shutdown, SessionAction::LeaveGame]
            }
        } else if s.display_running {
            seq![
                SessionAction::StopDisplay,
                SessionAction::RemoveBossBar,
                SessionAction::Dequeue,
                SessionAction::Deliver,
                SessionAction::Dequeue,
                SessionAction::Shutdown,
                SessionAction::LeaveGame,
            ]
        } else {
            seq![
                SessionAction::RemoveBossBar,
                SessionAction::Dequeue,
                SessionAction::Deliver,
                SessionAction::Dequeue,
                SessionAction::Shutdown,
                SessionAction::LeaveGame,
            ]
        },
{
}

proof fn lemma_disconnect_shape(s: SessionState, event: SessionEvent)
    requires
        s.wf(),
        !s.finished,
        event matches SessionEvent::Read(Err(PacketProcessingError::Disconnected)),
    ensures
        session_step(s, event).1 == (if s.display_running {
            seq![SessionAction::StopDisplay]
        } else {
            seq![]
        }) + (if s.queue_enabled {
            seq![SessionAction::Dequeue]
        } else {
            seq![]
        }) + seq![SessionAction::Shutdown] + (if s.was_in_play_state {
            seq![SessionAction::LeaveGame]
        } else {
            seq![]
        }),
{
    assert(seq![] + (if s.display_running {
        seq![SessionAction::StopDisplay]
    } else {
        seq![]
    }) =~= (if s.display_running {
        seq![SessionAction::StopDisplay]
    } else {
        seq![]
    }));
}

/// A connection that ends stops the display it started, takes the player out of a
/// running queue, closes, and counts the player out of the game exactly when they
/// had joined it.
pub proof fn lemma_session_cleanup(s: SessionState, event: SessionEvent)
    requires
        s.wf(),
        !s.finished,
        session_step(s, event).0.finished,
    ensures
        session_step(s, event).0.display_running == false,
        (s.display_running || session_step(s, event).1.contains(SessionAction::StartDisplay))
            ==> session_step(s, event).1.contains(SessionAction::StopDisplay),
        s.queue_enabled ==> session_step(s, event).1.contains(SessionAction::Dequeue),
        session_step(s, event).1.last() == (if s.was_in_play_state {
            SessionAction::LeaveGame
        } else {
            SessionAction::Shutdown
        }),
        session_step(s, event).1.contains(SessionAction::Shutdown),
        session_step(s, event).1.contains(SessionAction::LeaveGame) <==> s.was_in_play_state,
{
    let actions = session_step(s, event).1;
    if event is Pushed {
        lemma_pushed_shape(s);
        if !s.was_in_play_state {
            if s.queue_enabled {
                assert(actions[1] == SessionAction::Dequeue);
                assert(actions[4] == SessionAction::Shutdown);
            } else {
                assert(actions[1] == SessionAction::Shutdown);
            }
            assert(!actions.contains(SessionAction::StartDisplay));
            assert(!actions.contains(SessionAction::LeaveGame));
        } else if !s.queued {
            if s.queue_enabled {
                assert(actions[1] == SessionAction::StartDisplay);
                assert(actions[2] == SessionAction::StopDisplay);
                assert(actions[4] == SessionAction::Dequeue);
                assert(actions[7] == SessionAction::Shutdown);
                assert(actions[8] == SessionAction::LeaveGame);
            } else {
                assert(actions[1] == SessionAction::Shutdown);
                assert(actions[2] == SessionAction::LeaveGame);
                assert(!actions.contains(SessionAction::StartDisplay));
            }
        } else if s.display_running {
            assert(actions[0] == SessionAction::StopDisplay);
            assert(actions[2] == SessionAction::Dequeue);
            assert(actions[5] == SessionAction::Shutdown);
            assert(actions[6] == SessionAction::LeaveGame);
        } else {
            assert(actions[1] == SessionAction::Dequeue);
            assert(actions[4] == SessionAction::Shutdown);
            assert(actions[5] == SessionAction::LeaveGame);
            assert(!actions.contains(SessionAction::StartDisplay));
        }
    } else {
        lemma_disconnect_shape(s, event);
        let stop: Seq<SessionAction> = if s.display_running {
            seq![SessionAction::StopDisplay]
        } else {
            seq![]
        };
        let leave_queue: Seq<SessionAction> = if s.queue_enabled {
            seq![SessionAction::Dequeue]
        } else {
            seq![]
        };
        let n: int = (stop.len() + leave_queue.len()) as int;
        assert(actions[n] == SessionAction::Shutdown);
        if s.display_running {
            assert(actions[0] == SessionAction::StopDisplay);
        }
        if s.queue_enabled {
            assert(actions[stop.len() as int] == SessionAction::Dequeue);
        }
        if s.was_in_play_state {
            assert(actions[n + 1] == SessionAction::LeaveGame);
        } else {
            assert(!actions.contains(SessionAction::LeaveGame));
        }
        assert(!actions.contains(SessionAction::StartDisplay));
    }
}

/// A pushed player in a running queue has the boss bar removed and leaves the queue
/// before being sent on, and is sent on exactly once.
pub proof fn lemma_push_order(s: SessionState)
    requires
        s.wf(),
        !s.finished,
    ensures
        s.queue_enabled ==> exists|i: int, j: int, k: int|
            0 <= i < j < k < session_step(s, SessionEvent::Pushed).1.len()
                && session_step(s, SessionEvent::Pushed).1[i] == SessionAction::RemoveBossBar
                && session_step(s, SessionEvent::Pushed).1[j] == SessionAction::Dequeue
                && session_step(s, SessionEvent::Pushed).1[k] == SessionAction::Deliver,
        exists|k: int|
            0 <= k < session_step(s, SessionEvent::Pushed).1.len()
                && session_step(s, SessionEvent::Pushed).1[k] == SessionAction::Deliver
                && forall|i: int|
                0 <= i < session_step(s, SessionEvent::Pushed).1.len() && i != k
                    ==> session_step(s, SessionEvent::Pushed).1[i] != SessionAction::Deliver,
{
    let actions = session_step(s, SessionEvent::Pushed).1;
    lemma_pushed_shape(s);
    let k: int = if !s.was_in_play_state {
        if s.queue_enabled {
            2
        } else {
            0
        }
    } else if !s.queued {
        if s.queue_enabled {
            5
        } else {
            0
        }
    } else if s.display_running {
        3
    } else {
        2
    };
    assert(actions[k] == SessionAction::Deliver);
    if s.queue_enabled {
        assert(actions[k - 2] == SessionAction::RemoveBossBar);
        assert(actions[k - 1] == SessionAction::Dequeue);
    }
    assert forall|i: int| 0 <= i < actions.len() && i != k implies actions[i]
        != SessionAction::Deliver by {
        if !s.was_in_play_state {
            if s.queue_enabled {
                assert(actions.len() == 5);
            } else {
                assert(actions.len() == 2);
            }
        } else if !s.queued {
            if s.queue_enabled {
                assert(actions.len() == 9);
            } else {
                assert(actions.len() == 3);
            }
        } else if s.display_running {
            assert(actions.len() == 7);
        } else {
            assert(actions.len() == 6);
        }
    }
}


/// What a connection goes through, in order: the client's state noted after a
/// handled packet, or an event of the connection.
pub enum SessionInput {
    Noted(ConnectionState),
    Happened(SessionEvent),
}

/// The state after noting the client's state: in play once it has reached play.
pub open spec fn session_note(s: SessionState, state: ConnectionState) -> SessionState {
    SessionState { was_in_play_state: s.was_in_play_state || state == ConnectionState::Play, ..s }
}

/// Whether noting `state` counts the player into the game.
pub open spec fn joins_game(s: SessionState, state: ConnectionState) -> bool {
    !s.was_in_play_state && state == ConnectionState::Play
}

/// The number of times `action` occurs in `actions`.
pub open spec fn count_action(actions: Seq<SessionAction>, action: SessionAction) -> nat
    decreases actions.len(),
{
    if actions.len() == 0 {
        0
    } else {
        count_action(actions.drop_last(), action) + if actions.last() == action {
            1nat
        } else {
            0nat
        }
    }
}

/// A connection run over `inputs` until it ends: the final state, the number of
/// times the player was counted into the game, and every action asked for. Inputs
/// after the end are never seen.
pub open spec fn session_run(s: SessionState, inputs: Seq<SessionInput>) -> (
    SessionState,
    nat,
    Seq<SessionAction>,
)
    decreases inputs.len(),
{
    if inputs.len() == 0 || s.finished {
        (s, 0, seq![])
    } else {
        let (s1, joined, actions): (SessionState, nat, Seq<SessionAction>) = match inputs[0] {
            SessionInput::Noted(state) => (
                session_note(s, state),
                if joins_game(s, state) {
                    1nat
                } else {
                    0nat
                },
                seq![],
            ),
            SessionInput::Happened(event) => (
                session_step(s, event).0,
                0nat,
                session_step(s, event).1,
            ),
        };
        let rest = session_run(s1, inputs.skip(1));
        (rest.0, joined + rest.1, actions + rest.2)
    }
}

/// The state of a new connection.
pub open spec fn session_start(queue_enabled: bool) -> SessionState {
    SessionState {
        was_in_play_state: false,
        queued: false,
        display_running: false,
        queue_enabled,
        finished: false,
    }
}

proof fn lemma_count_concat(a: Seq<SessionAction>, b: Seq<SessionAction>, action: SessionAction)
    ensures
        count_action(a + b, action) == count_action(a, action) + count_action(b, action),
    decreases b.len(),
{
    if b.len() > 0 {
        assert((a + b).drop_last() =~= a + b.drop_last());
        lemma_count_concat(a, b.drop_last(), action);
    } else {
        assert(a + b =~= a);
    }
}

proof fn lemma_count_absent(a: Seq<SessionAction>, action: SessionAction)
    requires
        forall|i: int| 0 <= i < a.len() ==> a[i] != action,
    ensures
        count_action(a, action) == 0,
    decreases a.len(),
{
    if a.len() > 0 {
        lemma_count_absent(a.drop_last(), action);
    }
}

/// One step asks to count the player out of the game once when it ends a
/// connection of a player in the game, and never otherwise.
proof fn lemma_step_leave_count(s: SessionState, event: SessionEvent)
    requires
        s.wf(),
        !s.finished,
    ensures
        session_step(s, event).0.was_in_play_state == s.was_in_play_state,
        count_action(session_step(s, event).1, SessionAction::LeaveGame) == if session_step(
            s,
            event,
        ).0.finished && s.was_in_play_state {
            1nat
        } else {
            0nat
        },
{
    let actions = session_step(s, event).1;
    let leave = SessionAction::LeaveGame;
    if session_step(s, event).0.finished {
        let n = actions.len() as int;
        lemma_session_cleanup(s, event);
        if event is Pushed {
            lemma_pushed_shape(s);
        } else {
            lemma_disconnect_shape(s, event);
        }
        if s.was_in_play_state {
            assert(actions.last() == leave);
            assert forall|i: int| 0 <= i < n - 1 implies actions.drop_last()[i] != leave by {}
            lemma_count_absent(actions.drop_last(), leave);
        } else {
            lemma_count_absent(actions, leave);
        }
    } else {
        lemma_count_absent(actions, leave);
    }
}

proof fn lemma_run_counts(s: SessionState, inputs: Seq<SessionInput>)
    requires
        s.wf(),
    ensures
        session_run(s, inputs).0.wf(),
        s.finished ==> session_run(s, inputs).0 == s,
        s.was_in_play_state ==> session_run(s, inputs).0.was_in_play_state,
        session_run(s, inputs).1 == if session_run(s, inputs).0.was_in_play_state
            && !s.was_in_play_state {
            1nat
        } else {
            0nat
        },
        count_action(session_run(s, inputs).2, SessionAction::LeaveGame) == if session_run(
            s,
            inputs,
        ).0.finished && !s.finished && session_run(s, inputs).0.was_in_play_state {
            1nat
        } else {
            0nat
        },
    decreases inputs.len(),
{
    if inputs.len() == 0 || s.finished {
        assert(count_action(seq![], SessionAction::LeaveGame) == 0);
    } else {
        let rest = inputs.skip(1);
        match inputs[0] {
            SessionInput::Noted(state) => {
                let s1 = session_note(s, state);
                lemma_run_counts(s1, rest);
                lemma_count_concat(seq![], session_run(s1, rest).2, SessionAction::LeaveGame);
                assert(seq![] + session_run(s1, rest).2 =~= session_run(s1, rest).2);
            },
            SessionInput::Happened(event) => {
                let s1 = session_step(s, event).0;
                lemma_step_leave_count(s, event);
                lemma_session_ends(s, event);
                lemma_run_counts(s1, rest);
                lemma_count_concat(
                    session_step(s, event).1,
                    session_run(s1, rest).2,
                    SessionAction::LeaveGame,
                );
            },
        }
    }
}

/// Over a whole connection, the player is counted into the game at most once, when
/// the client first reaches play, and counted out at most once, when the connection
/// ends: exactly when they were counted in. A client that never reaches play is
/// counted neither in nor out, and the count is back where it started once the
/// connection has ended.
pub proof fn lemma_counted_in_and_out_once(queue_enabled: bool, inputs: Seq<SessionInput>)
    ensures
        session_run(session_start(queue_enabled), inputs).1 == if session_run(
            session_start(queue_enabled),
            inputs,
        ).0.was_in_play_state {
            1nat
        } else {
            0nat
        },
        count_action(session_run(session_start(queue_enabled), inputs).2, SessionAction::LeaveGame)
            == if session_run(session_start(queue_enabled), inputs).0.finished && session_run(
            session_start(queue_enabled),
            inputs,
        ).0.was_in_play_state {
            1nat
        } else {
            0nat
        },
        session_run(session_start(queue_enabled), inputs).0.finished ==> count_action(
            session_run(session_start(queue_enabled), inputs).2,
            SessionAction::LeaveGame,
        ) == session_run(session_start(queue_enabled), inputs).1,
{
    lemma_run_counts(session_start(queue_enabled), inputs);
}


/// Only the play state counts: noting any other state changes nothing and counts
/// nobody in, and noting play counts the player in exactly when they were not in
/// the game yet.
pub proof fn lemma_only_play_counts(s: SessionState, state: ConnectionState)
    ensures
        state != ConnectionState::Play ==> session_note(s, state) == s && !joins_game(s, state),
        state == ConnectionState::Play ==> session_note(s, state).was_in_play_state
            && joins_game(s, state) == !s.was_in_play_state,
        joins_game(s, state) ==> state == ConnectionState::Play,
        session_note(s, state).queued == s.queued,
        session_note(s, state).display_running == s.display_running,
        session_note(s, state).finished == s.finished,
{
}

/// Any turn that is neither a disconnect nor a push keeps the connection going: it
/// at most joins the queue and starts the display, or stops waiting for a dropped
/// push handle. It never stops the display, leaves the queue, sends the player on,
/// or closes the connection.
pub proof fn lemma_turn_keeps_connection(s: SessionState, event: SessionEvent)
    requires
        s.wf(),
        !s.finished,
        !(event matches SessionEvent::Read(Err(PacketProcessingError::Disconnected))),
        !(event is Pushed),
    ensures
        !session_step(s, event).0.finished,
        session_step(s, event).0.was_in_play_state == s.was_in_play_state,
        session_step(s, event).0.queue_enabled == s.queue_enabled,
        s.queued ==> session_step(s, event).0.queued,
        s.display_running ==> session_step(s, event).0.display_running,
        forall|i: int|
            0 <= i < session_step(s, event).1.len() ==> {
                let a = #[trigger] session_step(s, event).1[i];
                a == SessionAction::Enqueue || a == SessionAction::StartDisplay || a
                    == SessionAction::ForgetPush
            },
        session_step(s, event).1.contains(SessionAction::ForgetPush) <==> event is PushDropped,
{
    let actions = session_step(s, event).1;
    if event is PushDropped {
        assert(actions[actions.len() - 1] == SessionAction::ForgetPush);
    }
}

/// A read that fails with anything but a disconnect, or that succeeds, acts the
/// same: the failure is only reported.
pub proof fn lemma_read_failures_alike(s: SessionState, error: PacketProcessingError)
    requires
        !(error is Disconnected),
    ensures
        session_step(s, SessionEvent::Read(Err(error))) == session_step(
            s,
            SessionEvent::Read(Ok(())),
        ),
{
}

} // verus!
