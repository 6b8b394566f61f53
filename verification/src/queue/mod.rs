pub mod placeholder;
pub mod full_refresh;
pub mod queue_display;

use crate::configuration::queue::{QueueConfig, QueuePushMethodConfig};
use crate::protocol::Uuid;
use std::collections::VecDeque;
use vstd::prelude::*;

verus! {

/// What a player at the front of the queue is sent when pushed.
#[derive(Debug, PartialEq, Eq)]
pub enum PushAction {
    Kick(String),
    Transfer { host: String, port: i32 },
}

/// One queued player: who they are, and the handle through which they are pushed.
struct QueuePlayer<T> {
    uuid: Uuid,
    username: String,
    push_tx: T,
}

/// The queue's timings and what a push does.
#[derive(Debug, PartialEq, Eq)]
pub struct QueueSettings {
    pub push_interval_seconds: u64,
    pub push_count: usize,
    pub refresh_interval_seconds: u64,
    pub push_action: PushActionTemplate,
}

/// The push action that every pushed player is sent.
#[derive(Debug, PartialEq, Eq)]
pub enum PushActionTemplate {
    Kick { message: String },
    Transfer { host: String, port: i32 },
}

impl PushActionTemplate {
    /// Whether `action` is the action this template describes.
    pub open spec fn describes(self, action: PushAction) -> bool {
        match self {
            PushActionTemplate::Kick { message } => action matches PushAction::Kick(m)
                && m@ == message@,
            PushActionTemplate::Transfer { host, port } => action matches PushAction::Transfer {
                host: h,
                port: p,
            } && h@ == host@ && p == port,
        }
    }

    /// The push action this template describes.
    fn to_action(&self) -> (action: PushAction)
        ensures
            self.describes(action),
    {
        match self {
            PushActionTemplate::Kick { message } => PushAction::Kick(message.clone()),
            PushActionTemplate::Transfer { host, port } => PushAction::Transfer {
                host: host.clone(),
                port: *port,
            },
        }
    }
}

/// A queued player as the contracts see them: uuid, username, push handle.
pub type QueueEntry<T> = (Uuid, Seq<char>, T);

/// The 1-based position of the first entry of `uuid` in `entries`, if any.
pub open spec fn queue_position<T>(entries: Seq<QueueEntry<T>>, uuid: Uuid) -> Option<nat>
    decreases entries.len(),
{
    if entries.len() == 0 {
        None
    } else if entries[0].0 == uuid {
        Some(1)
    } else {
        match queue_position(entries.skip(1), uuid) {
            Some(p) => Some(p + 1),
            None => None,
        }
    }
}

/// Whether `entries` holds an entry of `uuid`.
pub open spec fn is_queued<T>(entries: Seq<QueueEntry<T>>, uuid: Uuid) -> bool {
    exists|i: int| 0 <= i < entries.len() && entries[i].0 == uuid
}

/// Whether an entry belongs to a player other than `uuid`.
pub open spec fn other_than<T>(uuid: Uuid) -> spec_fn(QueueEntry<T>) -> bool {
    |e: QueueEntry<T>| e.0 != uuid
}

/// `entries` without the entries of `uuid`, the others in their order.
pub open spec fn without_player<T>(entries: Seq<QueueEntry<T>>, uuid: Uuid) -> Seq<QueueEntry<T>> {
    entries.filter(other_than(uuid))
}

/// The number of players a push of `count` takes from a queue of `len` players.
pub open spec fn pushed_count(count: nat, len: nat) -> nat {
    if count <= len {
        count
    } else {
        len
    }
}

/// The queue position is the index of the first entry of the player, plus one.
pub proof fn lemma_queue_position_first<T>(entries: Seq<QueueEntry<T>>, uuid: Uuid)
    ensures
        match queue_position(entries, uuid) {
            Some(p) => {
                &&& 1 <= p <= entries.len()
                &&& entries[p - 1].0 == uuid
                &&& forall|j: int| 0 <= j < p - 1 ==> entries[j].0 != uuid
            },
            None => !is_queued(entries, uuid),
        },
    decreases entries.len(),
{
    if entries.len() > 0 && entries[0].0 != uuid {
        lemma_queue_position_first(entries.skip(1), uuid);
        match queue_position(entries.skip(1), uuid) {
            Some(p) => {
                assert forall|j: int| 0 <= j < p implies entries[j].0 != uuid by {
                    if j > 0 {
                        assert(entries[j] == entries.skip(1)[j - 1]);
                    }
                }
            },
            None => {
                assert forall|i: int| 0 <= i < entries.len() implies entries[i].0 != uuid by {
                    if i > 0 {
                        assert(entries[i] == entries.skip(1)[i - 1]);
                    }
                }
            },
        }
    }
}

/// The players waiting, in order, and the queue's settings.
pub struct QueueState<T> {
    players: VecDeque<QueuePlayer<T>>,
    pub settings: QueueSettings,
}

impl<T> View for QueueState<T> {
    type V = Seq<QueueEntry<T>>;

    closed spec fn view(&self) -> Seq<QueueEntry<T>> {
        self.players@.map_values(|p: QueuePlayer<T>| (p.uuid, p.username@, p.push_tx))
    }
}

impl PushActionTemplate {
    /// The push action that a push method of the configuration describes.
    pub open spec fn from_push_method(self, method: QueuePushMethodConfig) -> bool {
        match method {
            QueuePushMethodConfig::Kick { kick_message } => self matches PushActionTemplate::Kick {
                message,
            } && message@ == kick_message@,
            QueuePushMethodConfig::Transfer { host, port } => self matches PushActionTemplate::Transfer {
                host: h,
                port: p,
            } && h@ == host@ && p == port as i32,
        }
    }
}

impl<T> QueueState<T> {
    /// The queue's settings, as the contracts see them.
    pub closed spec fn current_settings(self) -> QueueSettings {
        self.settings
    }

    /// An empty queue with the timings and push method of `config`.
    pub fn from_config(config: &QueueConfig) -> (state: Self)
        ensures
            state@ == Seq::<QueueEntry<T>>::empty(),
            state.current_settings().push_interval_seconds == config.push_interval_seconds,
            state.current_settings().push_count == config.push_count,
            state.current_settings().refresh_interval_seconds == config.refresh_interval_seconds,
            state.current_settings().push_action.from_push_method(config.push_method),
    {
        let push_action = match &config.push_method {
            QueuePushMethodConfig::Kick { kick_message } => PushActionTemplate::Kick {
                message: kick_message.clone(),
            },
            QueuePushMethodConfig::Transfer { host, port } => PushActionTemplate::Transfer {
                host: host.clone(),
                port: *port as i32,
            },
        };
        let state = QueueState {
            players: VecDeque::new(),
            settings: QueueSettings {
                push_interval_seconds: config.push_interval_seconds,
                push_count: config.push_count,
                refresh_interval_seconds: config.refresh_interval_seconds,
                push_action,
            },
        };
        assert(state@ =~= Seq::<QueueEntry<T>>::empty());
        state
    }
}


impl<T> QueueState<T> {
    /// Adds a player to the back of the queue. Returns their 1-based position.
    pub fn enqueue(&mut self, uuid: Uuid, username: String, push_tx: T) -> (position: usize)
        ensures
            final(self)@ == old(self)@.push((uuid, username@, push_tx)),
            final(self).current_settings() == old(self).current_settings(),
            position == final(self)@.len(),
    {
        let ghost name = username@;
        self.players.push_back(QueuePlayer { uuid, username, push_tx });
        assert(self@ =~= old(self)@.push((uuid, name, push_tx)));
        self.players.len()
    }

    /// Removes a player from the queue (on disconnect or push).
    pub fn dequeue(&mut self, uuid: Uuid)
        ensures
            final(self)@ == without_player(old(self)@, uuid),
            final(self).current_settings() == old(self).current_settings(),
    {
        let ghost start = self@;
        let ghost pred = other_than::<T>(uuid);
        let mut i: usize = 0;
        let ghost mut j: int = 0;
        assert(self@.subrange(0, 0) =~= without_player(start.subrange(0, 0), uuid));
        assert(self@.subrange(0, self@.len() as int) =~= start.subrange(0, start.len() as int));
        while i < self.players.len()
            invariant
                self.settings == old(self).settings,
                start == old(self)@,
                pred == other_than::<T>(uuid),
                0 <= i <= j <= start.len(),
                self@.len() == i + (start.len() - j),
                self@.subrange(0, i as int) == start.subrange(0, j).filter(pred),
                self@.subrange(i as int, self@.len() as int) == start.subrange(j, start.len() as int),
            decreases self@.len() - i,
        {
            let ghost before = self@;
            assert(before[i as int] == start[j]) by {
                assert(before.subrange(i as int, before.len() as int)[0] == before[i as int]);
            }
            assert(start.subrange(0, j + 1) =~= start.subrange(0, j).push(start[j]));
            proof {
                start.subrange(0, j).lemma_filter_push(start[j], pred);
            }
            if self.players[i].uuid == uuid {
                let _ = self.players.remove(i);
                assert(self@ =~= before.remove(i as int));
                assert(self@.subrange(0, i as int) =~= before.subrange(0, i as int));
                assert(self@.subrange(i as int, self@.len() as int) =~= before.subrange(
                    i + 1,
                    before.len() as int,
                ));
                assert(start.subrange(j + 1, start.len() as int) =~= start.subrange(
                    j,
                    start.len() as int,
                ).subrange(1, start.len() - j));
            } else {
                i = i + 1;
                assert(self@.subrange(0, i as int) =~= before.subrange(0, i - 1).push(before[i - 1]));
                assert(self@.subrange(i as int, self@.len() as int) =~= before.subrange(
                    i - 1,
                    before.len() as int,
                ).subrange(1, before.len() - i + 1));
                assert(start.subrange(j + 1, start.len() as int) =~= start.subrange(
                    j,
                    start.len() as int,
                ).subrange(1, start.len() - j));
            }
            proof {
                j = j + 1;
            }
        }
        assert(j == start.len());
        assert(start.subrange(0, j) =~= start);
        assert(self@ =~= self@.subrange(0, i as int));
    }
}


impl<T> QueueState<T> {
    /// The index of the first queued entry of `uuid`, if any.
    fn index_of(&self, uuid: Uuid) -> (index: Option<usize>)
        ensures
            match index {
                Some(i) => queue_position(self@, uuid) == Some((i + 1) as nat) && i < self@.len(),
                None => queue_position(self@, uuid) is None,
            },
    {
        let mut i: usize = 0;
        while i < self.players.len()
            invariant
                i <= self@.len(),
                forall|j: int| 0 <= j < i ==> self@[j].0 != uuid,
            decreases self@.len() - i,
        {
            assert(self@[i as int].0 == self.players@[i as int].uuid);
            if self.players[i].uuid == uuid {
                proof {
                    lemma_queue_position_first(self@, uuid);
                }
                return Some(i);
            }
            i = i + 1;
        }
        proof {
            lemma_queue_position_first(self@, uuid);
        }
        None
    }

    /// Returns the 1-based position of the player, or None if not in queue.
    pub fn position_of(&self, uuid: Uuid) -> (position: Option<usize>)
        ensures
            match position {
                Some(p) => queue_position(self@, uuid) == Some(p as nat),
                None => queue_position(self@, uuid) is None,
            },
    {
        let len: usize = self.players.len();
        match self.index_of(uuid) {
            Some(i) => {
                assert(i < len);
                Some(i + 1)
            },
            None => None,
        }
    }

    /// Returns the total number of players in the queue.
    pub fn total(&self) -> (total: usize)
        ensures
            total == self@.len(),
    {
        self.players.len()
    }

    /// Returns the username of a queued player (for display).
    pub fn username_of(&self, uuid: Uuid) -> (username: Option<String>)
        ensures
            match queue_position(self@, uuid) {
                Some(p) => username matches Some(name) && name@ == self@[p - 1].1,
                None => username is None,
            },
    {
        match self.index_of(uuid) {
            Some(i) => Some(self.players[i].username.clone()),
            None => None,
        }
    }

    /// Pops up to `count` players from the front and hands back, for each in queue
    /// order, their push handle with the push action to send them.
    pub fn push_next(&mut self, count: usize) -> (pushed: Vec<(T, PushAction)>)
        ensures
            final(self)@ == old(self)@.skip(pushed_count(count as nat, old(self)@.len()) as int),
            final(self).current_settings() == old(self).current_settings(),
            pushed@.len() == pushed_count(count as nat, old(self)@.len()),
            forall|i: int|
                0 <= i < pushed@.len() ==> {
                    &&& (#[trigger] pushed@[i]).0 == old(self)@[i].2
                    &&& old(self).current_settings().push_action.describes(pushed@[i].1)
                },
    {
        let ghost start = self@;
        let mut pushed: Vec<(T, PushAction)> = Vec::new();
        let mut n: usize = 0;
        assert(start.skip(0) =~= start);
        while n < count
            invariant
                self.settings == old(self).settings,
                start == old(self)@,
                n <= count,
                n <= start.len(),
                self@ == start.skip(n as int),
                pushed@.len() == n,
                forall|i: int|
                    0 <= i < n ==> {
                        &&& (#[trigger] pushed@[i]).0 == start[i].2
                        &&& self.settings.push_action.describes(pushed@[i].1)
                    },
            ensures
                n == pushed_count(count as nat, start.len()),
                self@ == start.skip(n as int),
                pushed@.len() == n,
                forall|i: int|
                    0 <= i < n ==> {
                        &&& (#[trigger] pushed@[i]).0 == start[i].2
                        &&& self.settings.push_action.describes(pushed@[i].1)
                    },
            decreases count - n,
        {
            let ghost before = self@;
            match self.players.pop_front() {
                Some(player) => {
                    assert(player.push_tx == before[0].2);
                    let action = self.settings.push_action.to_action();
                    pushed.push((player.push_tx, action));
                    assert(self@ =~= before.skip(1));
                    assert(start.skip(n as int).skip(1) =~= start.skip(n + 1));
                    n = n + 1;
                },
                None => {
                    assert(self.players@.len() == 0);
                    assert(self@.len() == 0);
                    assert(start.len() == n);
                    break ;
                },
            }
        }
        pushed
    }
}


proof fn lemma_queue_position_prepend<T>(x: QueueEntry<T>, rest: Seq<QueueEntry<T>>, uuid: Uuid)
    ensures
        queue_position(seq![x] + rest, uuid) == if x.0 == uuid {
            Some(1nat)
        } else {
            match queue_position(rest, uuid) {
                Some(p) => Some(p + 1),
                None => None,
            }
        },
{
    assert((seq![x] + rest).skip(1) =~= rest);
}

/// Enqueueing appends at the back: every queued player keeps their position, and a
/// player who was not queued is found at the new end of the queue.
pub proof fn lemma_enqueue_positions<T>(entries: Seq<QueueEntry<T>>, entry: QueueEntry<T>, uuid: Uuid)
    ensures
        queue_position(entries.push(entry), uuid) == match queue_position(entries, uuid) {
            Some(p) => Some(p),
            None => if entry.0 == uuid {
                Some(entries.len() + 1)
            } else {
                None
            },
        },
    decreases entries.len(),
{
    if entries.len() > 0 {
        let rest = entries.skip(1);
        lemma_enqueue_positions(rest, entry, uuid);
        assert(entries =~= seq![entries[0]] + rest);
        assert(entries.push(entry) =~= seq![entries[0]] + rest.push(entry));
        lemma_queue_position_prepend(entries[0], rest, uuid);
        lemma_queue_position_prepend(entries[0], rest.push(entry), uuid);
    } else {
        assert(entries.push(entry) =~= seq![entry] + entries);
        lemma_queue_position_prepend(entry, entries, uuid);
    }
}

/// Dequeueing a player removes every entry of theirs, and nobody else: every other
/// queued player stays queued and moves up or keeps their position.
pub proof fn lemma_dequeue_positions<T>(entries: Seq<QueueEntry<T>>, removed: Uuid, uuid: Uuid)
    ensures
        queue_position(without_player(entries, removed), removed) is None,
        uuid != removed ==> (queue_position(without_player(entries, removed), uuid) is Some
            <==> queue_position(entries, uuid) is Some),
        uuid != removed && queue_position(entries, uuid) is Some ==> queue_position(
            without_player(entries, removed),
            uuid,
        ).unwrap() <= queue_position(entries, uuid).unwrap(),
    decreases entries.len(),
{
    let pred = other_than::<T>(removed);
    if entries.len() == 0 {
        assert(without_player(entries, removed) =~= entries);
    } else {
        let x = entries[0];
        let rest = entries.skip(1);
        lemma_dequeue_positions(rest, removed, uuid);
        assert(entries =~= seq![x] + rest);
        rest.lemma_filter_prepend(x, pred);
        lemma_queue_position_prepend(x, rest, uuid);
        lemma_queue_position_prepend(x, rest, removed);
        if pred(x) {
            lemma_queue_position_prepend(x, without_player(rest, removed), uuid);
            lemma_queue_position_prepend(x, without_player(rest, removed), removed);
        }
    }
}

/// Pushing `count` players from the front moves everyone behind them up by `count`
/// places.
pub proof fn lemma_push_positions<T>(entries: Seq<QueueEntry<T>>, count: nat, uuid: Uuid)
    requires
        count <= entries.len(),
    ensures
        match queue_position(entries, uuid) {
            Some(p) => p > count ==> queue_position(entries.skip(count as int), uuid) == Some(
                (p - count) as nat,
            ),
            None => queue_position(entries.skip(count as int), uuid) is None,
        },
    decreases count,
{
    if count == 0 {
        assert(entries.skip(0) =~= entries);
    } else {
        let rest = entries.skip(1);
        lemma_push_positions(rest, (count - 1) as nat, uuid);
        assert(rest.skip(count - 1) =~= entries.skip(count as int));
    }
}


/// A pushed player is sent the configured push method: a kick with the configured
/// message, or a transfer to the configured host and port.
pub proof fn lemma_push_action_follows_config(
    method: QueuePushMethodConfig,
    template: PushActionTemplate,
    action: PushAction,
)
    requires
        template.from_push_method(method),
        template.describes(action),
    ensures
        match method {
            QueuePushMethodConfig::Kick { kick_message } => action matches PushAction::Kick(m)
                && m@ == kick_message@,
            QueuePushMethodConfig::Transfer { host, port } => action matches PushAction::Transfer {
                host: h,
                port: p,
            } && h@ == host@ && p as int == port as int,
        },
{
}

} // verus!
