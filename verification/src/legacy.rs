//! The first knock-come design, in which the slave answers every message from
//! the master with its pending sensor value and the master answers each knock
//! with the same fixed message.
use vstd::prelude::*;
use crate::draw::random_in_range;

verus! {

/// Smallest timeout of the first design's timers, in milliseconds.
pub const LEGACY_RANDOM_VAL_MIN_MS: u64 = 0;

/// Largest timeout of the first design's timers, in milliseconds.
pub const LEGACY_RANDOM_VAL_MAX_MS: u64 = 100;

/// The one message of the first design.
#[derive(Clone, Copy, Debug, PartialEq, Eq, Structural)]
pub enum LegacyMessage {
    /// A sensor value.
    SensorData(i32),
}

/// The slave of the first design: a counter and the message it sends next.
#[derive(Clone, Copy, Debug, PartialEq, Eq, Structural)]
pub struct LegacySlave {
    /// How many messages it has answered.
    pub counter: i32,
    /// The message it sends next: always the counter's value.
    pub pending_message: LegacyMessage,
}

impl LegacySlave {
    /// The invariant: the pending message carries the counter.
    pub open spec fn wf(self) -> bool {
        &&& self.counter >= 0
        &&& self.pending_message == LegacyMessage::SensorData(self.counter)
    }

    /// The slave at start: counter 0, pending value 0.
    pub open spec fn initial() -> LegacySlave {
        LegacySlave { counter: 0, pending_message: LegacyMessage::SensorData(0) }
    }

    /// The slave at start: counter 0, pending value 0.
    pub fn new() -> (s: LegacySlave)
        ensures
            s == LegacySlave::initial(),
            s.wf(),
            s.counter == 0,
    {
        LegacySlave { counter: 0, pending_message: LegacyMessage::SensorData(0) }
    }

    /// The slave after answering one message, and the answer.
    pub open spec fn answered(self) -> (LegacySlave, LegacyMessage) {
        (
            LegacySlave {
                counter: (self.counter + 1) as i32,
                pending_message: LegacyMessage::SensorData((self.counter + 1) as i32),
            },
            self.pending_message,
        )
    }

    /// A message from the master arrived: returns the pending message to
    /// send back, then counts and prepares the next one.  The counter must
    /// have room to grow.
    pub fn on_come_or_data(&mut self) -> (reply: LegacyMessage)
        requires
            old(self).wf(),
            old(self).counter < i32::MAX,
        ensures
            reply == LegacyMessage::SensorData(old(self).counter),
            final(self).wf(),
            final(self).counter == old(self).counter + 1,
            (*final(self), reply) == old(self).answered(),
    {
        let reply = self.pending_message;
        self.counter = self.counter + 1;
        self.pending_message = LegacyMessage::SensorData(self.counter);
        reply
    }
}

/// What the first design's slave is told by its selector.
#[derive(Clone, Copy, Debug, PartialEq, Eq, Structural)]
pub enum LegacySlaveEvent {
    /// A message from the master, or `None`: the channel closed.
    ComeOrData(Option<LegacyMessage>),
    /// Its timer fired.
    Timeout,
}

/// What the first design's slave does next.
#[derive(Clone, Copy, Debug, PartialEq, Eq, Structural)]
pub enum LegacySlaveAction {
    /// Send this message back to the master.
    Reply(LegacyMessage),
    /// Send a knock.
    Knock,
    /// End the task.
    Stop,
}

impl LegacySlave {
    /// The slave's outcome on an event: a message is answered, a closed
    /// channel ends the task, a timeout sends a knock.
    pub open spec fn event_outcome(self, e: LegacySlaveEvent) -> (LegacySlave, LegacySlaveAction) {
        match e {
            LegacySlaveEvent::ComeOrData(Some(_)) => {
                let (s2, reply) = self.answered();
                (s2, LegacySlaveAction::Reply(reply))
            },
            LegacySlaveEvent::ComeOrData(None) => (self, LegacySlaveAction::Stop),
            LegacySlaveEvent::Timeout => (self, LegacySlaveAction::Knock),
        }
    }

    /// Takes an event of the selector and says what to do next.  A message
    /// is answered only while the counter has room to grow.
    pub fn on_event(&mut self, e: LegacySlaveEvent) -> (action: LegacySlaveAction)
        requires
            old(self).wf(),
            e matches LegacySlaveEvent::ComeOrData(Some(_)) ==> old(self).counter < i32::MAX,
        ensures
            final(self).wf(),
            (*final(self), action) == old(self).event_outcome(e),
    {
        match e {
            LegacySlaveEvent::ComeOrData(Some(_)) => LegacySlaveAction::Reply(self.on_come_or_data()),
            LegacySlaveEvent::ComeOrData(None) => LegacySlaveAction::Stop,
            LegacySlaveEvent::Timeout => LegacySlaveAction::Knock,
        }
    }
}

/// The slave after answering `n` messages from `s`, and its answers in order.
pub open spec fn legacy_answers(s: LegacySlave, n: nat) -> (LegacySlave, Seq<LegacyMessage>)
    decreases n,
{
    if n == 0 {
        (s, Seq::empty())
    } else {
        let (s1, t1) = legacy_answers(s, (n - 1) as nat);
        let (s2, a) = s1.answered();
        (s2, t1.push(a))
    }
}

proof fn lemma_legacy_answers_invariant(n: nat)
    requires
        n <= i32::MAX,
    ensures
        ({
            let (s, t) = legacy_answers(LegacySlave::initial(), n);
            &&& s.wf()
            &&& s.counter == n
            &&& t.len() == n
            &&& forall|k: int| 0 <= k < n ==> #[trigger] t[k] == LegacyMessage::SensorData(k as i32)
        }),
    decreases n,
{
    if n > 0 {
        lemma_legacy_answers_invariant((n - 1) as nat);
        let (s1, t1) = legacy_answers(LegacySlave::initial(), (n - 1) as nat);
        let t = t1.push(s1.answered().1);
        assert forall|k: int| 0 <= k < n implies #[trigger] t[k] == LegacyMessage::SensorData(k as i32) by {
            if k < n - 1 {
                assert(t[k] == t1[k]);
            }
        }
    }
}

/// The first design's slave, started afresh, answers its k-th message
/// (k = 0, 1, 2, ...) with `SensorData(k)`, whatever the message was, for as
/// long as its counter fits in an `i32`.
pub proof fn lemma_legacy_slave_answers_count(n: nat)
    requires
        n <= i32::MAX,
    ensures
        legacy_answers(LegacySlave::initial(), n).1.len() == n,
        forall|k: int| 0 <= k < n ==> #[trigger] legacy_answers(
            LegacySlave::initial(),
            n,
        ).1[k] == LegacyMessage::SensorData(k as i32),
{
    lemma_legacy_answers_invariant(n);
}

/// The master of the first design: it answers every knock with the same message.
#[derive(Clone, Copy, Debug, PartialEq, Eq, Structural)]
pub struct LegacyMaster {
    /// The message it answers each knock with.
    pub pending_message: LegacyMessage,
}

impl LegacyMaster {
    /// The master at start: its message carries 0, and it never changes.
    pub fn new() -> (m: LegacyMaster)
        ensures
            m.pending_message == LegacyMessage::SensorData(0),
    {
        LegacyMaster { pending_message: LegacyMessage::SensorData(0) }
    }

    /// A knock arrived: the message to answer with.
    pub fn on_knock(&self) -> (reply: LegacyMessage)
        ensures
            reply == self.pending_message,
    {
        self.pending_message
    }
}

/// What the first design's master is told by its selector.
#[derive(Clone, Copy, Debug, PartialEq, Eq, Structural)]
pub enum LegacyMasterEvent {
    /// A knock arrived (`true`), or the knock channel closed (`false`).
    Knock(bool),
    /// Its timer fired.
    Timeout,
}

/// What the first design's master does next after its selector.
#[derive(Clone, Copy, Debug, PartialEq, Eq, Structural)]
pub enum LegacyMasterAction {
    /// Send this message to the slave, then wait for its reply.
    Answer(LegacyMessage),
    /// Warn that no knock came lately.
    Warn,
    /// End the task.
    Stop,
}

/// What the first design's master does with the slave's reply.
#[derive(Clone, Copy, Debug, PartialEq, Eq, Structural)]
pub enum LegacyReplyAction {
    /// The handshake completed with this value.
    Received(i32),
    /// The slave's channel closed: end the task.
    Stop,
}

impl LegacyMaster {
    /// The master's action on an event: a knock is answered with its fixed
    /// message, a closed knock channel ends the task, a timeout warns.
    pub open spec fn event_action(self, e: LegacyMasterEvent) -> LegacyMasterAction {
        match e {
            LegacyMasterEvent::Knock(true) => LegacyMasterAction::Answer(self.pending_message),
            LegacyMasterEvent::Knock(false) => LegacyMasterAction::Stop,
            LegacyMasterEvent::Timeout => LegacyMasterAction::Warn,
        }
    }

    /// Takes an event of the selector and says what to do next.
    pub fn on_event(&self, e: LegacyMasterEvent) -> (action: LegacyMasterAction)
        ensures
            action == self.event_action(e),
    {
        match e {
            LegacyMasterEvent::Knock(true) => LegacyMasterAction::Answer(self.on_knock()),
            LegacyMasterEvent::Knock(false) => LegacyMasterAction::Stop,
            LegacyMasterEvent::Timeout => LegacyMasterAction::Warn,
        }
    }

    /// Takes the slave's reply (`None`: the channel closed).
    pub fn on_reply(&self, reply: Option<LegacyMessage>) -> (action: LegacyReplyAction)
        ensures
            reply matches Some(LegacyMessage::SensorData(v)) ==> action == LegacyReplyAction::Received(v),
            reply is None ==> action == LegacyReplyAction::Stop,
    {
        match reply {
            Some(LegacyMessage::SensorData(v)) => LegacyReplyAction::Received(v),
            None => LegacyReplyAction::Stop,
        }
    }
}

/// The timeout of a timer of the first design: a random draw from
/// `LEGACY_RANDOM_VAL_MIN_MS..=LEGACY_RANDOM_VAL_MAX_MS` milliseconds.
pub fn legacy_random_millis() -> (ms: u64)
    ensures
        LEGACY_RANDOM_VAL_MIN_MS <= ms <= LEGACY_RANDOM_VAL_MAX_MS,
{
    random_in_range(LEGACY_RANDOM_VAL_MIN_MS, LEGACY_RANDOM_VAL_MAX_MS)
}

} // verus!
