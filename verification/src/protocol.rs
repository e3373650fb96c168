//! The messages between master and slave, the handshake states, and the
//! allowed state transitions of each side.
use vstd::prelude::*;
use crate::config::ExchangedDataT;

verus! {

/// A message on the channels from master to slave and from slave to master.
#[derive(Clone, Copy, Debug, PartialEq, Eq, Structural)]
pub enum Message {
    /// Data the master sends whenever its local timer fires.
    SpontaneousData { val: ExchangedDataT },
    /// The master's answer to a knock; it carries no data.
    Come,
    /// The data the slave sends after it got `Come`.
    SlaveData { val: ExchangedDataT },
}

/// The phase of the handshake, as each side sees it.
#[derive(Clone, Copy, Debug, PartialEq, Eq, Structural)]
pub enum KnockComeState {
    /// Slave: initial, and after its data went out; it may knock.
    SlaveSentDataNowReady,
    /// Slave: it knocked and waits for `Come` (spontaneous data may arrive).
    SlaveSentKnock,
    /// Slave: it got `Come` and now sends its data.
    SlaveGotCome,
    /// Master: initial, and after it got the slave's data; it may take a knock.
    MasterGotDataNowReady,
    /// Master: it took a knock and now sends `Come`.
    MasterGotKnock,
    /// Master: it sent `Come` and waits for the slave's data.
    MasterSentCome,
}

/// Whether `s` is one of the slave's three states.
pub open spec fn is_slave_state(s: KnockComeState) -> bool {
    ||| s == KnockComeState::SlaveSentDataNowReady
    ||| s == KnockComeState::SlaveSentKnock
    ||| s == KnockComeState::SlaveGotCome
}

/// Whether `s` is one of the master's three states.
pub open spec fn is_master_state(s: KnockComeState) -> bool {
    ||| s == KnockComeState::MasterGotDataNowReady
    ||| s == KnockComeState::MasterGotKnock
    ||| s == KnockComeState::MasterSentCome
}

/// The slave's allowed transitions: it knocks only when ready, it gets `Come`
/// only after knocking, and it may always return to ready.
pub open spec fn slave_transition_allowed(present: KnockComeState, new: KnockComeState) -> bool {
    match new {
        KnockComeState::SlaveSentKnock => present == KnockComeState::SlaveSentDataNowReady,
        KnockComeState::SlaveGotCome => present == KnockComeState::SlaveSentKnock,
        KnockComeState::SlaveSentDataNowReady => true,
        _ => false,
    }
}

/// The master's allowed transitions: it takes a knock only when ready, it
/// sends `Come` only after a knock, and it may always return to ready.
pub open spec fn master_transition_allowed(present: KnockComeState, new: KnockComeState) -> bool {
    match new {
        KnockComeState::MasterGotKnock => present == KnockComeState::MasterGotDataNowReady,
        KnockComeState::MasterSentCome => present == KnockComeState::MasterGotKnock,
        KnockComeState::MasterGotDataNowReady => true,
        _ => false,
    }
}

/// Moves the slave from `present_state` to `new_state` and returns the new
/// state.  Only the slave's allowed transitions may be asked for: any other
/// is a broken protocol, on which the checked build of the program stops.
pub fn slave_set_knock_come_state(present_state: KnockComeState, new_state: KnockComeState) -> (state: KnockComeState)
    requires
        slave_transition_allowed(present_state, new_state),
    ensures
        state == new_state,
        is_slave_state(state),
{
    new_state
}

/// Moves the master from `present_state` to `new_state` and returns the new
/// state.  Only the master's allowed transitions may be asked for: any other
/// is a broken protocol, on which the checked build of the program stops.
pub fn master_set_knock_come_state(present_state: KnockComeState, new_state: KnockComeState) -> (state: KnockComeState)
    requires
        master_transition_allowed(present_state, new_state),
    ensures
        state == new_state,
        is_master_state(state),
{
    new_state
}

/// Why a task stops: each is a check of the protocol, or a counter that would
/// pass its type's limit.
#[derive(Clone, Copy, Debug, PartialEq, Eq, Structural)]
pub enum KnockComeFault {
    /// A data value is not the one after the last value received.
    SequenceGap { expected: u64, got: ExchangedDataT },
    /// The master waited for the slave's data and got something else, or the
    /// channel closed.
    ProtocolViolation,
    /// The slave got `Come` in its outer select while it waits for `Come` in a
    /// nested select only.
    ComeNotExpected,
    /// The slave got a message that only the slave sends.
    UnexpectedPacket,
    /// The slave's channel from the master closed.
    ChannelClosed,
    /// The slave got `Come` without having knocked.
    InvalidTransition,
    /// A counter or a data value would pass the limit of its type.
    CounterOverflow,
}

} // verus!
