//! Fixed parameters of the knock-come program.
use vstd::prelude::*;

verus! {

/// Smallest timeout drawn for a local timer, in milliseconds.
pub const RANDOM_VAL_MIN_MS: u64 = 0;

/// Timeout used when the timers run with a constant period, in milliseconds.
pub const CONST_VAL_MS: u64 = 50;

/// Largest timeout drawn for a local timer, in milliseconds.
pub const RANDOM_VAL_MAX_MS: u64 = 99;

/// Number of events after which the counters are reported and cleared.
pub const MAX_SUM_CNT: u64 = 1000;

/// Whether master and slave use `CONST_VAL_MS` instead of a random draw.
pub const MS_USE_CONSTANT_TIMEOUT: bool = false;

} // verus!

verus! {

/// The value type exchanged in data messages.
pub type ExchangedDataT = u32;

/// First value of each data stream, and the step between successive values.
pub const DATA_FIRST_AND_INC: u32 = 1;

/// The three ways the tasks can be built.
#[derive(Clone, Copy, Debug, PartialEq, Eq, Structural)]
pub enum TaskSemantics {
    /// The master `try_send`s spontaneous data; the slave uses one select.
    MasterTrySendSlaveSelect,
    /// The master awaits each send; the slave waits for `Come` in a nested select.
    MasterSendSlaveNestedSelect,
    /// The master awaits each send; the slave uses one select.
    MasterForceSendSlaveSelect,
}

/// The semantics the program runs with.
pub const CURRENT_SEMANTICS: TaskSemantics = TaskSemantics::MasterSendSlaveNestedSelect;

/// How the master sends spontaneous data.
#[derive(Clone, Copy, Debug, PartialEq, Eq, Structural)]
pub enum MasterComeSendT {
    /// Give up at once when the slave is not ready to take the message.
    TrySend,
    /// Wait until the slave takes the message.
    SendAsynchAwait,
}

/// How the slave waits for `Come` after it has knocked.
#[derive(Clone, Copy, Debug, PartialEq, Eq, Structural)]
pub enum SlaveReceiveT {
    /// `Come` arrives in the slave's one select, beside its timer.
    OneSelect,
    /// After knocking, the slave waits in a nested select for `Come`.
    SelectPlusNestedSelect,
}

/// The send mode that a semantics gives the master.
pub open spec fn master_send_mode_spec(semantics: TaskSemantics) -> MasterComeSendT {
    match semantics {
        TaskSemantics::MasterTrySendSlaveSelect => MasterComeSendT::TrySend,
        TaskSemantics::MasterSendSlaveNestedSelect => MasterComeSendT::SendAsynchAwait,
        TaskSemantics::MasterForceSendSlaveSelect => MasterComeSendT::SendAsynchAwait,
    }
}

/// The receive mode that a semantics gives the slave.
pub open spec fn slave_receive_mode_spec(semantics: TaskSemantics) -> SlaveReceiveT {
    match semantics {
        TaskSemantics::MasterTrySendSlaveSelect => SlaveReceiveT::OneSelect,
        TaskSemantics::MasterSendSlaveNestedSelect => SlaveReceiveT::SelectPlusNestedSelect,
        TaskSemantics::MasterForceSendSlaveSelect => SlaveReceiveT::OneSelect,
    }
}

/// The send mode of the master under `semantics`.
pub fn master_send_mode(semantics: TaskSemantics) -> (mode: MasterComeSendT)
    ensures
        mode == master_send_mode_spec(semantics),
{
    match semantics {
        TaskSemantics::MasterTrySendSlaveSelect => MasterComeSendT::TrySend,
        TaskSemantics::MasterSendSlaveNestedSelect => MasterComeSendT::SendAsynchAwait,
        TaskSemantics::MasterForceSendSlaveSelect => MasterComeSendT::SendAsynchAwait,
    }
}

/// The receive mode of the slave under `semantics`.
pub fn slave_receive_mode(semantics: TaskSemantics) -> (mode: SlaveReceiveT)
    ensures
        mode == slave_receive_mode_spec(semantics),
{
    match semantics {
        TaskSemantics::MasterTrySendSlaveSelect => SlaveReceiveT::OneSelect,
        TaskSemantics::MasterSendSlaveNestedSelect => SlaveReceiveT::SelectPlusNestedSelect,
        TaskSemantics::MasterForceSendSlaveSelect => SlaveReceiveT::OneSelect,
    }
}

/// How much the program logs.
#[derive(Clone, Copy, Debug, PartialEq, Eq, Structural)]
pub enum LogLevel {
    /// Nothing.
    Silent,
    /// The periodic counter lines only.
    CountersOnly,
    /// Every event.
    All,
}

/// The level the program logs at.
pub const CURRENT_LOG_LEVEL: LogLevel = LogLevel::CountersOnly;

/// Whether a line of `level` is printed when the program logs at `configured`:
/// at `All` the lines of `All` and `CountersOnly` are printed, at
/// `CountersOnly` only those of `CountersOnly`, at `Silent` nothing.
pub open spec fn log_admits_spec(configured: LogLevel, level: LogLevel) -> bool {
    ||| configured == LogLevel::All && (level == LogLevel::All || level == LogLevel::CountersOnly)
    ||| configured == LogLevel::CountersOnly && level == LogLevel::CountersOnly
}

/// The filter of the central logging function: whether a line of `level` is
/// printed when the program logs at `configured`.
pub fn println_iff_admits(configured: LogLevel, level: LogLevel) -> (admits: bool)
    ensures
        admits == log_admits_spec(configured, level),
{
    if configured == LogLevel::All && (level == LogLevel::All || level == LogLevel::CountersOnly) {
        true
    } else if configured == LogLevel::CountersOnly && level == LogLevel::CountersOnly {
        true
    } else {
        false
    }
}

} // verus!
