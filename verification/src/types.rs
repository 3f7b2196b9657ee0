//! The messages, the persisted record, the query response and the error
//! taxonomy of the counter module.

use vstd::prelude::*;

verus! {

/// The sole persisted entity: a single non-negative counter in the 32-bit
/// unsigned range. Exactly one record of it exists per module instance, from
/// the moment initialization completes.
#[derive(Clone, Copy, Debug, PartialEq, Eq, Structural)]
pub struct AppState {
    pub current_value: u32,
}

/// Message that establishes the counter's first value, exactly once, at
/// module instantiation.
#[derive(Clone, Copy, Debug, PartialEq, Eq, Structural)]
pub struct InstantiateMsg {
    pub initial_value: u32,
}

/// Transition messages: move the counter one step up or down.
#[derive(Clone, Copy, Debug, PartialEq, Eq, Structural)]
pub enum ExecuteMsg {
    Increment {},
    Decrement {},
}

/// Query messages: read the counter without mutating it.
#[derive(Clone, Copy, Debug, PartialEq, Eq, Structural)]
pub enum QueryMsg {
    Current {},
}

/// Query result payload: the counter's current value.
#[derive(Clone, Copy, Debug, PartialEq, Eq, Structural)]
pub struct CurrentResp {
    pub value: u32,
}

/// Typed failures surfaced to the host. The core performs no local recovery:
/// every failure is reported as-is, and a failed call commits no state change.
#[derive(Clone, Copy, Debug, PartialEq, Eq, Structural)]
pub enum Error {
    /// A transition or query arrived before initialization.
    Uninitialized,
    /// A second initialization attempt on an already-instantiated module.
    AlreadyInitialized,
    /// An increment would leave the 32-bit unsigned range.
    Overflow,
    /// A decrement would go below zero.
    Underflow,
    /// The underlying store failed. The pure handlers never produce this:
    /// it belongs to the persistence harness that mediates storage I/O.
    StorageFailure,
}

} // verus!
