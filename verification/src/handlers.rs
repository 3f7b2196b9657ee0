//! The three message handlers, each a pure function from the current state
//! and one message to a result.
//!
//! The state machine has two shapes of state: uninitialized (`None`, the sole
//! initial state) and initialized (`Some(AppState)`). Each handler's behaviour
//! is given by a spec function of the same shape, and the executable handler
//! is proved to return exactly that.

use vstd::prelude::*;

use crate::types::AppState;
use crate::types::CurrentResp;
use crate::types::Error;
use crate::types::ExecuteMsg;
use crate::types::InstantiateMsg;
use crate::types::QueryMsg;

verus! {

/// What instantiation returns: the first state, write-once. A module that
/// already holds a state rejects a second attempt and keeps its value.
pub open spec fn spec_instantiate(
    state: Option<AppState>,
    msg: InstantiateMsg,
) -> Result<AppState, Error> {
    match state {
        Option::None => Result::Ok((AppState { current_value: msg.initial_value })),
        Option::Some(_) => Result::Err(Error::AlreadyInitialized),
    }
}

/// What a transition returns: one step up or down inside the 32-bit unsigned
/// range, a bounds error at either end, and `Uninitialized` before the first
/// state exists.
pub open spec fn spec_execute(
    state: Option<AppState>,
    msg: ExecuteMsg,
) -> Result<AppState, Error> {
    match state {
        Option::None => Result::Err(Error::Uninitialized),
        Option::Some(st) => match msg {
            ExecuteMsg::Increment {} => if st.current_value < u32::MAX {
                Result::Ok((AppState { current_value: (st.current_value + 1) as u32 }))
            } else {
                Result::Err(Error::Overflow)
            },
            ExecuteMsg::Decrement {} => if st.current_value > 0 {
                Result::Ok((AppState { current_value: (st.current_value - 1) as u32 }))
            } else {
                Result::Err(Error::Underflow)
            },
        },
    }
}

/// What a query returns: the current value, read without mutation, and
/// `Uninitialized` before the first state exists.
pub open spec fn spec_query(
    state: Option<AppState>,
    msg: QueryMsg,
) -> Result<CurrentResp, Error> {
    match state {
        Option::None => Result::Err(Error::Uninitialized),
        Option::Some(st) => match msg {
            QueryMsg::Current {} => Result::Ok((CurrentResp { value: st.current_value })),
        },
    }
}

/// Initialization handler: constructs the counter's first state, exactly
/// once. If storage already holds a state, the attempt fails rather than
/// overwrite.
pub fn instantiate(state: Option<AppState>, msg: InstantiateMsg) -> (res: Result<
    AppState,
    Error,
>)
    ensures
        res == spec_instantiate(state, msg),
{
    match state {
        Option::None => Result::Ok(AppState { current_value: msg.initial_value }),
        Option::Some(_) => Result::Err(Error::AlreadyInitialized),
    }
}

/// Transition handler: applies an increment or decrement message to the
/// stored value, enforcing the numeric bounds. A failed call reports the
/// specific error and yields no new state.
pub fn execute(state: Option<AppState>, msg: ExecuteMsg) -> (res: Result<AppState, Error>)
    ensures
        res == spec_execute(state, msg),
{
    match state {
        Option::None => Result::Err(Error::Uninitialized),
        Option::Some(st) => match msg {
            ExecuteMsg::Increment {} => if st.current_value < u32::MAX {
                Result::Ok(AppState { current_value: st.current_value + 1 })
            } else {
                Result::Err(Error::Overflow)
            },
            ExecuteMsg::Decrement {} => if st.current_value > 0 {
                Result::Ok(AppState { current_value: st.current_value - 1 })
            } else {
                Result::Err(Error::Underflow)
            },
        },
    }
}

/// Query handler: renders the stored value into a response payload. It takes
/// the state by value and returns only the payload: no mutation is possible.
pub fn query(state: Option<AppState>, msg: QueryMsg) -> (res: Result<CurrentResp, Error>)
    ensures
        res == spec_query(state, msg),
{
    match state {
        Option::None => Result::Err(Error::Uninitialized),
        Option::Some(st) => match msg {
            QueryMsg::Current {} => Result::Ok(CurrentResp { value: st.current_value }),
        },
    }
}

} // verus!
