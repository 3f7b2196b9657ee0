//! Laws of the counter state machine, each proved once and for all over the
//! spec-level handlers that the executable handlers are proved to implement.

use vstd::prelude::*;

use crate::handlers::spec_execute;
use crate::handlers::spec_instantiate;
use crate::handlers::spec_query;
use crate::types::AppState;
use crate::types::CurrentResp;
use crate::types::Error;
use crate::types::ExecuteMsg;
use crate::types::InstantiateMsg;
use crate::types::QueryMsg;

verus! {

/// Instantiating an uninitialized module succeeds for every initial value,
/// and querying the state it establishes returns exactly that value.
pub proof fn lemma_init_then_query(msg: InstantiateMsg, q: QueryMsg)
    ensures
        spec_instantiate(Option::None, msg) == Result::<AppState, Error>::Ok(
            (AppState { current_value: msg.initial_value }),
        ),
        spec_query(Option::Some((AppState { current_value: msg.initial_value })), q)
            == Result::<CurrentResp, Error>::Ok((CurrentResp { value: msg.initial_value })),
{
}

/// On any reachable state, `Increment` followed by `Decrement` (or vice
/// versa) returns the counter to its pre-pair value, whenever the first step
/// of the pair does not hit a bound.
pub proof fn lemma_transition_pair_roundtrip(st: AppState)
    ensures
        (spec_execute(Option::Some(st), ExecuteMsg::Increment {}) matches Result::Ok(up)
            ==> spec_execute(Option::Some(up), ExecuteMsg::Decrement {})
                == Result::<AppState, Error>::Ok(st)),
        (spec_execute(Option::Some(st), ExecuteMsg::Decrement {}) matches Result::Ok(down)
            ==> spec_execute(Option::Some(down), ExecuteMsg::Increment {})
                == Result::<AppState, Error>::Ok(st)),
{
}

/// `Increment` at the maximum representable value fails with `Overflow`, and
/// `Decrement` at zero fails with `Underflow`. That the failed call leaves
/// the persisted state unchanged is the transactional envelope's side,
/// stated and proved at `Instance::execute`.
pub proof fn lemma_bounds_are_enforced(st: AppState)
    ensures
        st.current_value == u32::MAX ==> spec_execute(Option::Some(st), ExecuteMsg::Increment {})
            == Result::<AppState, Error>::Err(Error::Overflow),
        st.current_value == 0 ==> spec_execute(Option::Some(st), ExecuteMsg::Decrement {})
            == Result::<AppState, Error>::Err(Error::Underflow),
{
}

/// A query depends on the state alone: any two query messages against the
/// same state return the same response. Together with `Instance::query`
/// taking its receiver shared, repeated queries between two transitions
/// return a stable value.
pub proof fn lemma_query_stable(state: Option<AppState>, q1: QueryMsg, q2: QueryMsg)
    ensures
        spec_query(state, q1) == spec_query(state, q2),
{
}

/// Any transition or query prior to initialization fails with
/// `Uninitialized`, and a second initialization attempt fails with
/// `AlreadyInitialized`, whatever value it carries.
pub proof fn lemma_initialization_discipline(
    st: AppState,
    init: InstantiateMsg,
    m: ExecuteMsg,
    q: QueryMsg,
)
    ensures
        spec_execute(Option::None, m) == Result::<AppState, Error>::Err(Error::Uninitialized),
        spec_query(Option::None, q) == Result::<CurrentResp, Error>::Err(Error::Uninitialized),
        spec_instantiate(Option::Some(st), init) == Result::<AppState, Error>::Err(
            Error::AlreadyInitialized,
        ),
{
}

/// The pure core never reports a storage failure: that error is reserved for
/// the persistence harness that mediates the store.
pub proof fn lemma_core_never_storage_failure(
    state: Option<AppState>,
    init: InstantiateMsg,
    m: ExecuteMsg,
    q: QueryMsg,
)
    ensures
        spec_instantiate(state, init) != Result::<AppState, Error>::Err(Error::StorageFailure),
        spec_execute(state, m) != Result::<AppState, Error>::Err(Error::StorageFailure),
        spec_query(state, q) != Result::<CurrentResp, Error>::Err(Error::StorageFailure),
{
}

} // verus!
