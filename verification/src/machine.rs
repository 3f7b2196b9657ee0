//! One module instance together with the host's transactional envelope.
//!
//! The host dispatches one message at a time and wraps each handler call in
//! an implicit transaction: a successful call commits the new state, a failed
//! call leaves the persisted state exactly as it was. `Instance` reproduces
//! that envelope over the pure handlers, so the whole state machine can be
//! driven and reasoned about without a live host.

use vstd::prelude::*;

use crate::handlers;
use crate::handlers::spec_execute;
use crate::handlers::spec_instantiate;
use crate::handlers::spec_query;
use crate::types::AppState;
use crate::types::CurrentResp;
use crate::types::Error;
use crate::types::ExecuteMsg;
use crate::types::InstantiateMsg;
use crate::types::QueryMsg;

verus! {

/// A module instance: the single persisted state slot, `None` until
/// initialization completes.
pub struct Instance {
    state: Option<AppState>,
}

impl View for Instance {
    type V = Option<AppState>;

    closed spec fn view(&self) -> Option<AppState> {
        self.state
    }
}

impl Instance {
    /// A fresh instance: uninitialized, the sole initial state.
    pub fn new() -> (r: Instance)
        ensures
            r@ is None,
    {
        Instance { state: None }
    }

    /// Dispatch an instantiation message. On success the first state is
    /// committed; on failure nothing is persisted and the prior value stays
    /// intact.
    pub fn init(&mut self, msg: InstantiateMsg) -> (res: Result<(), Error>)
        ensures
            match spec_instantiate(old(self)@, msg) {
                Result::Ok(st) => res == Result::<(), Error>::Ok(()) && final(self)@ == Some(st),
                Result::Err(e) => res == Result::<(), Error>::Err(e) && final(self)@ == old(self)@,
            },
    {
        match handlers::instantiate(self.state, msg) {
            Result::Ok(st) => {
                self.state = Some(st);
                Result::Ok(())
            },
            Result::Err(e) => Result::Err(e),
        }
    }

    /// Dispatch a transition message. The operation is atomic from the
    /// caller's perspective: either the updated state is committed, or a
    /// failure is reported and the state is unchanged.
    pub fn execute(&mut self, msg: ExecuteMsg) -> (res: Result<(), Error>)
        ensures
            match spec_execute(old(self)@, msg) {
                Result::Ok(st) => res == Result::<(), Error>::Ok(()) && final(self)@ == Some(st),
                Result::Err(e) => res == Result::<(), Error>::Err(e) && final(self)@ == old(self)@,
            },
    {
        match handlers::execute(self.state, msg) {
            Result::Ok(st) => {
                self.state = Some(st);
                Result::Ok(())
            },
            Result::Err(e) => Result::Err(e),
        }
    }

    /// Dispatch a query message: a pure read. The receiver is shared, so no
    /// mutation is possible, and the response is exactly the one the query
    /// handler gives for the current state.
    pub fn query(&self, msg: QueryMsg) -> (res: Result<CurrentResp, Error>)
        ensures
            res == spec_query(self@, msg),
    {
        handlers::query(self.state, msg)
    }
}

} // verus!
