//! Execution core of a minimal state-transition module: a single mutable
//! counter driven by three kinds of messages (initialize, mutate, read).
//!
//! The handlers are pure functions from the current state and a message to a
//! result, so they can be verified and unit-tested without a live host. The
//! host runtime that decodes messages, persists the state record and commits
//! or rolls back each invocation is an external collaborator and stays
//! outside this crate.

pub mod handlers;
pub mod laws;
pub mod machine;
pub mod types;

pub use handlers::execute;
pub use handlers::instantiate;
pub use handlers::query;
pub use handlers::spec_execute;
pub use handlers::spec_instantiate;
pub use handlers::spec_query;
pub use machine::Instance;
pub use types::AppState;
pub use types::CurrentResp;
pub use types::Error;
pub use types::ExecuteMsg;
pub use types::InstantiateMsg;
pub use types::QueryMsg;
