//! Message-driven shared state for cooperating tasks: the lock protocol of a
//! per-value actor, and the lifecycle of the registrar that drains spawned
//! units of work at shutdown. The tasks, channels and runtime that drive these
//! state machines live outside this crate's verified core.

pub mod actor;
pub mod lock;
pub mod outcome;
pub mod registrar;

pub use actor::{Action, SharedValueActor, SharedValueMessage};
pub use lock::LockState;
pub use outcome::EventLoopResult;
pub use registrar::{NodeManagerMessage, RegistrarAction, RegistrarPhase, TaskRegistrar};
