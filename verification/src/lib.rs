//! The core of an execution controller for asynchronous work.
//!
//! A [`runtime::Runtime`] decides when work may start, and keeps account of it
//! until it has ended. Work passes two gates on its way to execution
//! ([`work`]), is repeated when it fails ([`retry`]), is waited for under
//! cancellation and a timeout ([`bridge`]), and leaves its results with whoever
//! gathers or streams them ([`gather`], [`stream`], [`forward`]). A runtime is
//! closed on request ([`shutdown`]) or when it has been idle for long enough
//! ([`idle`]).
//!
//! Whatever takes time is done by the caller: it waits, looks, and hands what
//! it saw to the functions here, which say what to do next.

pub mod bell;
pub mod binary64;
pub mod bridge;
pub mod cancel;
pub mod capacity;
pub mod error;
pub mod forward;
pub mod gate;
pub mod gather;
pub mod handle;
pub mod idle;
pub mod journal;
pub mod outcome;
pub mod policy;
pub mod retry;
pub mod runtime;
pub mod shutdown;
pub mod stream;
pub mod task;
pub mod timeout;
pub mod work;
