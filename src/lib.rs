//! Start-up of a desktop shell that launches a companion web server as a
//! detached process. The decisions are made here, on plain values: which log
//! sink to attach, where and how the server is started, what is logged, and
//! when start-up fails. Performing the actions is left to the caller.

pub mod launch;
pub mod laws;
pub mod message;
pub mod mode;
pub mod path;
pub mod setup;
