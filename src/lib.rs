//! Pseudo-terminal sessions: the decisions that open a pty pair with a forked
//! child and that drive non-blocking reads and writes on its master side.

pub mod error;
pub mod syscall;
pub mod pty;
pub mod stream;
