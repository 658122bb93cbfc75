//! What the commands decide: which configuration to read, which settings
//! win, what files `init` writes, how `publish` computes the daily hash and
//! how `stop` ends the daemon.

pub mod init;
pub mod publish;
pub mod start;
pub mod stop;
