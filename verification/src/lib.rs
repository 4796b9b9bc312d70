//! SafeRoute: an ephemeral, encrypted, time-bounded vault for sensitive
//! entities, and the rules of the command-line tool that manages the
//! service cluster.

pub mod cli;
pub mod vault;
