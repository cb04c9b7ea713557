//! Supervision of long-running game-server processes.
//!
//! The crate holds the decisions of a supervisor and none of its input or
//! output. An [`instance::Instance`] is the lifecycle of one managed process
//! together with the history of its console and the queue of commands that
//! wait for its input. A [`manager::Manager`] owns the instances, each under
//! the id of its server, and decides what creating, starting, stopping,
//! deleting and switching the version of a server come to.
//!
//! Whoever runs the processes tells the crate what happened: how a spawn
//! went, what a look at a process found, which line a process printed. The
//! crate answers with what to do next: the command line to launch, the
//! texts to write to a process's input, the directory to copy or to remove.
//!
//! Every function states what it returns and what it changes, over the
//! views of the types; [`guarantees`] states what follows for every run.

pub mod console;
pub mod error;
pub mod frontend;
pub mod guarantees;
pub mod instance;
pub mod manager;
pub mod readiness;
pub mod text;
