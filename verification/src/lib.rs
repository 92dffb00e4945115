//! Client-side call orchestration for a remote key/value item service.
//!
//! The crate holds the decisions of an interactive client and none of its
//! input or output: how a call is built and how it ends (`calls`), which
//! calls are made at startup and what their answers must look like
//! (`startup`), and what a line of operator input asks for (`command`,
//! `session`). `service` states what the client takes the remote service to
//! be, and proves what follows from it for the calls and the startup run.
//!
//! The program around the crate reads the lines, makes the exchanges, waits,
//! logs and prints.

pub mod calls;
pub mod command;
pub mod endpoint;
pub mod messages;
pub mod service;
pub mod session;
pub mod startup;
pub mod text;
pub mod words;
