//! The decisions of a minimal remote command-execution service.
//!
//! A server accepts TCP connections, reads one payload from each, runs it as
//! a shell command and answers with a short status; a client sends one
//! payload and prints the answer. This library holds everything those two
//! programs decide and compute: how much of a read is kept, how bytes become
//! text, what is handed to the shell, what is written back, and in which order
//! the steps of a connection may follow each other. Sockets, processes and
//! threads belong to the program around it, which performs the actions that
//! the library asks for and reports what happened.

pub mod client;
pub mod handler;
pub mod isolation;
pub mod listener;
pub mod protocol;
pub mod runner;
pub mod wire;
