//! A personal task manager's workflows, layered over an external task store.
//!
//! The workflows are state machines: each state names the request it waits
//! on (a prompt, a store command, a message), and `step` consumes the reply
//! to that request and yields the next state. Whoever runs them performs
//! the requests; the decisions are all here.
pub mod commands;
pub mod config;
pub mod error;
pub mod external;
pub mod links;
pub mod parser;
pub mod scrum;
pub mod store;
pub mod table;
pub mod task;
pub mod text;
pub mod workflow;
