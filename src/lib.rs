//! Decision logic for a one-shot local-socket shutdown scenario.
//!
//! A listener accepts one connection and hands its write half to a detached
//! sender task; the sender writes one greeting and idles; the main task
//! connects a client, yields a few times and returns, which tears the runtime
//! down while the sender is still suspended. Each actor is a state machine
//! here: a driver performs the action it returns and feeds back what happened.
pub mod endpoint;
pub mod error;
pub mod listener;
pub mod scenario;
pub mod sender;
