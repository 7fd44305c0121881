//! Bulk commenting on videos: one comment text, many videos, posted one by
//! one.
//!
//! The heart of the library is the batch orchestrator. A submission becomes
//! a batch of tasks in the [`registry`]; the [`executor`] takes the tasks in
//! order, asks for each dispatch and records its outcome; the
//! [`rate_gate`] says how long to wait between dispatches; the
//! [`orchestrator`] holds the operations that a caller sees. What a batch
//! may do is fixed by the three updates of [`batch`], and [`laws`] and
//! [`run`] state what follows from them.
//!
//! The library does not send, wait, read files or read the clock: whoever
//! calls it says what time it is. It builds what is to be
//! sent ([`dispatcher`], [`search`], [`client`]), reads what came back
//! ([`dispatcher`], [`search`], [`login`], [`qr`]) and works on values
//! ([`storage`], [`templates`]). The few calls into other crates stand in
//! [`outside`].

pub mod assoc;
pub mod batch;
pub mod client;
pub mod dispatcher;
pub mod error;
pub mod executor;
pub mod laws;
pub mod login;
pub mod models;
pub mod orchestrator;
pub mod outside;
pub mod qr;
pub mod rate_gate;
pub mod registry;
pub mod run;
pub mod search;
pub mod storage;
pub mod templates;
pub mod text;
