//! Decision logic of an audio transcription service.
//!
//! The service fetches recordings from blob storage, normalises them to the
//! canonical audio format, runs them through a single inference engine and
//! records progress and results in a key-value store.  Every rule of that
//! pipeline (what is asked of the outside world next, what is persisted,
//! which answer a caller receives) lives in this crate as a function on
//! plain values; the surrounding program performs the requests and feeds the
//! replies back.
//!
//! * [`config`]: the settings and their defaults.
//! * [`storage`]: object keys and the outcome of a download.
//! * [`queue`]: the records of the status store and the commands that write
//!   them; [`store`] says what those commands mean.
//! * [`transcriber`]: the engine guard and the steps of one transcription.
//! * [`pipeline`]: the path of one recording from storage to its text.
//! * [`batch`]: the orchestrator of batch jobs.
//! * [`handlers`]: the answers of the endpoints.
//! * [`text`]: the text helpers that the others share.

pub mod batch;
pub mod config;
pub mod handlers;
pub mod pipeline;
pub mod queue;
pub mod storage;
pub mod store;
pub mod text;
pub mod transcriber;
