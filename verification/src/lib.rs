//! Request dispatch and job supervision for a chat bot that fetches media
//! with a command-line downloader and hands the file back to the requester.
//!
//! The crate holds the decisions only. A front end delivers inbound events,
//! performs the actions that the library returns (sending messages, running
//! the downloader, touching storage) and reports what happened.
//!
//! - [`dispatch`] sorts inbound events to handlers and says what to answer.
//! - [`settings`] keeps the quality that each conversation prefers.
//! - [`quality`] defines the quality tiers and their texts.
//! - [`plan`] computes format selectors, downloader arguments and job-scoped
//!   output files.
//! - [`job`] is the state machine of one download.
//! - [`run`] states what holds of every run of a job.
//! - [`config`] checks what the bot needs before it starts.
//! - [`decimal`] and [`text`] are the text primitives underneath.

pub mod config;
pub mod decimal;
pub mod dispatch;
pub mod job;
pub mod plan;
pub mod quality;
pub mod run;
pub mod settings;
pub mod text;
