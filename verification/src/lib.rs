//! Core logic of the Yavin learning platform: user accounts, per-section
//! progress, quiz scoring, daily streaks, experience points, achievement
//! badges, certificate eligibility, content search, and the decision rules
//! of the assistant chat endpoint.
//!
//! Everything here is plain state-transition logic over in-memory values;
//! the HTTP server, template rendering, and the outbound assistant call
//! live outside this library and hand it plain values.

pub mod auth;
pub mod badges;
pub mod catalog;
pub mod certificate;
pub mod chat;
pub mod grants;
pub mod platform;
pub mod progress;
pub mod search;
pub mod seqext;
pub mod streak;
pub mod text;
pub mod user;
