//! A subreddit watcher that looks for newly submitted posts linking to a
//! GitHub repository, checks whether that repository lacks a license file,
//! and decides when an automated reply pointing at licensing guidance is due.
//!
//! The library holds the verified logic: URL extraction, the persisted set of
//! already-handled posts, and the watch-loop state machine. All network and
//! file traffic is carried out by the surrounding program, which performs the
//! [`watcher::Action`] the state machine hands out and feeds the outcome back
//! as a [`watcher::Event`].

pub mod laws;
pub mod listing;
pub mod models;
pub mod store;
pub mod util;
pub mod watcher;
