//! Meridian: the verified core of a local-first personal productivity assistant.
//!
//! The library holds the logic of the assistant (at-rest encryption of secrets,
//! the database key kept in the OS keychain, tasks and reminders, the daily
//! briefing assembled from integration events, the per-service event mapping,
//! and the scheduling decisions of the background services) with contracts
//! proved by Verus. Network, disk, keychain and desktop-shell plumbing lives
//! outside this crate.
pub mod codec;
pub mod encryption;
pub mod keychain;
pub mod tasks;
pub mod text;
pub mod events;
pub mod summarizer;
pub mod prompts;
pub mod settings;
pub mod ollama;
pub mod integrations;
pub mod sources;
pub mod oauth;
pub mod reminder;
