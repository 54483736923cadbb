//! A multi-platform post dispatch engine: per-platform request signing and
//! payload construction, an adaptive image transcoder, and an orchestrator
//! that fans a post out to the selected platforms and aggregates outcomes.

pub mod bluesky;
pub mod codec;
pub mod config;
pub mod credentials;
pub mod image_utils;
pub mod jsonx;
pub mod mastodon;
pub mod nostr;
pub mod platforms;
pub mod post_manager;
pub mod strutil;
pub mod twitter;
