//! The core of a voice-channel music bot: per-guild settings, the playback
//! queue and what happens when a track ends, the queue listing with its page
//! controls, reading what the media extractor reports, and the decisions on
//! joining, leaving and deleting messages.

pub mod commands;
pub mod looping;
pub mod notices;
pub mod pages;
pub mod playback;
pub mod presence;
pub mod resolve;
pub mod settings;
pub mod text;
