//! A verified core for a screen-activity timeline with a distraction
//! detection engine.
//!
//! The library receives one capture event at a time (image bytes, the
//! foreground application, whether the foreground context changed) and
//! decides whether it is worth invoking a vision-model backend to score the
//! user's focus, and whether to surface a distraction alert.  The decision
//! pipeline combines a two-sample lingering state machine, an alert-cooldown
//! throttle, perceptual-hash deduplication of near-identical frames, and a
//! lenient free-text score parser.

pub mod result;
pub mod strutil;
pub mod parse;
pub mod phash;
pub mod imaging;
pub mod encoding;
pub mod backend;
pub mod openai;
pub mod ollama;
pub mod config;
pub mod event;
pub mod guard;
pub mod foreground;
pub mod strfmt;
pub mod records;
pub mod compaction;
