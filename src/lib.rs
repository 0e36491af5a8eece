//! Verified core of an audio-middleware integration for an ECS game engine.
//!
//! The library keeps the bookkeeping that surrounds the middleware's calls:
//! which playing IDs are alive on an emitter, which callback flags a post asks
//! for, in which order game objects are registered and the engine is brought up
//! and torn down, and the plugin's basic settings. The middleware itself is driven by the
//! application around this crate, which performs each call the library plans
//! and reports its outcome back.
pub mod playing;
pub mod emitter_listener;
pub mod text;
pub mod script;
pub mod plugin;
pub mod sound_engine;
