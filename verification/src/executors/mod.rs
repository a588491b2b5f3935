//! Coding agent executors.

pub mod mistral_vibe;
