//! Normalisation, de-duplication and routing rules for live market price ticks.

pub mod connector;
pub mod dedup;
pub mod frames;
pub mod hub;
pub mod json;
pub mod lookup;
pub mod pipeline;
pub mod settings;
pub mod streams;
pub mod subscription;
pub mod text;
pub mod ws_message;
