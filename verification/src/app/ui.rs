//! # UI Module
//!
//! Display-ready values that the engine hands to a renderer.

pub mod chars;
pub mod theme;
