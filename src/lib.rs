//! Safe, verified control layer for a splash-screen window driven by a
//! native render engine: status-code mapping, text validation and the
//! lifecycle state machine that guards the engine's context.
#![allow(non_camel_case_types)]

pub mod error;
pub mod lifecycle;
pub mod status;
pub mod text;
