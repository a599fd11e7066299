//! Planning and decision logic of a cross-platform screen recorder:
//! recorder state, settings, shortcuts, permission guidance, backend
//! selection and the per-platform capture, audio and encoder plans.

pub mod text;
pub mod capture;
pub mod shortcuts;
pub mod storage;
pub mod json;
pub mod permissions;
pub mod app_core;
pub mod linux;
pub mod macos;
pub mod windows;
