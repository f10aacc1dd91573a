//! Per-frame input state for an interactive window: key and pointer-button
//! bookkeeping, click and drag recognition, and the frame-boundary reset.
//! Alongside it, the choice of a graphics device and its queue families.
pub mod geometry;
pub mod input_model;
pub mod input_state;
pub mod input_laws;
pub mod device_selection;
