//! Adaptive dock layout and interaction engine.
//!
//! A dock is a strip of launcher icons pinned to the bottom edge of the
//! screen. This crate holds the pure core of such a dock: the magnification
//! model that turns a pointer position into per-icon scale factors, the
//! layout solver that packs the scaled icons into a centered bar, the dock
//! state machine that reacts to pointer and screen events, the screen-space
//! reservation coordinator, and the animation driver. All geometry is kept
//! in integer fixed point: coordinates in thousandths of a pixel and scale
//! factors in thousandths, so every computation is exact and verified.
//!
//! The host shell around the dock (window creation, compositing, OS calls)
//! is not part of this crate; it feeds events in and applies the emitted
//! geometry and actions.

pub mod anim;
pub mod apps;
pub mod config;
pub mod layout;
pub mod magnify;
pub mod pixels;
pub mod state;
