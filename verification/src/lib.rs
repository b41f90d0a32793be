//! Verified core of the Chimera terminal dashboard: list navigation, popup
//! stack, scroll windows and the state machines and text builders of the
//! dashboard panels.

pub mod events;
pub mod input;
pub mod json;
pub mod panels;
pub mod popup;
pub mod render;
pub mod rewind;
pub mod slash_surface;
pub mod text;
pub mod types;
