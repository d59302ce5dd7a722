//! The render-state core of a small image viewer: which shaders a graphics
//! context gets, how the image is fitted into the window, which overlay panels
//! are shown, and how each input event changes that state.

pub mod settings;
pub mod shaders;
pub mod viewport;
pub mod panels;
pub mod events;
pub mod ui;
