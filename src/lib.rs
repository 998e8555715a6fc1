//! A small terminal-rendering core: world and screen geometry, a camera that
//! projects world positions into camera-relative offsets, a viewport that
//! collects the pixels of one frame, and a renderer that hands them to a
//! render target.

mod camera;
mod events;
mod geometry;
mod render;
mod viewport;

pub use camera::Camera;
pub use crossterm::event::{KeyCode, KeyEvent, MouseEvent};
pub use events::{frame_interval_ms, key_event, read_step, Event, RawInput};
pub use geometry::{BoundingBox, Pixel, ScreenPos, ScreenSize, WorldPos, WorldSize};
pub use render::{RenderTarget, Renderer};
pub use viewport::{lemma_frame_isolation, placeable, placed, Viewport};
