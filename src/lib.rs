//! The decisions of a window that draws one triangle per frame: the surface
//! configuration that follows the window's size, and what the event loop does
//! with each window event and with the outcome of each frame.
//!
//! The library holds no GPU or window handle. The program around it performs
//! the actions that it asks for (configure the surface, draw a frame, leave the
//! loop) and hands back what came of them.

pub mod event_loop;
pub mod lifecycle;
pub mod render;
