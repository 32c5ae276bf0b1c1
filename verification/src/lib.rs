//! An item canvas: rectangular items stacked in paint order, of which at most
//! one is selected and can be dragged.
//!
//! Coordinates are whole canvas units (`i64`). The canvas holds no widget and
//! draws nothing itself: it takes pointer events as plain values and says, as a
//! list of paint steps, what a front end has to draw.

pub mod canvas;
pub mod item;
pub mod message;
pub mod render;
pub mod theorems;

pub use canvas::{CanvasState, ItemCanvas};
pub use item::Item;
pub use message::CanvasWidgetsMsg;
pub use render::PaintStep;
