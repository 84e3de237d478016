//! Core of a touch-strip function row: the button and layer model, the exact
//! row layout with its hit test, the dirty-region redraw plan, the touch
//! routing state machine and the synthetic key reports it produces.
//!
//! Everything here works on plain integers. Drawing, device access and the
//! event loop live outside this library and exchange plain values with it.

pub mod layout;
pub mod keys;
pub mod button;
pub mod layer;
pub mod names;
pub mod router;
pub mod compose;
