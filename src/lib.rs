//! Routing of pointer gestures to one of five pen tools, by a selected style
//! and a transient override.

pub mod pens;
pub mod style;

pub use pens::{Pens, PensModel, PensState};
pub use style::PenStyle;
