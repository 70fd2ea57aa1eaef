//! A document model for SVG drawings with declarative animation, and the
//! machinery that resolves every animated attribute at a point in time.

pub mod chars;
pub mod dom;
pub mod draw;
pub mod encoding;
pub mod geometry;
pub mod number;
