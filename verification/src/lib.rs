//! The verified core of a small ray tracer: colors as stored values and the
//! canvas that collects them, with every access to the canvas checked
//! against its bounds.

pub mod canvas;
pub mod color;
pub mod grid;
