//! Byte-level kernel of a small ray-tracing renderer: the axis enumeration,
//! hex color literals, and the plain-text pixel format. Floating-point vector
//! algebra lives with the callers; everything here is exact integer, byte and
//! text logic with proved contracts.

pub mod color;
pub mod geometry;
pub mod text;
