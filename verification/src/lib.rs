//! Backend adaptation for a device-independent 2D drawing interface.
//!
//! The crate turns abstract drawing requests (paths, brushes, stroke styles,
//! save and restore) into the primitive calls of a native drawing engine, and
//! turns the native pixel buffer of a raster surface into tightly packed
//! premultiplied RGBA bytes.
//!
//! It never talks to an engine itself. A render context answers each
//! request with the list of calls to perform; a bitmap target works on the
//! native bytes that were read from a surface.

pub mod error;
pub mod geometry;
pub mod color;
pub mod stroke;
pub mod coregraphics;
pub mod svg_text;
pub mod bitmap;
