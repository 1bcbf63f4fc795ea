//! A verified layout engine for a small monochrome badge card: a scannable
//! code block rasterized at a fixed scale and anchor, plus a stack of text
//! lines laid out top to bottom by a running cursor.
//!
//! The pixel surface and the layout arithmetic are verified here; the code
//! encoder is an outside collaborator reached through trusted wrappers, and
//! glyph rasterization is left to the display layer, which receives the text
//! draw operations this crate computes.

pub mod draw;
pub mod geometry;
pub mod qrcode;
pub mod surface;
