//! A rendering backend that maps a character grid of styled cells onto an
//! immediate-mode 2D drawing surface.
//!
//! The library decides; the host paints. Every operation of
//! [`CanvasBackend`] takes what the host has just read from the live surface
//! and returns the list of [`command::Command`]s that the host is to perform
//! on it, in order.

pub mod backend;
pub mod cell;
pub mod color;
pub mod command;
pub mod geometry;
pub mod paint;
pub mod surface;

pub use crate::backend::CanvasBackend;
