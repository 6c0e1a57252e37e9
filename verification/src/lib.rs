//! A palette of colors for a terminal user interface.
//!
//! A [`palette::Palette`] assigns a concrete [`color::Color`] to each of the
//! fixed built-in roles of [`role::PaletteColor`], and keeps an open tree of
//! custom named values ([`node::PaletteNode`]) that themes may override or
//! merge. The tree can be populated from a generic configuration tree
//! ([`config::ConfigNode`]) supplied by the host application.

pub mod color;
pub mod config;
pub mod laws;
pub mod node;
pub mod palette;
pub mod role;
mod text;
