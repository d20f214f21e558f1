//! Planning for a static documentation build.
//!
//! A source tree of AsciiDoc documents is mirrored into a build tree: each
//! directory is recreated, each document is rendered to a page by an outside
//! renderer, every other file is copied, and an index page links the rendered
//! pages by their titles. This library decides what is to be done and in which
//! order; it touches neither the file system nor the renderer. A driver performs
//! each [`builder::Action`] and reports what happened as an [`builder::Event`].

pub mod error;
pub mod text;
pub mod path;
pub mod title;
pub mod renderer;
pub mod outline;
pub mod builder;
pub mod order;
