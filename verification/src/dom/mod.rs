//! The page backend: a small shim owns every element, by number, and this side decides what the
//! shim is told to do.
pub mod act;
pub mod canvas;
pub mod canvas_reader;
pub mod css;
pub mod css_laws;
pub mod event_laws;
pub mod events;
pub mod host;
pub mod image;
pub mod list;
pub mod list_laws;
pub mod listen;
pub mod looks;
pub mod nav;
pub mod nav_laws;
pub mod piece_laws;
pub mod realize;
pub mod spec_laws;
pub mod specs;
pub mod state;
pub mod tree;
pub mod update;
pub mod walk;
