//! The HarmonyOS backend: native nodes built and placed one by one, navigation that the platform
//! animates, and the records that keep both sides in step.
pub mod act;
pub mod event_laws;
pub mod events;
pub mod looks;
pub mod manifest;
pub mod menu;
pub mod nav;
pub mod piece;
pub mod piece_laws;
pub mod realize;
pub mod state;
pub mod suite;
pub mod suite_laws;
pub mod tree;
pub mod update;
