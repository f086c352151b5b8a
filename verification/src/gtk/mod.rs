//! The GTK backend: widgets on fixed containers, menus as models and actions, pages in Adwaita's
//! navigation widgets, and the records that keep the app and the widgets in step.
pub mod act;
pub mod canvas;
pub mod canvas_laws;
pub mod css;
pub mod dialogs;
pub mod gestures;
pub mod input;
pub mod labels;
pub mod menu;
pub mod menu_laws;
pub mod nav;
pub mod numbers;
pub mod path;
pub mod piece_laws;
pub mod pixels;
pub mod quiet;
pub mod realize;
pub mod rows;
pub mod state;
pub mod table_laws;
pub mod text;
pub mod tree;
pub mod update;
pub mod widgets;
pub mod windows;
