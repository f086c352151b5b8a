//! The decision layer of the day toolkits: what each backend does with the pieces, patches and
//! native callbacks it is handed, stated over plain values and proved.
pub mod arkui;
pub mod call_laws;
pub mod dom;
pub mod gtk;
pub mod json;
pub mod json_reader;
pub mod keys;
pub mod logging;
pub mod model;
pub mod pieces;
pub mod num;
pub mod rows;
pub mod runs;
pub mod table;
pub mod text;
pub mod value_laws;
