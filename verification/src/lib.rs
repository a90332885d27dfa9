//! The WHATWG streams machinery of a script runtime: readable streams with
//! default and byte controllers, their readers, tee, and writable streams.
//! Script values are handled by opaque handles; each step of a stream says what
//! outside work its host performs next.
pub mod effect;
pub mod byte_queue;
pub mod readable;
pub mod default_controller;
pub mod byte_controller;
pub mod reader;
pub mod tee;
pub mod writable;
pub mod module;
pub mod laws;
pub mod byte_tee;
pub mod strategy;
