//! Small capability traits for components that read and write objects.
//!
//! [`ObjectReader`] and [`ObjectWriter`] are not a serialization framework: each
//! implementation reads or writes one type of object in one format. [`HasOptions`]
//! attaches a configuration value to such a component.

pub mod failure;
pub mod laws;
pub mod options;
pub mod reader;
pub mod text;
pub mod writer;

pub use options::HasOptions;
pub use reader::ObjectReader;
pub use writer::ObjectWriter;
