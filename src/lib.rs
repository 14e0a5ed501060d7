//! The data-access and coordinate core of a hex editor: byte sources over
//! different backing stores, regions and grid perspectives over them, views
//! with their scrolling and editing state, and tracking of unsaved changes.

pub mod app;
pub mod damage;
pub mod edit_buffer;
pub mod editing;
pub mod hex_conv;
pub mod hex_ui;
pub mod memmap_accessor;
pub mod perspective;
pub mod region;
pub mod scroll;
pub mod search;
pub mod slices;
pub mod source_access;
pub mod view;
