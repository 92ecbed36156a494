//! A filterable, scrollable customer list driven by a single-line editor.
pub mod colors;
pub mod contact;
pub mod customer;
pub mod editor;
pub mod filter;
pub mod line_buffer;
pub mod ordering;
pub mod phone;
pub mod scroll_buffer;
pub mod status_line;
pub mod text;
pub mod viewport;
