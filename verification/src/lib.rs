//! An HTML and JavaScript driven GUI surface for audio plugins: the verified
//! core of the objects that host a web-rendering control inside a plugin
//! window.

pub mod browser;
pub mod client_site;
pub mod com_pointer;
pub mod dispatch;
pub mod error;
pub mod foreign_object;
pub mod geometry;
pub mod gui;
pub mod in_place_frame;
pub mod interface;
pub mod object_table;
pub mod status;
pub mod utf16;
pub mod window;
