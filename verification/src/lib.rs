//! Support routines for Dioxus documents and the Dioxus CLI: the JavaScript that
//! creates elements in a document's head, document evaluation, and the
//! decisions of the CLI's log routing and fullstack build setup.

mod text;
pub mod clock;
pub mod document;
pub mod eval;
pub mod trace_src;
pub mod logging;
pub mod uptime;
pub mod fullstack;
pub mod js_reading;
