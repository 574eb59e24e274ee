//! The browser client: its wire types, its state machine, and the page
//! updates it decides on.
pub mod protocol;
pub mod state;
pub mod dom;
pub mod ws;
pub mod filter;
pub mod canvas;
