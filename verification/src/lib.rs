//! The verified core of a terminal client for browsing a PostgreSQL server:
//! the cluster model, the focus and input state machine, the statements and
//! connection targets handed to the wire client, the registry of connection
//! pools and the store of connection profiles.
//!
//! Nothing here touches a terminal or a socket. The program around this
//! library reads keys and talks to the server; it hands plain values in and
//! performs the [`app::Action`] it gets back.



pub mod app;
pub mod postgres;
pub mod text;
pub mod ui;

pub mod widgets;
