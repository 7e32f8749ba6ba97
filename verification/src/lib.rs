//! A desktop application shell: a splash window that hands over to a
//! maximised main window with a custom title bar.
//!
//! The crate holds the decisions of the shell as values: what each
//! controller asks of the host in answer to an event, which icon a button
//! shows, what size a widget takes. A toolkit front end delivers the events
//! and carries the answers out.

pub mod app_data;
pub mod window;
pub mod event;
pub mod layout;
pub mod splash;
pub mod splash_laws;
pub mod main_control;
pub mod delegate;
pub mod titlebar;
pub mod titlebar_laws;
