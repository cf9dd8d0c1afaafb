//! How an HTTPS server keeps its own certificate fresh, and what it answers.
//!
//! Where the server has to do something outside, such as to run a command or
//! to wait, the library hands out an action and takes an event back. What
//! follows from each event is stated and proved here.

pub mod acme;
pub mod acme_laws;
pub mod cert_manager;
pub mod clock;
pub mod config;
pub mod course_laws;
pub mod date_laws;
pub mod dates;
pub mod http_redirect;
pub mod pair_laws;
pub mod paths;
pub mod provision;
pub mod provision_laws;
pub mod proxy;
pub mod renewal_laws;
pub mod server;
pub mod text;
pub mod text_laws;
