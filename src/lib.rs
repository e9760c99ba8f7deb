//! Access policy of a SOCKS5 proxy: the users and hosts it admits, the
//! authentication methods it offers, and the rules that decide whether its
//! configuration file may be trusted at startup.
use vstd::prelude::*;

pub mod auth;
pub mod config;
pub mod fqdn;
pub mod loader;
pub mod user;

verus! {

} // verus!

pub use auth::{negotiate, AuthMethods};
pub use config::Config;
pub use fqdn::Fqdn;
pub use loader::{FileProbe, LoadStep, StartupError};
pub use user::User;
