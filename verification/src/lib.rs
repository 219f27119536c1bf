//! A relay between HTTP clients and the TallyPrime ODBC driver: request
//! parsing, ODBC sessions, driver registration and HTTP replies, each as
//! verified logic over plain values.

pub mod text;
pub mod api;
pub mod odbc;
pub mod driver;
pub mod server;
