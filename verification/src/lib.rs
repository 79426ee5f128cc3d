//! Geolocation lookup dashboard: the data model of a lookup, the decisions of
//! the fetch worker and of the interactive session, and the screen that each
//! session state is shown as.

pub mod degrees;
pub mod ip_fetcher;
pub mod session;
pub mod screen;
pub mod render;
pub mod worker;
pub mod controller;
