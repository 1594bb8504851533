//! The To Do service of Microsoft Graph.

pub mod http_client;
