//! A typed client kernel for the Spotify Web API: the authentication
//! typestate, the request pipeline and the endpoint builders, with every
//! decision stated as a contract.
//!
//! The library decides and describes; it neither sends nor receives. A
//! [`Client`] starts without a token, for one of three flows. Its
//! `authenticate` asks for an [`client::Exchange`] with the token endpoint, and
//! [`client::Pending::complete`] turns what upstream granted into a client that
//! holds a token. From then on every endpoint gives a [`client::Dispatch`]: the
//! request to send, the refresh that has to come first, or the failure. What
//! comes back is lifted by [`response::Response`].

pub mod auth;
pub mod catalogue;
pub mod client;
pub mod encoding;
pub mod endpoint;
pub mod error;
pub mod http;
pub mod json;
pub mod oauth;
pub mod personal;
pub mod response;
pub mod text;
pub mod time;

pub use client::Client;
pub use error::Error;
pub use http::body_list;
pub use response::Nil;
pub use text::query_list;
