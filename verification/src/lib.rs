//! Typed client library for the Brigade v2 REST API.
//!
//! The library builds each HTTP request as a plain value ([`rest::HttpRequest`])
//! with a verified contract on its method, URL, query parameters, auth and
//! body, and decodes response bodies with a verified JSON codec.  Sending the
//! requests over the network is left to the surrounding application.

pub mod authn;
pub mod client;
pub mod container;
pub mod error;
pub mod events;
pub mod job;
pub mod json;
pub mod meta;
pub mod parse;
pub mod payload;
pub mod projects;
pub mod rest;
pub mod text;
pub mod worker;
