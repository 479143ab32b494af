//! A small contact-form backend library: field validation, string
//! sanitization, outbound-email composition, and the pure
//! request/response logic of a three-endpoint HTTP service.
#![allow(unused_imports)]

pub mod config;
pub mod email;
pub mod respond;
pub mod routes;
pub mod sanitize;
pub mod submission;
pub mod text;
