//! A typed client for the Paystack REST API.
//!
//! Every endpoint call is split into two verified halves: building the
//! outbound HTTP request (method, URL, bearer authorization, serialized
//! body or query string) and classifying the status code of the response.
//! The surrounding process performs the actual network send.

pub mod datetime;
pub mod decimal;
pub mod json;
pub mod paystack;
pub mod urlenc;
pub mod request;
pub mod text;
