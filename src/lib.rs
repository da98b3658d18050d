//! An order bulletin board served over a minimal HTTP exchange.
//!
//! The library holds the verified core: the domain values and their stored
//! text form, the request parser, the router, the response encoder, order id
//! generation, and the decision each endpoint makes once the record store
//! has answered.
pub mod id;
pub mod laws;
pub mod model;
pub mod request;
pub mod response;
pub mod service;
