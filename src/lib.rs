//! A small todo service: the data model, the fixed seed data and the request
//! handlers that answer each route with a status code and a JSON envelope.
pub mod todo;
pub mod response;
pub mod handlers;
pub mod laws;
