//! The API layer's protocol logic: error responses, request middleware,
//! the command bus vocabulary, WebSocket frame handling and the route
//! handlers' decisions.

pub mod bus;
pub mod error;
pub mod middleware;
pub mod routes;
pub mod ws;
