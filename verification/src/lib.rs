//! Verified request construction for a reverse proxy's HTTP admin API.
//!
//! The library builds the exact wire-level requests that add a forwarding
//! route for a local port (and register its address for TLS certificate
//! automation) or delete a route by its identifier, and it decides, after
//! each transport outcome, what to do next.  Sending the requests is the
//! caller's business: the library is pure and fully verified.

pub mod decimal;
pub mod descriptor;
pub mod registrar;
