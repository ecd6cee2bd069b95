//! The decision logic of a small HTTP load balancer: round-robin host
//! selection, the per-request routing state machine (cache lookup, upstream
//! forwarding with retries, response caching), the no-op caches, the upstream
//! assignment strategies of the server manager and the parsing of
//! `property=value` configuration lines.
pub mod host_resolver;
pub mod uri;
pub mod router;
pub mod cache;
pub mod redis_service;
pub mod file_utils;
pub mod server_manager;
pub mod proxy;
