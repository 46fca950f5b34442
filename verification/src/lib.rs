//! A verified model of a small JSON-RPC key-value service.
//!
//! The running system puts an HTTP front end over a remote key-value store and
//! guards it with a per-client rate limiter.  Everything that decides or
//! computes lives here, verified: the backend's state and its three
//! primitives (`backend`), the storage actor (`storage`), the rate-limiting
//! actor and its fixed-window counter algorithm (`rate_limiting`), the bounded
//! command queue that serializes access to a backend connection (`actor`), and
//! the JSON-RPC dispatch rules (`rpc`).  The process plumbing around it —
//! HTTP transport, JSON framing, the real networked store — stays outside and
//! hands these functions plain values.

pub mod actor;
pub mod backend;
pub mod kvservice;
pub mod rate_limiting;
pub mod rpc;
pub mod storage;
