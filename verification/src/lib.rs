//! Ephemeral file-drop library: the verified core of a service that stores
//! streamed uploads in an object-storage backend under short random
//! identifiers with an expiration, and serves them back until they expire.
//!
//! The storage backend and the HTTP surface are asynchronous collaborators;
//! the protocol decisions they act on (buffering a stream into parts, the
//! multipart-upload session, expiration and response-header policy) live
//! here, stated and proved over plain values.

pub mod config;
pub mod error;
pub mod idgen;
pub mod object;
pub mod partbuf;
pub mod session;
pub mod text;
pub mod time;
pub mod upload;
pub mod web;
