//! The core of an image resizing service: a memory cache with timed eviction,
//! the tiered retrieval pipeline that fills it, and the request and response
//! rules around them.

pub mod cache;
pub mod dimension;
pub mod error;
pub mod format;
pub mod image_service;
pub mod repository;
pub mod response_handler;
pub mod retrieval;
pub mod router;
pub mod server_timing;
pub mod service;
pub mod text;
