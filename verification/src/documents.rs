//! The resource types of the service.

pub mod post;

pub use post::{Post, PostUpsert, PostView};
