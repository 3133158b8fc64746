//! The service for posts.

use crate::documents::Post;
use crate::services::DocumentService;
use vstd::prelude::*;

verus! {

/// The service for posts. A post is its own query.
pub struct PostService {}

impl PostService {
    pub fn new() -> (service: PostService) {
        PostService {  }
    }
}

impl DocumentService<Post> for PostService {
    type Query = Post;

    open spec fn resource(&self) -> Seq<char> {
        "post"@
    }

    fn name(&self) -> (n: &str) {
        "post"
    }
}

} // verus!
