//! The interfaces between the layers: one gateway and one service per
//! resource.

pub mod category;
pub mod post;

pub use category::{CategoryRepositoryTrait, CategoryServiceTrait};
pub use post::{PostsRepositoryTrait, PostsServiceTrait};
