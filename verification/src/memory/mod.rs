//! Gateways that keep their rows in memory. They answer as a store does
//! that never fails, and they count the calls made on them.

pub mod category;
pub mod posts;
pub mod table;

pub use category::InMemoryCategoryRepository;
pub use posts::InMemoryPostRepository;
