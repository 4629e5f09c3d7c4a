pub mod answers;
pub mod category;
pub mod file;
pub mod posts;

pub use category::CategoryService;
pub use file::FileService;
pub use posts::PostService;
