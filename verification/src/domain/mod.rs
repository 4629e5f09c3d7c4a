pub mod request;
pub mod response;

pub use request::{
    CreateCategoryRequest, CreateCommentRequest, CreatePostRequest, CreateUserRequest,
    LoginRequest, RegisterRequest, UpdateCategoryRequest, UpdateCommentRequest, UpdatePostRequest,
    UpdateUserRequest,
};
pub use response::{
    ApiResponse, ApiResponsePagination, CategoryResponse, CommentResponse, DeleteResponse,
    ErrorResponse,
    PostRelationResponse, PostResponse, UploadResponse, UserResponse,
};
