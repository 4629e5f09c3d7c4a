//! The status codes that the backend answers with.

use vstd::prelude::*;

verus! {

pub const OK: u16 = 200;

pub const CREATED: u16 = 201;

pub const BAD_REQUEST: u16 = 400;

pub const UNAUTHORIZED: u16 = 401;

pub const NOT_FOUND: u16 = 404;

pub const INTERNAL_SERVER_ERROR: u16 = 500;

} // verus!
