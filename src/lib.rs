//! Request handling for user registration and login: input validation,
//! duplicate and existence checks against a user store, and the response
//! envelope returned to the client.

pub mod db;
pub mod response;
pub mod users;

