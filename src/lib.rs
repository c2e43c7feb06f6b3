pub mod errors;
pub mod handlers;
pub mod validator;
