pub mod template;
pub mod user;
