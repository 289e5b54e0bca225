pub mod materialize;
pub mod site;
pub mod template;
pub mod user;
