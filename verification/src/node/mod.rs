pub mod image;
pub mod layout;
pub mod path;
