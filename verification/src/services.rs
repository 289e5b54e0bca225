pub mod cleanup;
pub mod preview;
pub mod tempfiles;
