pub mod metadata;
pub mod player;
pub mod root;
