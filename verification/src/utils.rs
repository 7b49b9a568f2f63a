pub mod companion;
pub mod runner;
pub mod text;
