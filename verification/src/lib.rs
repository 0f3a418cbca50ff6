pub mod command;
pub mod fstab;
pub mod human;
pub mod message;
pub mod orchestrator;
pub mod session;
pub mod size;
pub mod swaps;
pub mod text;
