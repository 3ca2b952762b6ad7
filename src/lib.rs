//! A CHIP-8 virtual machine whose fetch, decode and execute steps are
//! verified against a mathematical model of the machine state.

pub mod font;
pub mod laws;
pub mod machine;
pub mod model;
mod random;

pub use machine::CHIP8;
pub use model::Fault;
