pub mod graphic_engine;
pub mod keypad;
pub mod laws;
pub mod machine;
pub mod opcode;
