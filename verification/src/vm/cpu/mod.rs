pub mod alu;
pub mod flags;
pub mod operation;
pub mod processor;
pub mod registers;
pub mod state;
