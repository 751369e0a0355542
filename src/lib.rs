//! An Intel 8080 interpreter and the Space Invaders cabinet hardware around it.

pub mod condition_codes;
pub mod cpm;
pub mod cpu;
pub mod helpers;
pub mod input;
pub mod interrupts;
pub mod invaders;
pub mod laws;
pub mod op_arithmetic;
pub mod op_branch;
pub mod op_data_transfer;
pub mod op_logical;
pub mod op_special_io;
pub mod op_stack;
pub mod video;
