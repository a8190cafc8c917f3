//! One module per instruction of the program.
pub mod contribute;
pub mod create_campaign;
pub mod finalize;
pub mod refund;
pub mod withdraw;
