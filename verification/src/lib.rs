//! Small verified demonstrations of ownership, borrowing, scope and moves.

pub mod assignment;
pub mod decimal;
pub mod ownership;
pub mod program;
pub mod scope;
