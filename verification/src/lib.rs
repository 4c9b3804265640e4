pub mod basics;
pub mod borrowing;
pub mod ownership;
