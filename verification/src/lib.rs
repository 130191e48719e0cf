//! Verified core of an options-pricing library: the option and exercise
//! kinds, their parsing from user-supplied text, and the error type shared by
//! the pricing routines.

pub mod binomial;
pub mod black_scholes;
pub mod error;
pub mod text;
