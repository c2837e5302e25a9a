//! The computer-algebra service's side: the shape of its answers, its
//! errors, and the choice of the answer block that holds the result.

pub mod client;
pub mod errors;
pub mod models;
