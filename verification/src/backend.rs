//! The solving side: the table of named results, the query plan that fills
//! it and the report rendered from it.

pub mod errors;
pub mod input;
pub mod query_plan;
pub mod report;
pub mod results;
pub mod solver;
