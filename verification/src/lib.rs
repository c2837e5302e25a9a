//! Verified core of a solver for one probability-theory control task:
//! it plans the computer-algebra queries, cleans their answers, picks the
//! relevant answer block of a query response, renders the final report and
//! holds the settings and input rules of the desktop front end.

pub mod text;
pub mod api;
pub mod backend;
pub mod frontend;
