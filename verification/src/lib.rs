//! Rule-based fine ("sanction") pricing for teams: a rule catalog with a
//! closed set of pricing kinds, a price matcher, a fail-fast batch validator
//! for sanction creation requests, and validators for the month/year and
//! format query parameters.

pub mod api;
pub mod database;
pub mod dates;
pub mod ids;
pub mod parameters;
pub mod sanctions;
pub mod teams;
