//! Data-access core of the consumables service: a bounded connection pool
//! kept as a state machine, a row extraction layer over plain column values,
//! the mappings from rows to domain records, and the decisions that the
//! repository operations take on what a statement returned.

pub mod errors;
pub mod row;
pub mod model;
pub mod mapping;
pub mod repository;
pub mod pool;
pub mod url_part;
pub mod auth;
