//! Discovery of active security contests: date extraction from contest
//! descriptions, scope-file selection, contract inspection helpers and the
//! in-memory aggregation model of contests and their contracts.
pub mod contests;
pub mod dates;
pub mod inspect;
pub mod repos;
pub mod scope;
pub mod text;
