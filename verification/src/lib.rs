//! A persistent record store: five kinds of records, each kept in its own
//! durable table under identifiers drawn from one shared counter.

pub mod allocator;
pub mod calls;
pub mod codec;
pub mod error;
pub mod laws;
pub mod model;
pub mod records;
pub mod stable;
pub mod store;
pub mod table;
