//! A restaurant order-tracking library.
//!
//! Waitstaff record which meal a table ordered, query outstanding orders,
//! and remove completed ones.  The heart of the library is the order store:
//! it owns identity assignment, soft deletion, and indexed retrieval, and
//! its operations carry contracts that pin down exactly which orders each
//! query returns.

pub mod clock;
pub mod entities;
pub mod meals_catalog;
pub mod order;
pub mod service;
pub mod simulation;
pub mod storage;
