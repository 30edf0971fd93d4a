pub mod apply;
pub mod cards;
pub mod import;
pub mod laws;
pub mod models;
pub mod named;
pub mod order;
pub mod page;
pub mod query;
pub mod remote;
pub mod sort;
