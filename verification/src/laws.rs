//! What holds of the crate as a whole.

pub mod binding;
pub mod carried_filter;
pub mod carried_setup;
pub mod filtering;
pub mod marking;
pub mod opening;
pub mod preparing;
pub mod requests;
pub mod showing;
pub mod sql;
