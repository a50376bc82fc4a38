//! Bookkeeping of which subtitles have been processed by which action.
//!
//! For each movie and each episode, a database records which subtitles an action (a fix of
//! some kind) has been applied to, so that it is not applied twice. This crate decides what
//! is asked of the database and what follows from the answers. It does no input or output:
//! its functions hand out steps, and whoever carries a step out hands back what came of it.
//!
//! - [`location`]: where the database file is
//! - [`init`]: opening the database
//! - [`setup`]: creating and migrating its tables
//! - [`records`]: looking up and recording processed subtitles
//! - [`filter`]: finding the media with subtitles left to process
//! - [`store`]: a model of what the database holds
//! - [`laws`]: what holds of all of these together

pub mod decimal;
pub mod filter;
pub mod init;
pub mod laws;
pub mod location;
pub mod media;
pub mod records;
pub mod setup;
pub mod statement;
pub mod store;
