//! A catalog of video files kept in an embedded SQLite database: the rows,
//! the statements that read and change them, and what each answer of the
//! store means to the caller.

pub mod commands;
pub mod db;
pub mod media;
