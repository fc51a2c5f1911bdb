//! The persistence layer: values, statements, decoding and the driver.

pub mod value;
pub mod model;
pub mod ident;
pub mod error;
pub mod statement;
pub mod decode;
pub mod answer;
pub mod driver;
pub mod exchange;
pub mod schema;
pub mod database;
