//! Record logic of a small shop backend: the articles, customers and orders it
//! keeps, the SQL statements that store and remove them, and the decoding of the
//! rows that the database hands back.
pub mod text;
pub mod sql;
pub mod record;
pub mod model;
pub mod run;
