//! A line-delimited JSON-RPC server core that exposes a fixed set of MySQL
//! operations — schema introspection, guarded read queries, insert, update
//! and delete — as callable tools. This crate holds the verified logic: the
//! request dispatcher, the session state machine with its bounded connection
//! retry, the SQL command builder behind the identifier gate, the query
//! guard, and the response encoders. The caller owns the byte streams and
//! the database driver; it performs the tasks the dispatcher hands out and
//! feeds every outcome back into the response builders.

pub mod dispatch;
pub mod guard;
pub mod json;
pub mod laws;
pub mod parse;
pub mod reply;
pub mod rpc;
pub mod schema;
pub mod ser;
pub mod session;
pub mod sqlcmd;
pub mod text;
pub mod tools;
