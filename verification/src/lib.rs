//! Decision logic of the herdr thin client: input filtering and dispatch, error
//! classification, timing and retry schedules, and the byte formats the client writes.

pub mod text;
pub mod errors;
pub mod protocol;
pub mod rawinput;
pub mod attach;
pub mod graphics;
pub mod schedule;
pub mod supervisor;
pub mod dispatch;
pub mod tracking;
pub mod connections;
pub mod terminal;
pub mod api;
pub mod launch;
pub mod notify;
pub mod render;
pub mod client_loop;
