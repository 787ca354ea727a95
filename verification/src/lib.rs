//! The control plane of `tbl`, a launcher that serves a web UI from a
//! background process on the local machine.
//!
//! The library holds what the launcher decides: how an invocation finds,
//! joins, starts or stops the server (`supervisor`, `registry`, `stop`),
//! which port it binds (`addr`, `port`), how a browser gets and proves its
//! session (`token`, `cookie`, `basic`, `gate`), and what each endpoint
//! answers (`handlers`, `reply`, `pages`, `routes`). Sockets, files and
//! processes are the caller's: the library takes what they gave and says
//! what comes next.

pub mod addr;
pub mod banner;
pub mod basic;
pub mod config;
pub mod cookie;
pub mod decimal;
pub mod gate;
pub mod handlers;
pub mod pages;
pub mod port;
pub mod registry;
pub mod reply;
pub mod repo;
pub mod routes;
pub mod shutdown;
pub mod stop;
pub mod supervisor;
pub mod text;
pub mod token;
