//! The core of a synchronous HTTP/1.1 client, free of I/O: the configuration
//! of an agent, the pool of its idle connections, the decisions of the run
//! of a call and of the reading of a body, and the pipeline that limits and
//! decodes a response body. A driver that owns the sockets does the work
//! that these decide on. Every function carries a contract that is proved
//! of it; what is taken on trust of other crates is marked where it stands.

pub mod agent;
pub mod body;
pub mod buffers;
pub mod config;
pub mod error;
pub mod pool;
pub mod proxy;
pub mod request;
pub mod resolver;
pub mod run;
pub mod text;
pub mod time;
pub mod unit;
