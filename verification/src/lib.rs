//! Control plane for a locally running Jupyter server.
//!
//! The crate holds the decisions of the control plane and none of its side
//! effects: the record of the server's run state and its shared holder, the
//! interpretation of what the Python probes print, and the handling of the
//! answers of the companion HTTP service. Spawning processes and sending
//! requests is left to the caller, who feeds the outcomes back in.

pub mod config;
pub mod document;
pub mod lifecycle;
pub mod probe;
pub mod proxy;
pub mod status;
pub mod text;
