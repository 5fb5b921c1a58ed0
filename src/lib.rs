//! Build-configuration resolution and test dispatch for script-runtime
//! targets: every decision is made here over plain values, while the
//! toolchain, the artifact post-processor, the browser harness and the
//! process itself are driven by the caller.


pub mod model;
pub mod resolver;
pub mod config;
pub mod executor;
pub mod dispatch;
pub mod session;
