//! Runtime core and declaration rules for lightweight, typed tracing probes.
//!
//! A *provider* is a named group of *probes*.  Firing a probe marshals its
//! arguments into a fixed wire representation and hands them to a platform
//! tracing backend, but only while the probe is enabled: arguments passed as
//! thunks are never evaluated for a disabled probe.  A provider is built at
//! most once, and a failed build is remembered for good.
pub mod comments;
pub mod declaration;
pub mod error;
pub mod init;
pub mod marshal;
pub mod naming;
pub mod probe;
pub mod provider;
pub mod text;
pub mod wire;
