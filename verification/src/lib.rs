//! A plugin lifecycle runtime: a registry of loaded plugin definitions, an
//! instance manager that admits a live instance only after its self-reported
//! identity matches its manifest, and a host bridge that tags every log call
//! with the identity of the instance it came from.
//!
//! The sandbox engine itself (compiling module bytes, instantiating a module
//! inside an isolated store, calling into it) is an external collaborator: the
//! embedding application drives it and feeds its outcomes back into the
//! runtime, which makes and records every lifecycle decision.

pub mod host;
pub mod instance;
pub mod linker;
pub mod plug;
pub mod runtime;
pub mod table;
pub mod utils;

pub use host::Host;
pub use instance::InstanceInfo;
pub use linker::Linker;
pub use plug::CompiledModule;
pub use plug::PlugManifest;
pub use plug::PlugRecord;
pub use runtime::Rt;
pub use runtime::RuntimeError;
