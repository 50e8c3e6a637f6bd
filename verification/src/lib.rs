//! Local runtime subsystem of a game launcher: durable application
//! directories, a persisted settings store with a self-healing validator and
//! a config-file codec proved to invert itself, launch-plan computation for
//! Native / Wine / Proton runners, idempotent bootstrapping of the umu
//! helper, and a read-through request cache.
pub mod paths;
pub mod runners;
pub mod settings;
pub mod cache;
pub mod hoyoplay;
pub mod image;
pub mod json;
pub mod umu;
