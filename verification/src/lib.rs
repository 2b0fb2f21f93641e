//! A resolution-and-provisioning launcher core.
//!
//! Given an invocation of a command-line tool, the library decides whether to
//! delegate at all, locates a runnable copy of the tool's implementation —
//! a project-local installation, a per-user cache, a bundled fallback, or one
//! fetched on demand from a remote release — and states how the delegated
//! child's outcome becomes this process's exit code.
//!
//! All filesystem, network and process work is performed by a thin driver
//! outside this crate; the driver executes one [`resolver::Action`] at a time
//! and feeds the observed [`resolver::Event`] back into the verified
//! transition function [`resolver::step`].

pub mod artifact;
pub mod config;
pub mod delegate;
pub mod installer;
pub mod laws;
pub mod layout;
pub mod locator;
pub mod path;
pub mod provision;
pub mod resolver;
pub mod router;
