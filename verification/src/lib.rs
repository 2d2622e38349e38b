//! Runtime selection of container-tooling backends.
//!
//! Each capability category (inspection, build, signing, run execution,
//! CI context) is resolved to exactly one concrete backend by probing the
//! host in a fixed priority order, with the resolved choice memoized so
//! that later requests skip the probes.  A small platform descriptor and
//! a read-only view of image metadata are bundled alongside.

pub mod metadata;
pub mod resolve;
pub mod types;
