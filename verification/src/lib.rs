//! Verified core of the dsh desktop shell: version checks, download naming,
//! backend selection and update decisions, the loopback control plane's
//! request handling, and the platform layout of shell-owned state.
use vstd::prelude::*;

pub mod backend;
pub mod control;
pub mod filename;
pub mod json;
pub mod ordering;
pub mod pages;
pub mod platform;
pub mod semver;
pub mod text;
pub mod update;

verus! {
} // verus!
