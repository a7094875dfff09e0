//! In-memory entity store of a skills and employment platform: identities,
//! profiles, training courses and job postings, with role-gated creation and
//! append-only applicant lists.

pub mod backend;
pub mod identity;
pub mod laws;
pub mod records;
pub mod roles;
pub mod table;
pub mod text;

pub use backend::{matches_lowered, Backend, StoreError};
pub use identity::Identity;
pub use records::{Course, Jobs, Profile};
pub use roles::Roles;
