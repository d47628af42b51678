//! Generates declarative infrastructure-as-code membership files for an
//! organization: one organization-membership artifact for the source-control
//! platform, one account-creation artifact for the cloud platform, and one
//! team-membership artifact per team. Every artifact is a deterministic
//! function of the loaded user records, stated and proved here; reading the
//! configuration and writing the files are left to the surrounding binary.

pub mod laws;
pub mod model;
pub mod pipeline;
pub mod render;
