//! Reconciles device inventory harvested from several source systems into a
//! single asset registry: key normalisation, the entity cache, the
//! find-or-create protocol, dependency-ordered resolution, the cross-source
//! merge policy and the push pipeline's decisions.

pub mod utils;
pub mod netbox;
pub mod fetch;
pub mod cache;
pub mod config;
pub mod consolidate;
pub mod compose;
pub mod push;
pub mod push_run;
pub mod race;
