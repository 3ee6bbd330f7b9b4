//! The records that the source systems yield, as the merge engine reads them.

pub mod azure;
pub mod fortigate;
pub mod nagiosxi;
