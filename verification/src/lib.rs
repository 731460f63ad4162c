//! Enrichment of network participants with geolocation and network-ownership
//! metadata.
//!
//! The roster of participants is cut into batches, one lookup is made for
//! each batch, and what each lookup returns is reconciled with the
//! participants of its batch. The library decides what is asked and what
//! becomes of the answers; making the calls is left to its user.

pub mod batch;
pub mod ip_data;
pub mod ip_data_map;
pub mod ip_info;
pub mod lookup;
pub mod reconcile;
pub mod roster;
pub mod validator;

pub use ip_data::ValidatorIpData;
pub use ip_info::{IpInfo, BATCH_SIZE};
pub use validator::ValidatorInfo;
