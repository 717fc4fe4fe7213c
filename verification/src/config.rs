//! The desired-state configuration: a zone and the records it should hold,
//! plus the plain shapes of the remote API's envelope responses.

use vstd::prelude::*;

use crate::record::Record;

verus! {

/// A zone: apex domain name, provider-assigned identifier, and the
/// restrictive-email policy toggle. Parsed once at process start, immutable
/// afterwards.
#[derive(Clone, Debug)]
pub struct ZoneConfig {
    pub name: String,
    pub id: String,
    pub restrictive_email: bool,
}

/// The desired state: a zone plus the list of records it should hold. The
/// record order matters only for deterministic output, never for
/// reconciliation.
#[derive(Clone, Debug)]
pub struct Config {
    pub zone: ZoneConfig,
    pub records: Vec<Record>,
}

/// One message in a remote API response envelope.
#[derive(Clone, Debug)]
pub struct CfMessage {
    pub code: u32,
    pub message: String,
}

/// The remote API's response envelope around a result payload.
#[derive(Clone, Debug)]
pub struct CfResult<T> {
    pub errors: Vec<CfMessage>,
    pub messages: Vec<CfMessage>,
    pub success: bool,
    pub result: T,
}

/// The fields of a zone as the remote API reports it.
#[derive(Clone, Debug)]
pub struct ZoneData {
    pub name: String,
}

/// Assembles an exportable configuration from a fetched zone and its fetched
/// records, with the policy toggle off so the export reflects the remote
/// state exactly.
pub fn export_config(zone: ZoneData, zone_id: String, records: Vec<Record>) -> (c: Config)
    ensures
        c.zone.name@ == zone.name@,
        c.zone.id@ == zone_id@,
        !c.zone.restrictive_email,
        c.records.deep_view() == records.deep_view(),
{
    Config {
        zone: ZoneConfig { name: zone.name, id: zone_id, restrictive_email: false },
        records,
    }
}

} // verus!
