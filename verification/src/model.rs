//! What the monitoring API answers, as typed values.
//!
//! These are plain records. The caller's transport fills them from the JSON
//! body of a response; nothing in them changes afterwards.

use crate::server_map::ServerMap;
use vstd::prelude::*;

verus! {

/// One sample of a series: the value `v` measured at the time `t`.
#[derive(Debug, Clone, Copy, PartialEq, Eq)]
pub struct DataPoint {
    pub t: u64,
    pub v: u32,
}

/// Why a call failed. Every failure is of this one kind, whether the transport
/// could not complete the exchange or the answer could not be decoded; the
/// reason is all that tells two failures apart.
#[derive(Debug)]
pub struct Error {
    pub reason: String,
}

/// The status of each server, by server name.
#[derive(Debug)]
pub struct Status {
    pub status: ServerMap<String>,
}

/// What is known of one incident.
#[derive(Debug, PartialEq, Eq)]
pub struct IncidentDetails {
    pub title: String,
    pub body: String,
    pub status: String,
}

/// One incident: when it was reported, and what is known of it.
#[derive(Debug, PartialEq, Eq)]
pub struct Incident {
    pub t: i64,
    pub v: IncidentDetails,
}

/// The incidents of each server, by server name, in the order of the answer.
#[derive(Debug)]
pub struct Incidents {
    pub incidents: ServerMap<Vec<Incident>>,
}

/// One server of the inventory.
#[derive(Debug, PartialEq, Eq)]
pub struct InventoryItem {
    pub name: String,
    pub region: String,
    pub is_replica: bool,
    pub cluster: String,
}

/// The servers of the inventory, in the order of the answer.
#[derive(Debug)]
pub struct Inventory {
    pub inventory: Vec<InventoryItem>,
}

/// The series of a metrics answer. A series that the answer leaves out is
/// `None`; one that it holds maps each of its keys to the samples under it, in
/// the order of the answer.
#[derive(Debug)]
pub struct MetricsGroup {
    pub latency: Option<ServerMap<Vec<DataPoint>>>,
    pub indexing: Option<ServerMap<Vec<DataPoint>>>,
    pub avg_build_time: Option<ServerMap<Vec<DataPoint>>>,
    pub ssd_usage: Option<ServerMap<Vec<DataPoint>>>,
    pub ram_search_usage: Option<ServerMap<Vec<DataPoint>>>,
    pub ram_indexing_usage: Option<ServerMap<Vec<DataPoint>>>,
    pub cpu_usage: Option<ServerMap<Vec<DataPoint>>>,
}

/// A metrics answer.
#[derive(Debug)]
pub struct Metrics {
    pub metrics: MetricsGroup,
}

impl Error {
    /// The failure whose reason is `reason`.
    pub fn new(reason: String) -> (error: Error)
        ensures
            error.reason@ == reason@,
    {
        Error { reason }
    }
}

impl MetricsGroup {
    /// Whether no series is present.
    pub open spec fn is_absent(&self) -> bool {
        &&& self.latency is None
        &&& self.indexing is None
        &&& self.avg_build_time is None
        &&& self.ssd_usage is None
        &&& self.ram_search_usage is None
        &&& self.ram_indexing_usage is None
        &&& self.cpu_usage is None
    }
}

impl Default for MetricsGroup {
    /// The group of an answer that holds no series at all.
    fn default() -> (group: MetricsGroup)
        ensures
            group.is_absent(),
    {
        MetricsGroup {
            latency: None,
            indexing: None,
            avg_build_time: None,
            ssd_usage: None,
            ram_search_usage: None,
            ram_indexing_usage: None,
            cpu_usage: None,
        }
    }
}

} // verus!
