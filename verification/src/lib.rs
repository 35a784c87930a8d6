//! A client for the Algolia status and monitoring API that performs no I/O of
//! its own: it builds the request for each operation and holds the typed
//! results, and leaves sending to the caller's transport.

pub mod client;
pub mod header;
pub mod model;
pub mod path;
pub mod server_map;

pub use client::AlgoliaMonitoring;
pub use client::Request;
pub use model::DataPoint;
pub use model::Error;
pub use model::Incident;
pub use model::IncidentDetails;
pub use model::Incidents;
pub use model::Inventory;
pub use model::InventoryItem;
pub use model::Metrics;
pub use model::MetricsGroup;
pub use model::Status;
pub use server_map::ServerMap;
