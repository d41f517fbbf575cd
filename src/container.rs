use vstd::prelude::*;

verus! {

/// A container as listed by the engine.
#[derive(Debug, Clone)]
pub struct ContainerInfo {
    pub id: String,
    pub name: String,
    pub image: String,
    pub state: String,
    pub status: String,
    pub created: i64,
    pub ports: Vec<PortMapping>,
}

/// One published or unpublished container port.
#[derive(Debug, Clone)]
pub struct PortMapping {
    pub private_port: u16,
    pub public_port: Option<u16>,
    pub protocol: String,
}

/// A container as inspected: the summary fields, its environment and mounts.
#[derive(Debug, Clone)]
pub struct ContainerDetail {
    pub id: String,
    pub name: String,
    pub image: String,
    pub state: String,
    pub status: String,
    pub created: i64,
    pub ports: Vec<PortMapping>,
    pub env: Vec<String>,
    pub mounts: Vec<MountInfo>,
}

/// One mount of a container.
#[derive(Debug, Clone)]
pub struct MountInfo {
    pub source: String,
    pub destination: String,
    pub mode: String,
}

/// A port of a listed container as the engine reports it.
#[derive(Debug, Clone)]
pub struct PortRecord {
    pub private_port: u16,
    pub public_port: Option<u16>,
    pub protocol: Option<String>,
}

/// A listed container as the engine reports it.
#[derive(Debug, Clone)]
pub struct SummaryRecord {
    pub id: Option<String>,
    pub names: Option<Vec<String>>,
    pub image: Option<String>,
    pub state: Option<String>,
    pub status: Option<String>,
    pub created: Option<i64>,
    pub ports: Option<Vec<PortRecord>>,
}

/// One entry of the engine's port map: a `port/protocol` key and the host
/// ports bound to it.
#[derive(Debug, Clone)]
pub struct BindingRecord {
    pub key: String,
    pub host_ports: Option<Vec<Option<String>>>,
}

/// A mount as the engine reports it.
#[derive(Debug, Clone)]
pub struct MountRecord {
    pub source: Option<String>,
    pub destination: Option<String>,
    pub mode: Option<String>,
}

/// An inspected container as the engine reports it. `created` is the
/// engine's RFC 3339 creation time.
#[derive(Debug, Clone)]
pub struct InspectRecord {
    pub id: Option<String>,
    pub name: Option<String>,
    pub image: Option<String>,
    pub status: Option<String>,
    pub created: Option<String>,
    pub ports: Option<Vec<BindingRecord>>,
    pub env: Option<Vec<String>>,
    pub mounts: Option<Vec<MountRecord>>,
}

} // verus!
