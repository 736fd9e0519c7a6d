use vstd::prelude::*;

verus! {

/// The kind of one node of a behaviour network.
pub enum ModuleType {
    Module,
    Group,
    MaximumFusion,
}

/// A static description of one node of a behaviour network: its identity,
/// kind, children and port connections.
#[allow(dead_code)]
pub struct Structure {
    id: u32,
    module_tpye: ModuleType,
    children: Vec<u32>,
    connections: Vec<(u32, u32)>,
}

/// One message of the monitor protocol: which node it came from and its
/// payload text.
#[allow(dead_code)]
#[allow(non_camel_case_types)]
pub struct TCP_Data {
    source_id: u32,
    data: String,
}

} // verus!
