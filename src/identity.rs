//! What the plugin says about itself and what it accepts.

use vstd::prelude::*;

verus! {

/// The plugin's registered name.
pub const DRIVER_NAME: &'static str = "node-local-cache.csi.io";

/// A service that the plugin advertises.
#[derive(Clone, Copy, Debug, PartialEq, Eq, Structural)]
pub enum PluginCapability {
    ControllerService,
}

/// How a workload asks to access a volume.
#[derive(Clone, Copy, Debug, PartialEq, Eq, Structural)]
pub enum AccessType {
    /// A mounted filesystem.
    Mount,
    /// A raw block device.
    Block,
}

/// The identity service of one plugin process.
pub struct IdentityService {
    /// Whether the process runs as the controller rather than on a node.
    is_controller: bool,
}

impl IdentityService {
    pub closed spec fn controller_mode(&self) -> bool {
        self.is_controller
    }

    /// The identity service of a controller (`true`) or node (`false`)
    /// process.
    pub fn new(is_controller: bool) -> (r: IdentityService)
        ensures
            r.controller_mode() == is_controller,
    {
        IdentityService { is_controller }
    }

    /// The advertised services: the controller service in controller mode,
    /// none on a node.
    pub fn plugin_capabilities(&self) -> (r: Vec<PluginCapability>)
        ensures
            self.controller_mode() ==> r@ == seq![PluginCapability::ControllerService],
            !self.controller_mode() ==> r@ == Seq::<PluginCapability>::empty(),
    {
        let mut r: Vec<PluginCapability> = Vec::new();
        if self.is_controller {
            r.push(PluginCapability::ControllerService);
        }
        r
    }
}

/// Whether every requested access type is supported: filesystem mounts are,
/// block devices are not; a request without a type constrains nothing.
pub fn volume_capabilities_supported(caps: &Vec<Option<AccessType>>) -> (r: bool)
    ensures
        r == forall|i: int| 0 <= i < caps@.len() ==> caps@[i] != Some(AccessType::Block),
{
    let mut i: usize = 0;
    while i < caps.len()
        invariant
            i <= caps@.len(),
            forall|j: int| 0 <= j < i ==> caps@[j] != Some(AccessType::Block),
        decreases caps.len() - i,
    {
        match caps[i] {
            Some(AccessType::Block) => {
                return false;
            },
            _ => {},
        }
        i += 1;
    }
    true
}

} // verus!
