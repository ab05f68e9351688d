//! Device nodes of the configuration manager.

use vstd::prelude::*;
use crate::windows_native::error::{check_config, spec_config_to_error, WinError, CR_SUCCESS};

verus! {

/// A node of the device tree, by the handle that the configuration manager
/// gives to it.
#[derive(Copy, Clone, Debug, PartialEq, Eq, Structural)]
pub struct DevNode(pub u32);

impl DevNode {
    /// The node that a lookup has found: by a device id, or as the parent
    /// of another node. The lookup returns a code and the handle of the
    /// node; the handle counts only where the code is `CR_SUCCESS`, any
    /// other code is the error of the lookup.
    pub open spec fn spec_located(ret: u32, node: u32) -> Result<DevNode, WinError> {
        if ret == CR_SUCCESS {
            Ok(DevNode(node))
        } else {
            Err(spec_config_to_error(ret))
        }
    }

    pub fn located(ret: u32, node: u32) -> (found: Result<DevNode, WinError>)
        ensures
            found == Self::spec_located(ret, node),
    {
        match check_config(ret, CR_SUCCESS) {
            Err(error) => Err(error),
            Ok(()) => Ok(DevNode(node)),
        }
    }

    /// The handle of the node.
    pub fn as_raw(self) -> (handle: u32)
        ensures
            handle == self.0,
    {
        self.0
    }
}

} // verus!
