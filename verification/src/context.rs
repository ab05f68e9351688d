//! The state that all users of the library in a process share, and the
//! list of devices that one of them keeps.

use vstd::prelude::*;
use crate::device_info::{spec_info_views, DeviceInfo, DeviceInfoView};
use crate::error::{HidError, HidResult};

verus! {

/// Whether the underlying library was initialised.
#[derive(Copy, Clone, Debug, PartialEq, Eq, Structural)]
pub enum InitState {
    NotInit,
    Init,
}

/// What a process knows of the underlying library: whether it was
/// initialised, and whether it looks for devices when it is.
#[derive(Copy, Clone, Debug, PartialEq, Eq, Structural)]
pub struct ContextState {
    pub device_discovery: bool,
    pub init_state: InitState,
}

impl ContextState {
    /// The state at the start of a process: not initialised, with device
    /// discovery.
    pub fn new() -> (state: ContextState)
        ensures
            state == (ContextState { device_discovery: true, init_state: InitState::NotInit }),
    {
        ContextState { device_discovery: true, init_state: InitState::NotInit }
    }

    /// Whether the underlying library has to be initialised before it is
    /// used.
    pub fn needs_init(&self) -> (needed: bool)
        ensures
            needed == (self.init_state == InitState::NotInit),
    {
        match self.init_state {
            InitState::NotInit => true,
            InitState::Init => false,
        }
    }

    /// Takes note of what the initialisation of the underlying library has
    /// returned: -1 is its failure and leaves the state as it was, so that
    /// the next user tries again.
    pub fn after_init(&mut self, returned: i32) -> (result: HidResult<()>)
        ensures
            returned == -1 ==> result is Err && result->Err_0 is InitializationError && *final(self)
                == *old(self),
            returned != -1 ==> result is Ok && *final(self) == (ContextState {
                init_state: InitState::Init,
                ..*old(self)
            }),
    {
        if returned == -1 {
            Err(HidError::InitializationError)
        } else {
            self.init_state = InitState::Init;
            Ok(())
        }
    }

    /// Whether device discovery can still be switched off: not once the
    /// library was initialised with it.
    pub open spec fn spec_can_disable_discovery(&self) -> bool {
        self.init_state == InitState::NotInit || !self.device_discovery
    }

    /// Decides [`Self::spec_can_disable_discovery`].
    pub fn can_disable_discovery(&self) -> (can: bool)
        ensures
            can == self.spec_can_disable_discovery(),
    {
        self.needs_init() || !self.device_discovery
    }

    /// Switches device discovery off for the initialisation to come. After
    /// an initialisation without discovery nothing changes.
    pub fn disable_device_discovery(&mut self)
        requires
            old(self).spec_can_disable_discovery(),
        ensures
            *final(self) == (ContextState { device_discovery: false, ..*old(self) }),
    {
        self.device_discovery = false;
    }
}

/// The devices that a user of the library has asked for, in the order in
/// which they were found.
pub struct HidApi {
    pub device_list: Vec<DeviceInfo>,
}

impl View for HidApi {
    type V = Seq<DeviceInfoView>;

    open spec fn view(&self) -> Seq<DeviceInfoView> {
        spec_info_views(self.device_list@)
    }
}

impl HidApi {
    /// A list with the devices that the first enumeration has found.
    pub fn new(found: Vec<DeviceInfo>) -> (api: HidApi)
        ensures
            api@ == spec_info_views(found@),
    {
        HidApi { device_list: found }
    }

    /// Forgets all devices.
    pub fn reset_devices(&mut self)
        ensures
            final(self)@ == Seq::<DeviceInfoView>::empty(),
    {
        self.device_list.clear();
        assert(self@ =~= Seq::<DeviceInfoView>::empty());
    }

    /// Puts the devices that an enumeration has found behind those of the
    /// list.
    pub fn add_devices(&mut self, found: Vec<DeviceInfo>)
        ensures
            final(self)@ == old(self)@ + spec_info_views(found@),
    {
        let mut found = found;
        let ghost added = found@;
        self.device_list.append(&mut found);
        assert(self@ =~= old(self)@ + spec_info_views(added));
    }

    /// Replaces the devices of the list by those that an enumeration has
    /// found.
    pub fn refresh_devices(&mut self, found: Vec<DeviceInfo>)
        ensures
            final(self)@ == spec_info_views(found@),
    {
        self.reset_devices();
        self.add_devices(found);
        assert(self@ =~= spec_info_views(found@));
    }

    /// The devices of the list.
    pub fn device_list(&self) -> (devices: &[DeviceInfo])
        ensures
            spec_info_views(devices@) == self@,
    {
        self.device_list.as_slice()
    }
}

} // verus!
