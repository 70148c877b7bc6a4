use vstd::prelude::*;

verus! {

/// The shared-ownership record of one registered device: how many open
/// handles currently share the device's state, and whether the registration
/// itself still holds a reference.
///
/// The rule this makes explicit: the device state stays live while the
/// registration or at least one open handle refers to it, and may be
/// released exactly when the last of them is gone.
pub struct DeviceRegistration {
    open_handles: u64,
    registered: bool,
}

impl DeviceRegistration {
    /// Number of open handles currently sharing the device state.
    pub closed spec fn handles(self) -> u64 {
        self.open_handles
    }

    /// Whether the device registration still holds its reference.
    pub closed spec fn is_registered(self) -> bool {
        self.registered
    }

    /// The device state must be kept while any reference is live; it may be
    /// released exactly when this turns false.
    pub open spec fn state_live(self) -> bool {
        self.is_registered() || self.handles() > 0
    }

    /// Number of open handles, as a runtime value.
    pub fn handle_count(&self) -> (n: u64)
        ensures
            n == self.handles(),
    {
        self.open_handles
    }

    /// Whether the registration still holds its reference, as a runtime
    /// value.
    pub fn registered(&self) -> (r: bool)
        ensures
            r == self.is_registered(),
    {
        self.registered
    }

    /// Whether the device state must still be kept, as a runtime value.
    pub fn is_live(&self) -> (r: bool)
        ensures
            r == self.state_live(),
    {
        self.registered || self.open_handles > 0
    }

    /// Register a device: the registration holds the only reference.
    pub fn register() -> (d: DeviceRegistration)
        ensures
            d.is_registered(),
            d.handles() == 0,
    {
        DeviceRegistration { open_handles: 0, registered: true }
    }

    /// Open the device file. Opening always succeeds — any number of
    /// concurrent handles is permitted — and adds one shared reference.
    pub fn open(&mut self)
        requires
            old(self).is_registered(),
            old(self).handles() < u64::MAX,
        ensures
            final(self).handles() == old(self).handles() + 1,
            final(self).is_registered() == old(self).is_registered(),
    {
        self.open_handles = self.open_handles + 1;
    }

    /// Close one open handle, dropping its shared reference.
    pub fn close(&mut self)
        requires
            old(self).handles() > 0,
        ensures
            final(self).handles() == old(self).handles() - 1,
            final(self).is_registered() == old(self).is_registered(),
    {
        self.open_handles = self.open_handles - 1;
    }

    /// Unregister the device: the registration drops its reference, while
    /// handles that are still open keep the state alive.
    pub fn unregister(&mut self)
        requires
            old(self).is_registered(),
        ensures
            !final(self).is_registered(),
            final(self).handles() == old(self).handles(),
    {
        self.registered = false;
    }
}

} // verus!
