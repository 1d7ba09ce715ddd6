//! The host's capability table and the write-once slot that holds it.

use crate::bus::{Dispatch, EventBus, apply, delivered, payload_of};
use crate::event::HostCall;
use crate::identifier::EventError;
use vstd::prelude::*;

verus! {

/// The capabilities that a host hands to an addon: here, its event registry.
pub struct AddonApi {
    pub event: EventBus,
}

/// Process-wide state with a strict install-before-use lifecycle: empty until
/// the host installs its table, then installed for good.
pub struct ApiSlot {
    api: Option<AddonApi>,
}

impl ApiSlot {
    /// A slot that holds no table yet.
    pub fn new() -> (r: Self)
        ensures
            !r.is_installed_spec(),
    {
        ApiSlot { api: None }
    }

    pub closed spec fn is_installed_spec(&self) -> bool {
        self.api is Some
    }

    /// The registry of the installed table.
    pub closed spec fn registry(&self) -> Seq<crate::bus::SubModel>
        recommends
            self.is_installed_spec(),
    {
        self.api->0.event@
    }

    /// Whether the host has installed its table.
    pub fn is_installed(&self) -> (r: bool)
        ensures
            r == self.is_installed_spec(),
    {
        self.api.is_some()
    }

    /// Installs the host's table, once. A second installation is refused and
    /// hands the table back; the slot keeps the first one.
    pub fn install(&mut self, api: AddonApi) -> (r: Result<(), AddonApi>)
        ensures
            old(self).is_installed_spec() <==> r is Err,
            final(self).is_installed_spec(),
            r is Ok ==> final(self).registry() == api.event@,
            r is Err ==> *final(self) == *old(self),
    {
        if self.api.is_some() {
            Err(api)
        } else {
            self.api = Some(api);
            Ok(())
        }
    }

    /// Performs a host call made by the addon with signature `caller`. Fails,
    /// and changes nothing, when no table is installed yet.
    pub fn perform(&mut self, caller: i32, call: &HostCall) -> (r: Result<Dispatch, EventError>)
        ensures
            !old(self).is_installed_spec() <==> r is Err,
            r is Err ==> (r matches Err(EventError::Uninitialized)),
            r is Err ==> *final(self) == *old(self),
            final(self).is_installed_spec() == old(self).is_installed_spec(),
            r matches Ok(d) ==> {
                &&& final(self).registry() == apply(old(self).registry(), caller, call@)
                &&& d.callbacks@ == delivered(old(self).registry(), call@)
                &&& match d.data {
                    Some(b) => payload_of(call@) == Some(b@),
                    None => payload_of(call@) is None,
                }
            },
    {
        match &mut self.api {
            None => Err(EventError::Uninitialized),
            Some(api) => Ok(api.event.perform(caller, call)),
        }
    }
}

impl AddonApi {
    /// The installed capability table; reading it before the host installed
    /// it is an error, never an unchecked access.
    pub fn get(slot: &ApiSlot) -> (r: Result<&AddonApi, EventError>)
        ensures
            !slot.is_installed_spec() <==> r is Err,
            r is Err ==> r matches Err(EventError::Uninitialized),
            r matches Ok(api) ==> api.event@ == slot.registry(),
    {
        match &slot.api {
            None => Err(EventError::Uninitialized),
            Some(api) => Ok(api),
        }
    }
}

} // verus!
