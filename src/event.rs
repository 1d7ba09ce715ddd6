//! Typed event handles, callback identities, and the calls they make on the host.

use crate::identifier::{c_form, copy_bytes, has_nul, str_to_c, EventError};
use crate::payload::Payload;
use core::marker::PhantomData;
use vstd::prelude::*;
use vstd::string::StringSliceAdditionalSpecFns;

verus! {

/// The identity of a callback as the host stores and compares it. The host
/// finds a subscription again only by this value, so it must be stable and
/// distinct for each trampoline.
#[derive(Debug, Clone, Copy, PartialEq, Eq, Structural)]
pub struct RawEventConsumeUnknown {
    pub id: u64,
}

/// A trampoline for payload type `T`, identified by a stable id.
pub struct RawEventConsume<T> {
    pub id: u64,
    pub payload: PhantomData<T>,
}

impl<T> RawEventConsume<T> {
    /// The trampoline with the given identity.
    pub fn new(id: u64) -> (r: Self)
        ensures
            r.id == id,
    {
        RawEventConsume { id, payload: PhantomData }
    }

    /// Erases the payload type; the identity is kept as it is.
    pub fn erase(self) -> (r: RawEventConsumeUnknown)
        ensures
            r.id == self.id,
    {
        RawEventConsumeUnknown { id: self.id }
    }
}

/// A call on the host's event API, with every argument in the form the host reads.
#[derive(Debug)]
pub enum HostCall {
    Subscribe { identifier: Vec<u8>, callback: RawEventConsumeUnknown },
    Unsubscribe { identifier: Vec<u8>, callback: RawEventConsumeUnknown },
    Raise { identifier: Vec<u8>, data: Vec<u8> },
    RaiseNotification { identifier: Vec<u8> },
    RaiseTargeted { signature: i32, identifier: Vec<u8>, data: Vec<u8> },
    RaiseNotificationTargeted { signature: i32, identifier: Vec<u8> },
}

/// The mathematical form of a host call.
pub enum CallModel {
    Subscribe { identifier: Seq<u8>, callback: u64 },
    Unsubscribe { identifier: Seq<u8>, callback: u64 },
    Raise { identifier: Seq<u8>, data: Seq<u8> },
    RaiseNotification { identifier: Seq<u8> },
    RaiseTargeted { signature: i32, identifier: Seq<u8>, data: Seq<u8> },
    RaiseNotificationTargeted { signature: i32, identifier: Seq<u8> },
}

impl View for HostCall {
    type V = CallModel;

    open spec fn view(&self) -> CallModel {
        match self {
            HostCall::Subscribe { identifier, callback } => CallModel::Subscribe {
                identifier: identifier@,
                callback: callback.id,
            },
            HostCall::Unsubscribe { identifier, callback } => CallModel::Unsubscribe {
                identifier: identifier@,
                callback: callback.id,
            },
            HostCall::Raise { identifier, data } => CallModel::Raise {
                identifier: identifier@,
                data: data@,
            },
            HostCall::RaiseNotification { identifier } => CallModel::RaiseNotification {
                identifier: identifier@,
            },
            HostCall::RaiseTargeted { signature, identifier, data } => CallModel::RaiseTargeted {
                signature: *signature,
                identifier: identifier@,
                data: data@,
            },
            HostCall::RaiseNotificationTargeted { signature, identifier } =>
                CallModel::RaiseNotificationTargeted {
                signature: *signature,
                identifier: identifier@,
            },
        }
    }
}

/// An undo action: the call that takes back a subscription. It is armed until
/// `revert` hands the call out, which consumes it.
pub struct Revertible {
    undo: HostCall,
}

impl View for Revertible {
    type V = CallModel;

    /// The undo call that this action holds.
    closed spec fn view(&self) -> CallModel {
        self.undo@
    }
}

impl Revertible {
    /// Consumes the action and gives the call that undoes the subscription,
    /// to be performed now rather than at unload.
    pub fn revert(self) -> (r: HostCall)
        ensures
            r@ == self@,
    {
        self.undo
    }
}

/// What a subscription on `identifier` with `callback` is: the subscribe call
/// and the unsubscribe call that undoes it.
pub open spec fn subscribed(
    identifier: &str,
    callback: u64,
    r: Result<(HostCall, Revertible), EventError>,
) -> bool {
    &&& has_nul(identifier.spec_bytes()) <==> r is Err
    &&& (r is Err ==> r == Err::<(HostCall, Revertible), EventError>(EventError::EmbeddedNul))
    &&& (r matches Ok((call, undo)) ==> {
        &&& call@ == (CallModel::Subscribe { identifier: c_form(identifier), callback })
        &&& undo@ == (CallModel::Unsubscribe { identifier: c_form(identifier), callback })
    })
}

/// Subscribes a callback of unknown payload type. Gives the subscribe call
/// and the action that undoes it, or fails before any call when the
/// identifier holds a null byte.
pub fn event_subscribe_unknown(identifier: &str, callback: RawEventConsumeUnknown) -> (r: Result<
    (HostCall, Revertible),
    EventError,
>)
    ensures
        subscribed(identifier, callback.id, r),
{
    match str_to_c(identifier) {
        Err(e) => Err(e),
        Ok(c) => {
            let undo = HostCall::Unsubscribe { identifier: copy_bytes(&c), callback };
            Ok((HostCall::Subscribe { identifier: c, callback }, Revertible { undo }))
        },
    }
}

/// Subscribes a trampoline of payload type `T`. The caller keeps the channel's
/// contract: everyone who uses `identifier` agrees on `T`.
pub fn event_subscribe_typed<T>(identifier: &str, callback: RawEventConsume<T>) -> (r: Result<
    (HostCall, Revertible),
    EventError,
>)
    ensures
        subscribed(identifier, callback.id, r),
{
    event_subscribe_unknown(identifier, callback.erase())
}

/// Unsubscribes a callback that was subscribed before.
pub fn event_unsubscribe(identifier: &str, callback: RawEventConsumeUnknown) -> (r: Result<
    HostCall,
    EventError,
>)
    ensures
        has_nul(identifier.spec_bytes()) <==> r is Err,
        r is Err ==> r matches Err(EventError::EmbeddedNul),
        r matches Ok(call) ==> call@ == (CallModel::Unsubscribe {
            identifier: c_form(identifier),
            callback: callback.id,
        }),
{
    match str_to_c(identifier) {
        Err(e) => Err(e),
        Ok(c) => Ok(HostCall::Unsubscribe { identifier: c, callback }),
    }
}

/// Raises an event with a payload to every subscriber.
pub fn event_raise<T: Payload>(identifier: &str, event_data: &T) -> (r: Result<HostCall, EventError>)
    ensures
        has_nul(identifier.spec_bytes()) <==> r is Err,
        r is Err ==> r matches Err(EventError::EmbeddedNul),
        r matches Ok(call) ==> call@ == (CallModel::Raise {
            identifier: c_form(identifier),
            data: event_data.spec_encode(),
        }),
{
    match str_to_c(identifier) {
        Err(e) => Err(e),
        Ok(c) => Ok(HostCall::Raise { identifier: c, data: event_data.encode() }),
    }
}

/// Raises an event without payload to every subscriber.
pub fn event_raise_notification(identifier: &str) -> (r: Result<HostCall, EventError>)
    ensures
        has_nul(identifier.spec_bytes()) <==> r is Err,
        r is Err ==> r matches Err(EventError::EmbeddedNul),
        r matches Ok(call) ==> call@ == (CallModel::RaiseNotification {
            identifier: c_form(identifier),
        }),
{
    match str_to_c(identifier) {
        Err(e) => Err(e),
        Ok(c) => Ok(HostCall::RaiseNotification { identifier: c }),
    }
}

/// Raises an event with a payload for the addon with the given signature only.
pub fn event_raise_targeted<T: Payload>(signature: i32, identifier: &str, event_data: &T) -> (r:
    Result<HostCall, EventError>)
    ensures
        has_nul(identifier.spec_bytes()) <==> r is Err,
        r is Err ==> r matches Err(EventError::EmbeddedNul),
        r matches Ok(call) ==> call@ == (CallModel::RaiseTargeted {
            signature,
            identifier: c_form(identifier),
            data: event_data.spec_encode(),
        }),
{
    match str_to_c(identifier) {
        Err(e) => Err(e),
        Ok(c) => Ok(HostCall::RaiseTargeted { signature, identifier: c, data: event_data.encode() }),
    }
}

/// Raises an event without payload for the addon with the given signature only.
pub fn event_raise_notification_targeted(signature: i32, identifier: &str) -> (r: Result<
    HostCall,
    EventError,
>)
    ensures
        has_nul(identifier.spec_bytes()) <==> r is Err,
        r is Err ==> r matches Err(EventError::EmbeddedNul),
        r matches Ok(call) ==> call@ == (CallModel::RaiseNotificationTargeted {
            signature,
            identifier: c_form(identifier),
        }),
{
    match str_to_c(identifier) {
        Err(e) => Err(e),
        Ok(c) => Ok(HostCall::RaiseNotificationTargeted { signature, identifier: c }),
    }
}

/// An event identifier bound to its payload type `T`. Everyone who subscribes
/// to or raises `identifier` must agree on `T`; the host cannot check it.
pub struct Event<T> {
    pub identifier: &'static str,
    pub payload: PhantomData<T>,
}

impl<T> Event<T> {
    /// The event with the given identifier and payload type.
    pub fn new(identifier: &'static str) -> (r: Self)
        ensures
            r.identifier == identifier,
    {
        Event { identifier, payload: PhantomData }
    }

    /// Subscribes a trampoline to the event.
    pub fn subscribe(&self, callback: RawEventConsume<T>) -> (r: Result<
        (HostCall, Revertible),
        EventError,
    >)
        ensures
            subscribed(self.identifier, callback.id, r),
    {
        event_subscribe_typed(self.identifier, callback)
    }
}

impl<T: Payload> Event<T> {
    /// Raises the event with the given payload.
    pub fn raise(&self, event_data: &T) -> (r: Result<HostCall, EventError>)
        ensures
            has_nul(self.identifier.spec_bytes()) <==> r is Err,
            r is Err ==> r matches Err(EventError::EmbeddedNul),
            r matches Ok(call) ==> call@ == (CallModel::Raise {
                identifier: c_form(self.identifier),
                data: event_data.spec_encode(),
            }),
    {
        event_raise(self.identifier, event_data)
    }
}

} // verus!
