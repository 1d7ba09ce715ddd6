//! An in-process model of the host's subscriber registry: the behaviour the
//! bridge assumes of its host, able to perform every host call.

use crate::event::{CallModel, HostCall, RawEventConsumeUnknown};
use crate::identifier::copy_bytes;
use vstd::prelude::*;

verus! {

/// One entry of the registry: a callback on an identifier, owned by the addon
/// whose signature subscribed it.
pub struct Subscription {
    pub identifier: Vec<u8>,
    pub callback: u64,
    pub owner: i32,
}

/// The mathematical form of a subscription: identifier, callback, owner.
pub type SubModel = (Seq<u8>, u64, i32);

impl View for Subscription {
    type V = SubModel;

    open spec fn view(&self) -> SubModel {
        (self.identifier@, self.callback, self.owner)
    }
}

/// The host's subscriber registry, in order of subscription.
pub struct EventBus {
    subs: Vec<Subscription>,
}

/// What a raise hands out: the callbacks to invoke, in order, and the payload
/// bytes they receive (none for a notification).
pub struct Dispatch {
    pub callbacks: Vec<u64>,
    pub data: Option<Vec<u8>>,
}

/// Index of the last entry of `s` with this identifier and callback, or -1.
pub open spec fn last_index_of(s: Seq<SubModel>, identifier: Seq<u8>, callback: u64) -> int
    decreases s.len(),
{
    if s.len() == 0 {
        -1
    } else if s.last().0 == identifier && s.last().1 == callback {
        s.len() - 1
    } else {
        last_index_of(s.drop_last(), identifier, callback)
    }
}

/// Whether a subscription is reached by a raise on `identifier`, addressed to
/// `target` where the raise is targeted.
pub open spec fn reaches(sub: SubModel, identifier: Seq<u8>, target: Option<i32>) -> bool {
    sub.0 == identifier && match target {
        Some(t) => sub.2 == t,
        None => true,
    }
}

/// The callbacks that a raise on `identifier` invokes, in order of subscription.
pub open spec fn recipients(s: Seq<SubModel>, identifier: Seq<u8>, target: Option<i32>) -> Seq<u64>
    decreases s.len(),
{
    if s.len() == 0 {
        Seq::empty()
    } else if reaches(s.last(), identifier, target) {
        recipients(s.drop_last(), identifier, target).push(s.last().1)
    } else {
        recipients(s.drop_last(), identifier, target)
    }
}

/// The registry after the addon `caller` makes call `c`: a subscription is
/// appended; an unsubscription removes the latest matching entry, if any;
/// a raise changes nothing.
pub open spec fn apply(s: Seq<SubModel>, caller: i32, c: CallModel) -> Seq<SubModel> {
    match c {
        CallModel::Subscribe { identifier, callback } => s.push((identifier, callback, caller)),
        CallModel::Unsubscribe { identifier, callback } => {
            let i = last_index_of(s, identifier, callback);
            if i >= 0 {
                s.remove(i)
            } else {
                s
            }
        },
        _ => s,
    }
}

/// The callbacks that call `c` invokes on registry `s`.
pub open spec fn delivered(s: Seq<SubModel>, c: CallModel) -> Seq<u64> {
    match c {
        CallModel::Raise { identifier, .. } => recipients(s, identifier, None),
        CallModel::RaiseNotification { identifier } => recipients(s, identifier, None),
        CallModel::RaiseTargeted { signature, identifier, .. } => recipients(
            s,
            identifier,
            Some(signature),
        ),
        CallModel::RaiseNotificationTargeted { signature, identifier } => recipients(
            s,
            identifier,
            Some(signature),
        ),
        _ => Seq::empty(),
    }
}

/// The payload bytes that call `c` hands to its recipients.
pub open spec fn payload_of(c: CallModel) -> Option<Seq<u8>> {
    match c {
        CallModel::Raise { data, .. } => Some(data),
        CallModel::RaiseTargeted { data, .. } => Some(data),
        _ => None,
    }
}

proof fn lemma_last_index_bounds(s: Seq<SubModel>, identifier: Seq<u8>, callback: u64)
    ensures
        -1 <= last_index_of(s, identifier, callback) < s.len(),
    decreases s.len(),
{
    if s.len() > 0 {
        lemma_last_index_bounds(s.drop_last(), identifier, callback);
    }
}

fn same_bytes(a: &Vec<u8>, b: &Vec<u8>) -> (r: bool)
    ensures
        r == (a@ == b@),
{
    if a.len() != b.len() {
        return false;
    }
    let mut i: usize = 0;
    while i < a.len()
        invariant
            a@.len() == b@.len(),
            i <= a@.len(),
            forall|j: int| 0 <= j < i ==> a@[j] == b@[j],
        decreases a@.len() - i,
    {
        if a[i] != b[i] {
            return false;
        }
        i = i + 1;
    }
    assert(a@ =~= b@);
    true
}

impl View for EventBus {
    type V = Seq<SubModel>;

    closed spec fn view(&self) -> Seq<SubModel> {
        self.subs@.map_values(|e: Subscription| e@)
    }
}

impl EventBus {
    /// A registry with no subscriber.
    pub fn new() -> (r: Self)
        ensures
            r@ == Seq::<SubModel>::empty(),
    {
        let r = EventBus { subs: Vec::new() };
        assert(r@ =~= Seq::<SubModel>::empty());
        r
    }

    /// The number of subscriptions held.
    pub fn len(&self) -> (r: usize)
        ensures
            r == self@.len(),
    {
        self.subs.len()
    }

    /// Whether `callback` is subscribed on `identifier`.
    pub fn is_subscribed(&self, identifier: &Vec<u8>, callback: RawEventConsumeUnknown) -> (r: bool)
        ensures
            r == (last_index_of(self@, identifier@, callback.id) >= 0),
    {
        self.find_last(identifier, callback.id).is_some()
    }

    fn find_last(&self, identifier: &Vec<u8>, callback: u64) -> (r: Option<usize>)
        ensures
            match r {
                Some(i) => i == last_index_of(self@, identifier@, callback),
                None => last_index_of(self@, identifier@, callback) == -1,
            },
    {
        let mut i: usize = self.subs.len();
        assert(self@.subrange(0, i as int) =~= self@);
        while i > 0
            invariant
                i <= self.subs@.len() == self@.len(),
                last_index_of(self@, identifier@, callback) == last_index_of(
                    self@.subrange(0, i as int),
                    identifier@,
                    callback,
                ),
            decreases i,
        {
            let e = &self.subs[i - 1];
            assert(self@.subrange(0, i as int).drop_last() =~= self@.subrange(0, i - 1));
            if e.callback == callback && same_bytes(&e.identifier, identifier) {
                return Some(i - 1);
            }
            i = i - 1;
        }
        assert(self@.subrange(0, 0) =~= Seq::<SubModel>::empty());
        None
    }

    fn collect(&self, identifier: &Vec<u8>, target: Option<i32>) -> (r: Vec<u64>)
        ensures
            r@ == recipients(self@, identifier@, target),
    {
        let mut out: Vec<u64> = Vec::new();
        let mut i: usize = 0;
        assert(self@.subrange(0, 0) =~= Seq::<SubModel>::empty());
        while i < self.subs.len()
            invariant
                i <= self.subs@.len() == self@.len(),
                out@ == recipients(self@.subrange(0, i as int), identifier@, target),
            decreases self.subs@.len() - i,
        {
            let e = &self.subs[i];
            let hit = match target {
                Some(t) => e.owner == t,
                None => true,
            };
            if hit && same_bytes(&e.identifier, identifier) {
                out.push(e.callback);
            }
            i = i + 1;
            assert(self@.subrange(0, i as int).drop_last() =~= self@.subrange(0, i - 1));
        }
        assert(self@.subrange(0, self@.len() as int) =~= self@);
        out
    }

    /// Performs call `call` made by the addon with signature `caller`, and
    /// gives what it dispatches.
    pub fn perform(&mut self, caller: i32, call: &HostCall) -> (d: Dispatch)
        ensures
            final(self)@ == apply(old(self)@, caller, call@),
            d.callbacks@ == delivered(old(self)@, call@),
            match d.data {
                Some(b) => payload_of(call@) == Some(b@),
                None => payload_of(call@) is None,
            },
    {
        match call {
            HostCall::Subscribe { identifier, callback } => {
                let sub = Subscription {
                    identifier: copy_bytes(identifier),
                    callback: callback.id,
                    owner: caller,
                };
                self.subs.push(sub);
                assert(self@ =~= old(self)@.push(sub@));
                Dispatch { callbacks: Vec::new(), data: None }
            },
            HostCall::Unsubscribe { identifier, callback } => {
                if let Some(i) = self.find_last(identifier, callback.id) {
                    proof {
                        lemma_last_index_bounds(old(self)@, identifier@, callback.id);
                    }
                    self.subs.remove(i);
                    assert(self@ =~= old(self)@.remove(i as int));
                }
                Dispatch { callbacks: Vec::new(), data: None }
            },
            HostCall::Raise { identifier, data } => Dispatch {
                callbacks: self.collect(identifier, None),
                data: Some(copy_bytes(data)),
            },
            HostCall::RaiseNotification { identifier } => Dispatch {
                callbacks: self.collect(identifier, None),
                data: None,
            },
            HostCall::RaiseTargeted { signature, identifier, data } => Dispatch {
                callbacks: self.collect(identifier, Some(*signature)),
                data: Some(copy_bytes(data)),
            },
            HostCall::RaiseNotificationTargeted { signature, identifier } => Dispatch {
                callbacks: self.collect(identifier, Some(*signature)),
                data: None,
            },
        }
    }
}

} // verus!
