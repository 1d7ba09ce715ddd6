//! Laws of the bridge over the host model: what subscribing, reverting and
//! raising do to the registry and to what subscribers observe.

use crate::bus::{SubModel, apply, delivered, last_index_of, payload_of, reaches, recipients};
use crate::event::{CallModel, HostCall, Revertible, subscribed};
use crate::identifier::{EventError, c_form, has_nul};
use crate::payload::Payload;
use vstd::prelude::*;
use vstd::string::StringSliceAdditionalSpecFns;

verus! {

/// Subscribing and then performing the returned undo action leaves the
/// registry as it was, for every identifier without a null byte.
pub proof fn lemma_subscribe_then_revert(
    s: Seq<SubModel>,
    caller: i32,
    reverter: i32,
    identifier: &str,
    callback: u64,
    r: Result<(HostCall, Revertible), EventError>,
)
    requires
        !has_nul(identifier.spec_bytes()),
        subscribed(identifier, callback, r),
    ensures
        r matches Ok((call, undo)) && apply(apply(s, caller, call@), reverter, undo@) == s,
{
    let x = c_form(identifier);
    let t = s.push((x, callback, caller));
    assert(t.drop_last() == s);
    assert(last_index_of(t, x, callback) == s.len());
    assert(t.remove(s.len() as int) =~= s);
}

/// Reverting a subscription removes exactly that subscription: one made after
/// it, with another identifier or another callback, stays in the registry.
pub proof fn lemma_revert_removes_only_its_own(
    s: Seq<SubModel>,
    caller: i32,
    other_caller: i32,
    reverter: i32,
    identifier: Seq<u8>,
    callback: u64,
    other_identifier: Seq<u8>,
    other_callback: u64,
)
    requires
        identifier != other_identifier || callback != other_callback,
    ensures
        apply(
            apply(
                apply(s, caller, CallModel::Subscribe { identifier, callback }),
                other_caller,
                CallModel::Subscribe { identifier: other_identifier, callback: other_callback },
            ),
            reverter,
            CallModel::Unsubscribe { identifier, callback },
        ) == s.push((other_identifier, other_callback, other_caller)),
{
    let t1 = s.push((identifier, callback, caller));
    let t2 = t1.push((other_identifier, other_callback, other_caller));
    assert(t2.drop_last() == t1);
    assert(t1.drop_last() == s);
    assert(t2.last() == (other_identifier, other_callback, other_caller));
    assert(last_index_of(t1, identifier, callback) == s.len());
    assert(last_index_of(t2, identifier, callback) == last_index_of(t1, identifier, callback));
    assert(t2.remove(s.len() as int) =~= s.push((other_identifier, other_callback, other_caller)));
}

/// Two trampolines with different identities on one identifier: reverting the
/// first leaves the second reached by every later raise on that identifier.
pub proof fn lemma_distinct_trampolines_independent(
    s: Seq<SubModel>,
    caller: i32,
    identifier: Seq<u8>,
    first: u64,
    second: u64,
)
    requires
        first != second,
    ensures
        ({
            let after = apply(
                apply(
                    apply(s, caller, CallModel::Subscribe { identifier, callback: first }),
                    caller,
                    CallModel::Subscribe { identifier, callback: second },
                ),
                caller,
                CallModel::Unsubscribe { identifier, callback: first },
            );
            recipients(after, identifier, None) == recipients(s, identifier, None).push(second)
        }),
{
    lemma_revert_removes_only_its_own(
        s,
        caller,
        caller,
        caller,
        identifier,
        first,
        identifier,
        second,
    );
    let after = s.push((identifier, second, caller));
    assert(after.drop_last() == s);
}

/// A value raised on a channel of type `T` reaches each recipient as its byte
/// image, and the trampoline of type `T` reads that image back as the value.
pub proof fn lemma_raised_value_observed_intact<T: Payload>(
    s: Seq<SubModel>,
    identifier: &str,
    v: T,
)
    ensures
        payload_of(CallModel::Raise { identifier: c_form(identifier), data: v.spec_encode() })
            == Some(v.spec_encode()),
        T::spec_decode(v.spec_encode()) == Some(v),
        delivered(s, CallModel::Raise { identifier: c_form(identifier), data: v.spec_encode() })
            == recipients(s, c_form(identifier), None),
{
    T::lemma_decode_encode(v);
}

/// A notification carries no payload, targeted or not, so its recipients
/// observe no value.
pub proof fn lemma_notification_has_no_payload(identifier: Seq<u8>, signature: i32)
    ensures
        payload_of(CallModel::RaiseNotification { identifier }) is None,
        payload_of(CallModel::RaiseNotificationTargeted { signature, identifier }) is None,
{
}

/// A raise changes no subscription.
pub proof fn lemma_raise_keeps_registry(s: Seq<SubModel>, caller: i32, c: CallModel)
    requires
        !(c is Subscribe),
        !(c is Unsubscribe),
    ensures
        apply(s, caller, c) == s,
{
}

/// A targeted raise reaches no callback of an addon with another signature:
/// where no subscription on the identifier belongs to the target, nothing
/// is invoked.
pub proof fn lemma_targeted_skips_other_addons(s: Seq<SubModel>, identifier: Seq<u8>, target: i32)
    requires
        forall|i: int| 0 <= i < s.len() && s[i].0 == identifier ==> s[i].2 != target,
    ensures
        recipients(s, identifier, Some(target)) == Seq::<u64>::empty(),
    decreases s.len(),
{
    if s.len() > 0 {
        assert(!reaches(s.last(), identifier, Some(target)));
        let p = s.drop_last();
        assert forall|i: int| 0 <= i < p.len() && p[i].0 == identifier implies p[i].2 != target by {
            assert(p[i] == s[i]);
        }
        lemma_targeted_skips_other_addons(p, identifier, target);
    }
}

} // verus!
