//! General facts about the broker's rules, proved over the spec functions
//! that its operations are specified by.

use vstd::prelude::*;
use crate::broker::{BrokerView, DeliveryView, dispatch_spec, is_subscriber, step, subscribers};
use crate::messages::{AppMessage, InMsg, OutMsg};
use crate::module::ModuleView;

verus! {

/// The messages that a sequence of deliveries hands to module `id`, in order.
pub open spec fn inbox(ds: Seq<DeliveryView>, id: int) -> Seq<InMsg> {
    ds.filter(|d: DeliveryView| d.target == id).map_values(|d: DeliveryView| d.message)
}

/// The subscribers of a topic are exactly the live modules subscribed to it,
/// listed in strictly increasing order.
proof fn lemma_subscribers(modules: Seq<ModuleView>, t: Seq<char>)
    ensures
        forall|k: int|
            0 <= k < subscribers(modules, t).len() ==> is_subscriber(
                modules,
                #[trigger] subscribers(modules, t)[k],
                t,
            ),
        forall|i: int| is_subscriber(modules, i, t) ==> subscribers(modules, t).contains(i),
        forall|a: int, b: int|
            0 <= a < b < subscribers(modules, t).len() ==> subscribers(modules, t)[a]
                < subscribers(modules, t)[b],
    decreases modules.len(),
{
    if modules.len() > 0 {
        let prefix = modules.drop_last();
        lemma_subscribers(prefix, t);
        let rest = subscribers(prefix, t);
        let s = subscribers(modules, t);
        assert forall|i: int| #[trigger]
            is_subscriber(prefix, i, t) <==> (i < modules.len() - 1 && is_subscriber(
                modules,
                i,
                t,
            )) by {}
        assert forall|k: int| 0 <= k < s.len() implies is_subscriber(modules, #[trigger] s[k], t) by {
            if k < rest.len() {
                assert(s[k] == rest[k]);
                assert(is_subscriber(prefix, rest[k], t));
            }
        }
        assert forall|i: int| is_subscriber(modules, i, t) implies s.contains(i) by {
            if i < modules.len() - 1 {
                assert(is_subscriber(prefix, i, t));
                let k = choose|k: int| 0 <= k < rest.len() && rest[k] == i;
                assert(s[k] == i);
            } else {
                assert(s[s.len() - 1] == i);
            }
        }
        assert forall|a: int, b: int| 0 <= a < b < s.len() implies s[a] < s[b] by {
            if b >= rest.len() {
                assert(is_subscriber(prefix, rest[a], t));
            }
        }
    }
}

/// After module `id` subscribes to `t` it holds `t`; after it then
/// unsubscribes from `t` it no longer does. A module whose worker has been
/// found unreachable has its requests ignored, so it is left out.
pub proof fn subscribe_then_unsubscribe(v: BrokerView, id: int, t: Seq<char>)
    requires
        0 <= id < v.modules.len(),
        v.modules[id].alive,
    ensures
        step(v, id, OutMsg::Subscribe(t)).0.modules[id].topics == v.modules[id].topics.insert(t),
        step(v, id, OutMsg::Subscribe(t)).0.modules[id].topics.contains(t),
        step(step(v, id, OutMsg::Subscribe(t)).0, id, OutMsg::Unsubscribe(t)).0.modules[id].topics
            == v.modules[id].topics.remove(t),
        !step(step(v, id, OutMsg::Subscribe(t)).0, id, OutMsg::Unsubscribe(t)).0.modules[id].topics.contains(t),
{
}

/// Subscribing twice to the same topic leaves the registry as subscribing
/// once does: the subscription set keeps its members and its size.
pub proof fn subscribe_idempotent(v: BrokerView, id: int, t: Seq<char>)
    requires
        0 <= id < v.modules.len(),
    ensures
        step(step(v, id, OutMsg::Subscribe(t)).0, id, OutMsg::Subscribe(t)).0 == step(v, id, OutMsg::Subscribe(t)).0,
        step(step(v, id, OutMsg::Subscribe(t)).0, id, OutMsg::Subscribe(t)).0.modules[id].topics.len()
            == step(v, id, OutMsg::Subscribe(t)).0.modules[id].topics.len(),
{
    let v1 = step(v, id, OutMsg::Subscribe(t)).0;
    if v.modules[id].alive {
        assert(v1.modules[id].topics.insert(t) =~= v1.modules[id].topics);
        assert(step(v1, id, OutMsg::Subscribe(t)).0.modules =~= v1.modules);
    }
}

/// Publishing `Generic(t, p)` hands one copy of `(t, p)` to each current
/// subscriber of `t`, and to no other module.
pub proof fn fan_out(v: BrokerView, t: Seq<char>, p: AppMessage)
    ensures
        forall|k: int|
            0 <= k < dispatch_spec(v, t, p).len() ==> (#[trigger] dispatch_spec(v, t, p)[k]).message
                == InMsg::Generic(t, p),
        forall|k: int|
            0 <= k < dispatch_spec(v, t, p).len() ==> is_subscriber(
                v.modules,
                (#[trigger] dispatch_spec(v, t, p)[k]).target,
                t,
            ),
        forall|i: int|
            is_subscriber(v.modules, i, t) ==> exists|k: int|
                0 <= k < dispatch_spec(v, t, p).len() && (#[trigger] dispatch_spec(v, t, p)[k]).target
                    == i,
        forall|a: int, b: int|
            0 <= a < b < dispatch_spec(v, t, p).len() ==> dispatch_spec(v, t, p)[a].target
                != dispatch_spec(v, t, p)[b].target,
{
    lemma_subscribers(v.modules, t);
    let s = subscribers(v.modules, t);
    let ds = dispatch_spec(v, t, p);
    assert forall|i: int| is_subscriber(v.modules, i, t) implies exists|k: int|
        0 <= k < ds.len() && (#[trigger] ds[k]).target == i by {
        let k = choose|k: int| 0 <= k < s.len() && s[k] == i;
        assert(ds[k].target == i);
    }
    assert forall|a: int, b: int| 0 <= a < b < ds.len() implies ds[a].target != ds[b].target by {
        assert(s[a] < s[b]);
    }
}

/// Publishing on a topic that no live module is subscribed to delivers
/// nothing.
pub proof fn no_subscribers_no_deliveries(v: BrokerView, t: Seq<char>, p: AppMessage)
    requires
        forall|i: int| !is_subscriber(v.modules, i, t),
    ensures
        dispatch_spec(v, t, p).len() == 0,
{
    lemma_subscribers(v.modules, t);
    let s = subscribers(v.modules, t);
    if s.len() > 0 {
        assert(is_subscriber(v.modules, s[0], t));
    }
}

/// When the broker handles two messages one after the other, what module
/// `id` is handed by the first comes before what it is handed by the second.
pub proof fn deliveries_keep_order(
    v: BrokerView,
    first_from: int,
    first: OutMsg,
    second_from: int,
    second: OutMsg,
    id: int,
)
    ensures
        ({
            let (v1, d1) = step(v, first_from, first);
            let d2 = step(v1, second_from, second).1;
            inbox(d1 + d2, id) == inbox(d1, id) + inbox(d2, id)
        }),
{
    let (v1, d1) = step(v, first_from, first);
    let d2 = step(v1, second_from, second).1;
    let pred = |d: DeliveryView| d.target == id;
    Seq::filter_distributes_over_add(d1, d2, pred);
    assert((d1 + d2).filter(pred) == d1.filter(pred) + d2.filter(pred));
    assert(inbox(d1 + d2, id) =~= inbox(d1, id) + inbox(d2, id));
}

/// Whether a module's message asks for a change of its own subscriptions.
pub open spec fn is_request(m: OutMsg) -> bool {
    match m {
        OutMsg::Generic(_, _) => false,
        _ => true,
    }
}

/// A subscription request changes the subscription set of the requesting
/// module only, and whatever it delivers (an acknowledgment) goes to that
/// module alone.
pub proof fn requests_touch_only_requester(v: BrokerView, id: int, m: OutMsg)
    requires
        0 <= id < v.modules.len(),
        is_request(m),
    ensures
        step(v, id, m).0.acknowledge == v.acknowledge,
        step(v, id, m).0.modules.len() == v.modules.len(),
        forall|j: int|
            0 <= j < v.modules.len() && j != id ==> #[trigger] step(v, id, m).0.modules[j]
                == v.modules[j],
        step(v, id, m).0.modules[id].name == v.modules[id].name,
        step(v, id, m).0.modules[id].alive == v.modules[id].alive,
        forall|k: int|
            0 <= k < step(v, id, m).1.len() ==> (#[trigger] step(v, id, m).1[k]).target == id,
{
}

/// Publishing never changes the registry, and what it delivers is the
/// routing of the message to the current subscribers.
pub proof fn publish_keeps_registry(v: BrokerView, id: int, t: Seq<char>, p: AppMessage)
    ensures
        step(v, id, OutMsg::Generic(t, p)).0 == v,
        step(v, id, OutMsg::Generic(t, p)).1 == dispatch_spec(v, t, p),
{
}

} // verus!
