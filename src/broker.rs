//! The broker: owner of the module registry and of every subscription set,
//! and the sole router of messages between modules.

use vstd::prelude::*;
use crate::messages::{AppMessage, InMessage, InMsg, OutMessage, OutMsg};
use crate::module::{Module, ModuleView};

verus! {

/// A message addressed to one module, by its index in the registry.
#[derive(Clone, Debug, PartialEq, Eq)]
pub struct Delivery {
    pub target: usize,
    pub message: InMessage,
}

/// The mathematical value of a [`Delivery`].
pub ghost struct DeliveryView {
    pub target: int,
    pub message: InMsg,
}

impl View for Delivery {
    type V = DeliveryView;

    open spec fn view(&self) -> DeliveryView {
        DeliveryView { target: self.target as int, message: self.message@ }
    }
}

/// The values of a sequence of deliveries.
pub open spec fn delivery_views(s: Seq<Delivery>) -> Seq<DeliveryView> {
    s.map_values(|d: Delivery| d@)
}

/// The mathematical value of a [`Broker`]: the registered modules, by index,
/// and whether subscription requests are acknowledged.
pub ghost struct BrokerView {
    pub modules: Seq<ModuleView>,
    pub acknowledge: bool,
}

/// Whether module `i` is registered, reachable and subscribed to `t`.
pub open spec fn is_subscriber(modules: Seq<ModuleView>, i: int, t: Seq<char>) -> bool {
    0 <= i < modules.len() && modules[i].alive && modules[i].topics.contains(t)
}

/// The indices of the subscribers of `t`, in registry order.
pub open spec fn subscribers(modules: Seq<ModuleView>, t: Seq<char>) -> Seq<int>
    decreases modules.len(),
{
    if modules.len() == 0 {
        Seq::empty()
    } else {
        let rest = subscribers(modules.drop_last(), t);
        if is_subscriber(modules, modules.len() - 1, t) {
            rest.push(modules.len() - 1)
        } else {
            rest
        }
    }
}

/// The indices of the reachable modules, in registry order.
pub open spec fn live_modules(modules: Seq<ModuleView>) -> Seq<int>
    decreases modules.len(),
{
    if modules.len() == 0 {
        Seq::empty()
    } else {
        let rest = live_modules(modules.drop_last());
        if modules.last().alive {
            rest.push(modules.len() - 1)
        } else {
            rest
        }
    }
}

/// One message for each of the given modules.
pub open spec fn address(targets: Seq<int>, m: InMsg) -> Seq<DeliveryView> {
    targets.map_values(|i: int| DeliveryView { target: i, message: m })
}

/// Routing of `Generic(t, p)`: one copy to each current subscriber of `t`.
pub open spec fn dispatch_spec(v: BrokerView, t: Seq<char>, p: AppMessage) -> Seq<DeliveryView> {
    address(subscribers(v.modules, t), InMsg::Generic(t, p))
}

/// The registry with the subscription set of module `id` replaced.
pub open spec fn with_topics(v: BrokerView, id: int, topics: Set<Seq<char>>) -> BrokerView {
    BrokerView {
        modules: v.modules.update(id, ModuleView { topics, ..v.modules[id] }),
        ..v
    }
}

/// The acknowledgment of a subscription request, if the broker sends them.
pub open spec fn ack(v: BrokerView, id: int, m: InMsg) -> Seq<DeliveryView> {
    if v.acknowledge {
        seq![DeliveryView { target: id, message: m }]
    } else {
        Seq::empty()
    }
}

/// How the broker answers one message from module `from`: the registry
/// after it, and the deliveries it makes, in order. Requests of a module
/// whose worker is unreachable change nothing.
pub open spec fn step(v: BrokerView, from: int, m: OutMsg) -> (BrokerView, Seq<DeliveryView>) {
    match m {
        OutMsg::Subscribe(t) => if v.modules[from].alive {
            (
                with_topics(v, from, v.modules[from].topics.insert(t)),
                ack(v, from, InMsg::Subscribed(t)),
            )
        } else {
            (v, Seq::empty())
        },
        OutMsg::Unsubscribe(t) => if v.modules[from].alive {
            (
                with_topics(v, from, v.modules[from].topics.remove(t)),
                ack(v, from, InMsg::Unsubscribed(t)),
            )
        } else {
            (v, Seq::empty())
        },
        OutMsg::Generic(t, p) => (v, dispatch_spec(v, t, p)),
    }
}

/// The registry after module `id` was found unreachable: it no longer
/// counts as alive and its subscription set is empty.
pub open spec fn retire_spec(v: BrokerView, id: int) -> BrokerView {
    BrokerView {
        modules: v.modules.update(
            id,
            ModuleView { topics: Set::empty(), alive: false, ..v.modules[id] },
        ),
        ..v
    }
}

/// The module registry and router.
pub struct Broker {
    modules: Vec<Module>,
    acknowledge: bool,
}

impl View for Broker {
    type V = BrokerView;

    closed spec fn view(&self) -> BrokerView {
        BrokerView {
            modules: self.modules@.map_values(|m: Module| m@),
            acknowledge: self.acknowledge,
        }
    }
}

impl Broker {
    /// Every registered module is well formed.
    pub closed spec fn wf(&self) -> bool {
        forall|i: int| 0 <= i < self.modules@.len() ==> #[trigger] self.modules@[i].wf()
    }

    /// A broker with no modules; `acknowledge` says whether subscription
    /// requests are confirmed to the requesting module.
    pub fn new(acknowledge: bool) -> (b: Broker)
        ensures
            b.wf(),
            b@ == (BrokerView { modules: Seq::empty(), acknowledge }),
    {
        let b = Broker { modules: Vec::new(), acknowledge };
        assert(b@.modules =~= Seq::empty());
        b
    }

    /// The number of registered modules.
    pub fn module_count(&self) -> (r: usize)
        ensures
            r == self@.modules.len(),
    {
        self.modules.len()
    }

    /// The registered module with index `id`.
    pub fn module(&self, id: usize) -> (r: &Module)
        requires
            id < self@.modules.len(),
        ensures
            r@ == self@.modules[id as int],
            self.wf() ==> r.wf(),
    {
        &self.modules[id]
    }
    /// Registers a new live module with no subscriptions and returns the
    /// `Startup` message addressed to it.
    pub fn start_module(&mut self, name: &str) -> (d: Delivery)
        requires
            old(self).wf(),
        ensures
            final(self).wf(),
            final(self)@ == (BrokerView {
                modules: old(self)@.modules.push(
                    ModuleView { name: name@, topics: Set::empty(), alive: true },
                ),
                ..old(self)@
            }),
            d@ == (DeliveryView { target: old(self)@.modules.len() as int, message: InMsg::Startup }),
    {
        let id = self.modules.len();
        let m = Module::new(name);
        self.modules.push(m);
        assert(self@.modules =~= old(self)@.modules.push(m@));
        Delivery { target: id, message: InMessage::Startup }
    }

    /// The copies of `Generic(topic, payload)` that go to the current
    /// subscribers of `topic`, one each, in registry order.
    pub fn dispatch(&self, topic: &String, payload: AppMessage) -> (r: Vec<Delivery>)
        ensures
            delivery_views(r@) == dispatch_spec(self@, topic@, payload),
    {
        let ghost mods = self@.modules;
        let mut out: Vec<Delivery> = Vec::new();
        let mut i: usize = 0;
        while i < self.modules.len()
            invariant
                mods == self@.modules,
                i <= mods.len(),
                delivery_views(out@) == address(
                    subscribers(mods.take(i as int), topic@),
                    InMsg::Generic(topic@, payload),
                ),
            decreases mods.len() - i,
        {
            let ghost before = out@;
            let m = &self.modules[i];
            assert(mods.take(i + 1).drop_last() =~= mods.take(i as int));
            if m.is_alive() && m.is_subscribed(topic) {
                out.push(Delivery { target: i, message: InMessage::Generic(topic.clone(), payload) });
                assert(is_subscriber(mods.take(i + 1), i as int, topic@));
                assert(delivery_views(out@) =~= delivery_views(before).push(
                    DeliveryView { target: i as int, message: InMsg::Generic(topic@, payload) },
                ));
                assert(subscribers(mods.take(i + 1), topic@) == subscribers(mods.take(i as int), topic@).push(i as int));
                assert(delivery_views(out@) =~= address(
                    subscribers(mods.take(i + 1), topic@),
                    InMsg::Generic(topic@, payload),
                ));
            } else {
                assert(!is_subscriber(mods.take(i + 1), i as int, topic@));
            }
            i += 1;
        }
        assert(mods.take(mods.len() as int) =~= mods);
        out
    }

    /// A `Shutdown` message for every reachable module, in registry order.
    pub fn shutdown(&self) -> (r: Vec<Delivery>)
        ensures
            delivery_views(r@) == address(live_modules(self@.modules), InMsg::Shutdown),
    {
        let ghost mods = self@.modules;
        let mut out: Vec<Delivery> = Vec::new();
        let mut i: usize = 0;
        while i < self.modules.len()
            invariant
                mods == self@.modules,
                i <= mods.len(),
                delivery_views(out@) == address(live_modules(mods.take(i as int)), InMsg::Shutdown),
            decreases mods.len() - i,
        {
            let ghost before = out@;
            assert(mods.take(i + 1).drop_last() =~= mods.take(i as int));
            if self.modules[i].is_alive() {
                out.push(Delivery { target: i, message: InMessage::Shutdown });
                assert(mods.take(i + 1).last().alive);
                assert(delivery_views(out@) =~= delivery_views(before).push(
                    DeliveryView { target: i as int, message: InMsg::Shutdown },
                ));
                assert(live_modules(mods.take(i + 1)) == live_modules(mods.take(i as int)).push(i as int));
                assert(delivery_views(out@) =~= address(
                    live_modules(mods.take(i + 1)),
                    InMsg::Shutdown,
                ));
            } else {
                assert(!mods.take(i + 1).last().alive);
            }
            i += 1;
        }
        assert(mods.take(mods.len() as int) =~= mods);
        out
    }
    /// Handles one message that module `from` sent: a subscription request
    /// updates that module's set (and is acknowledged if the broker does
    /// so); a publication is routed to the topic's current subscribers.
    pub fn handle(&mut self, from: usize, message: OutMessage) -> (r: Vec<Delivery>)
        requires
            old(self).wf(),
            from < old(self)@.modules.len(),
        ensures
            final(self).wf(),
            (final(self)@, delivery_views(r@)) == step(old(self)@, from as int, message@),
    {
        let ghost v = self@;
        match message {
            OutMessage::Subscribe(topic) => {
                let mut out: Vec<Delivery> = Vec::new();
                if self.modules[from].is_alive() {
                    let ghost t = topic@;
                    if self.acknowledge {
                        out.push(Delivery { target: from, message: InMessage::Subscribed(topic.clone()) });
                    }
                    self.modules[from].subscribe(topic);
                    assert(self@.modules =~= with_topics(v, from as int, v.modules[from as int].topics.insert(t)).modules);
                    assert(delivery_views(out@) =~= ack(v, from as int, InMsg::Subscribed(t)));
                } else {
                    assert(delivery_views(out@) =~= Seq::empty());
                }
                out
            },
            OutMessage::Unsubscribe(topic) => {
                let mut out: Vec<Delivery> = Vec::new();
                if self.modules[from].is_alive() {
                    self.modules[from].unsubscribe(&topic);
                    assert(self@.modules =~= with_topics(v, from as int, v.modules[from as int].topics.remove(topic@)).modules);
                    if self.acknowledge {
                        out.push(Delivery { target: from, message: InMessage::Unsubscribed(topic) });
                    }
                    assert(delivery_views(out@) =~= ack(v, from as int, InMsg::Unsubscribed(topic@)));
                } else {
                    assert(delivery_views(out@) =~= Seq::empty());
                }
                out
            },
            OutMessage::Generic(topic, payload) => self.dispatch(&topic, payload),
        }
    }

    /// Records that the worker of module `id` can no longer be reached: it
    /// counts as dead from now on and is removed from every subscriber set,
    /// so that routing to the other modules goes on.
    pub fn retire(&mut self, id: usize)
        requires
            old(self).wf(),
            id < old(self)@.modules.len(),
        ensures
            final(self).wf(),
            final(self)@ == retire_spec(old(self)@, id as int),
    {
        let ghost v = self@;
        self.modules[id].retire();
        assert(self@.modules =~= retire_spec(v, id as int).modules);
    }
}

} // verus!
