//! A module as the broker sees it: its name, whether its worker is still
//! reachable, and the set of topics it is subscribed to.

use vstd::prelude::*;

verus! {

/// The mathematical value of a [`Module`].
pub ghost struct ModuleView {
    pub name: Seq<char>,
    pub topics: Set<Seq<char>>,
    pub alive: bool,
}

/// A registered module. Its subscription set is changed only by the broker,
/// on requests that the module itself issued.
pub struct Module {
    name: String,
    subscriptions: Vec<String>,
    alive: bool,
}

impl View for Module {
    type V = ModuleView;

    closed spec fn view(&self) -> ModuleView {
        ModuleView { name: self.name@, topics: self.topic_seq().to_set(), alive: self.alive }
    }
}

/// Removing one entry of a sequence without duplicates removes exactly that
/// value from its set, and keeps the sequence free of duplicates.
proof fn lemma_remove_from_set(s: Seq<Seq<char>>, i: int)
    requires
        s.no_duplicates(),
        0 <= i < s.len(),
    ensures
        s.remove(i).no_duplicates(),
        s.remove(i).to_set() == s.to_set().remove(s[i]),
{
    let r = s.remove(i);
    assert forall|a: int, b: int| 0 <= a < b < r.len() implies r[a] != r[b] by {
        let sa = if a < i { a } else { a + 1 };
        let sb = if b < i { b } else { b + 1 };
        assert(r[a] == s[sa] && r[b] == s[sb]);
    }
    assert forall|x: Seq<char>| r.to_set().contains(x) <==> s.to_set().remove(s[i]).contains(x) by {
        if r.contains(x) {
            let j = choose|j: int| 0 <= j < r.len() && r[j] == x;
            let sj = if j < i { j } else { j + 1 };
            assert(s[sj] == x);
        }
        if s.contains(x) && x != s[i] {
            let j = choose|j: int| 0 <= j < s.len() && s[j] == x;
            if j < i {
                assert(r[j] == x);
            } else {
                assert(r[j - 1] == x);
            }
        }
    }
    assert(r.to_set() =~= s.to_set().remove(s[i]));
}

impl Module {
    /// The subscribed topics in the order they were added.
    closed spec fn topic_seq(&self) -> Seq<Seq<char>> {
        self.subscriptions@.map_values(|s: String| s@)
    }

    /// No topic is held twice.
    pub closed spec fn wf(&self) -> bool {
        self.topic_seq().no_duplicates()
    }

    /// A live module with the given name and no subscriptions.
    pub fn new(name: &str) -> (m: Module)
        ensures
            m.wf(),
            m@ == (ModuleView { name: name@, topics: Set::empty(), alive: true }),
    {
        let m = Module { name: name.to_owned(), subscriptions: Vec::new(), alive: true };
        assert(m.topic_seq().to_set() =~= Set::empty());
        m
    }

    /// The module's name.
    pub fn name(&self) -> (r: &String)
        ensures
            r@ == self@.name,
    {
        &self.name
    }

    /// Whether the module's worker is still reachable.
    pub fn is_alive(&self) -> (r: bool)
        ensures
            r == self@.alive,
    {
        self.alive
    }

    /// Where the topic stands among the subscriptions, if it is there.
    fn position(&self, topic: &String) -> (r: Option<usize>)
        ensures
            match r {
                Some(i) => i < self.subscriptions@.len() && self.topic_seq()[i as int] == topic@,
                None => !self.topic_seq().contains(topic@),
            },
    {
        let mut i: usize = 0;
        while i < self.subscriptions.len()
            invariant
                i <= self.subscriptions@.len(),
                forall|j: int| 0 <= j < i ==> self.topic_seq()[j] != topic@,
            decreases self.subscriptions@.len() - i,
        {
            if self.subscriptions[i] == *topic {
                return Some(i);
            }
            i += 1;
        }
        None
    }

    /// Whether the module is subscribed to the topic.
    pub fn is_subscribed(&self, topic: &String) -> (r: bool)
        ensures
            r == self@.topics.contains(topic@),
    {
        self.position(topic).is_some()
    }

    /// The number of topics the module is subscribed to.
    pub fn subscription_count(&self) -> (r: usize)
        requires
            self.wf(),
        ensures
            r == self@.topics.len(),
    {
        proof {
            self.topic_seq().unique_seq_to_set();
        }
        self.subscriptions.len()
    }

    /// Adds the topic to the subscription set; nothing changes if it is there.
    pub(crate) fn subscribe(&mut self, topic: String)
        requires
            old(self).wf(),
        ensures
            final(self).wf(),
            final(self)@ == (ModuleView { topics: old(self)@.topics.insert(topic@), ..old(self)@ }),
    {
        match self.position(&topic) {
            Some(_) => {
                assert(self@.topics =~= self@.topics.insert(topic@));
            },
            None => {
                let ghost before = self.topic_seq();
                self.subscriptions.push(topic);
                assert(self.topic_seq() =~= before.push(topic@));
                proof {
                    before.lemma_push_to_set_commute(topic@);
                }
            },
        }
    }

    /// Removes the topic from the subscription set; nothing changes if it is
    /// not there.
    pub(crate) fn unsubscribe(&mut self, topic: &String)
        requires
            old(self).wf(),
        ensures
            final(self).wf(),
            final(self)@ == (ModuleView { topics: old(self)@.topics.remove(topic@), ..old(self)@ }),
    {
        match self.position(topic) {
            Some(i) => {
                let ghost before = self.topic_seq();
                self.subscriptions.remove(i);
                assert(self.topic_seq() =~= before.remove(i as int));
                proof {
                    lemma_remove_from_set(before, i as int);
                }
            },
            None => {
                assert(self@.topics =~= self@.topics.remove(topic@));
            },
        }
    }

    /// Marks the worker as unreachable and drops all its subscriptions.
    pub(crate) fn retire(&mut self)
        ensures
            final(self).wf(),
            final(self)@ == (ModuleView { topics: Set::empty(), alive: false, ..old(self)@ }),
    {
        self.subscriptions.clear();
        self.alive = false;
        assert(self.topic_seq().to_set() =~= Set::empty());
    }
}

} // verus!
