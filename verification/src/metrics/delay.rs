//! The last one-way delay of each target, from which the variation
//! between two successive replies is taken.

use crate::time::{distance, divide, nanos_of, nanos_of_option};
use std::time::Duration;
use vstd::prelude::*;

verus! {

/// Half of a round-trip time, in nanoseconds.
pub open spec fn one_way_delay(round_trip: nat) -> nat {
    round_trip / 2
}

/// The distance between two numbers.
pub open spec fn gap(a: nat, b: nat) -> nat {
    if a >= b {
        (a - b) as nat
    } else {
        (b - a) as nat
    }
}

/// The packet delay variation of a reply: nothing for the first reply of
/// a target, afterwards the distance between its one-way delay and the
/// one before.
pub open spec fn variation_of(delays: Map<Seq<char>, nat>, target: Seq<char>, round_trip: nat) -> Option<
    nat,
> {
    if delays.dom().contains(target) {
        Some(gap(delays[target], one_way_delay(round_trip)))
    } else {
        None
    }
}

pub struct DelayEntry {
    target: String,
    delay: Duration,
}

/// The table that a list of entries makes, later entries first.
pub closed spec fn table_of(entries: Seq<DelayEntry>) -> Map<Seq<char>, nat>
    decreases entries.len(),
{
    if entries.len() == 0 {
        Map::empty()
    } else {
        table_of(entries.drop_last()).insert(entries.last().target@, nanos_of(entries.last().delay))
    }
}

/// No target has two entries.
pub closed spec fn distinct(entries: Seq<DelayEntry>) -> bool {
    forall|i: int, j: int|
        0 <= i < j < entries.len() ==> (#[trigger] entries[i]).target@ != (#[trigger] entries[j]).target@
}

proof fn lemma_absent(entries: Seq<DelayEntry>, target: Seq<char>)
    requires
        forall|i: int| 0 <= i < entries.len() ==> (#[trigger] entries[i]).target@ != target,
    ensures
        !table_of(entries).dom().contains(target),
    decreases entries.len(),
{
    if entries.len() > 0 {
        lemma_absent(entries.drop_last(), target);
    }
}

proof fn lemma_present(entries: Seq<DelayEntry>, i: int)
    requires
        distinct(entries),
        0 <= i < entries.len(),
    ensures
        table_of(entries).dom().contains(entries[i].target@),
        table_of(entries)[entries[i].target@] == nanos_of(entries[i].delay),
    decreases entries.len(),
{
    if i < entries.len() - 1 {
        lemma_prefix_is_distinct(entries);
        lemma_present(entries.drop_last(), i);
    }
}

proof fn lemma_prefix_is_distinct(entries: Seq<DelayEntry>)
    requires
        distinct(entries),
        entries.len() > 0,
    ensures
        distinct(entries.drop_last()),
{
    let prefix = entries.drop_last();
    assert forall|a: int, b: int| 0 <= a < b < prefix.len() implies (#[trigger] prefix[a]).target@ != (
    #[trigger] prefix[b]).target@ by {
        assert(prefix[a] == entries[a] && prefix[b] == entries[b]);
    }
}

proof fn lemma_replaced(entries: Seq<DelayEntry>, i: int, entry: DelayEntry)
    requires
        distinct(entries),
        0 <= i < entries.len(),
        entry.target@ == entries[i].target@,
    ensures
        distinct(entries.update(i, entry)),
        table_of(entries.update(i, entry)) == table_of(entries).insert(
            entry.target@,
            nanos_of(entry.delay),
        ),
    decreases entries.len(),
{
    let updated = entries.update(i, entry);
    assert forall|a: int, b: int| 0 <= a < b < updated.len() implies (#[trigger] updated[a]).target@ != (
    #[trigger] updated[b]).target@ by {
        assert(updated[a].target@ == entries[a].target@ && updated[b].target@ == entries[b].target@);
    }
    if i == entries.len() - 1 {
        assert(updated.drop_last() =~= entries.drop_last());
    } else {
        lemma_prefix_is_distinct(entries);
        lemma_replaced(entries.drop_last(), i, entry);
        assert(updated.drop_last() =~= entries.drop_last().update(i, entry));
    }
    assert(table_of(updated) =~= table_of(entries).insert(entry.target@, nanos_of(entry.delay)));
}

/// The last one-way delay of every target that has replied.
pub struct DelayTable {
    entries: Vec<DelayEntry>,
}

impl View for DelayTable {
    type V = Map<Seq<char>, nat>;

    closed spec fn view(&self) -> Map<Seq<char>, nat> {
        table_of(self.entries@)
    }
}

impl DelayTable {
    pub closed spec fn wf(self) -> bool {
        distinct(self.entries@)
    }

    pub fn new() -> (table: Self)
        ensures
            table.wf(),
            table@ == Map::<Seq<char>, nat>::empty(),
    {
        DelayTable { entries: Vec::new() }
    }

    /// The last one-way delay of a target, if it has replied.
    pub fn last_delay(&self, target: &str) -> (delay: Option<Duration>)
        requires
            self.wf(),
        ensures
            nanos_of_option(delay) == if self@.dom().contains(target@) {
                Some(self@[target@])
            } else {
                None
            },
    {
        match self.position(target) {
            Some(i) => Some(self.entries[i].delay),
            None => None,
        }
    }

    fn position(&self, target: &str) -> (found: Option<usize>)
        requires
            self.wf(),
        ensures
            match found {
                Some(i) => {
                    &&& i < self.entries@.len()
                    &&& self.entries@[i as int].target@ == target@
                    &&& self@.dom().contains(target@)
                    &&& self@[target@] == nanos_of(self.entries@[i as int].delay)
                },
                None => !self@.dom().contains(target@),
            },
    {
        let key = target.to_owned();
        let mut i: usize = 0;
        while i < self.entries.len()
            invariant
                self.wf(),
                i <= self.entries@.len(),
                key@ == target@,
                forall|j: int| 0 <= j < i ==> (#[trigger] self.entries@[j]).target@ != target@,
            decreases self.entries@.len() - i,
        {
            if self.entries[i].target == key {
                proof {
                    lemma_present(self.entries@, i as int);
                }
                return Some(i);
            }
            i += 1;
        }
        proof {
            lemma_absent(self.entries@, target@);
        }
        None
    }

    /// Takes the round-trip time of a reply: stores half of it as the
    /// target's last one-way delay and gives the distance to the one
    /// stored before, if there was one.
    pub fn calc_ipdv(&mut self, target: &str, rtt: Duration) -> (variation: Option<Duration>)
        requires
            old(self).wf(),
        ensures
            final(self).wf(),
            final(self)@ == old(self)@.insert(target@, one_way_delay(nanos_of(rtt))),
            nanos_of_option(variation) == variation_of(old(self)@, target@, nanos_of(rtt)),
    {
        let delay = divide(rtt, 2);
        let entry = DelayEntry { target: target.to_owned(), delay };
        match self.position(target) {
            Some(i) => {
                let variation = distance(self.entries[i].delay, delay);
                proof {
                    lemma_replaced(self.entries@, i as int, entry);
                }
                self.entries.set(i, entry);
                Some(variation)
            },
            None => {
                proof {
                    assert forall|a: int, b: int|
                        0 <= a < b < self.entries@.push(entry).len() implies (
                    #[trigger] self.entries@.push(entry)[a]).target@ != (
                    #[trigger] self.entries@.push(entry)[b]).target@ by {
                        if b == self.entries@.len() {
                            if self.entries@[a].target@ == target@ {
                                lemma_present(self.entries@, a);
                            }
                        }
                    }
                    assert(self.entries@.push(entry).drop_last() =~= self.entries@);
                }
                self.entries.push(entry);
                None
            },
        }
    }
}

/// The first reply of a target has no variation; the reply after one with
/// round-trip time `before` has the distance between the halves of the
/// two as its variation, whatever else the table holds.
pub proof fn lemma_variation_between_replies(
    delays: Map<Seq<char>, nat>,
    target: Seq<char>,
    before: nat,
    after: nat,
)
    ensures
        !delays.dom().contains(target) ==> variation_of(delays, target, before) is None,
        variation_of(delays.insert(target, one_way_delay(before)), target, after) == Some(
            gap(before / 2, after / 2),
        ),
{
}

} // verus!
