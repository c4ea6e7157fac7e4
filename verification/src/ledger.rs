//! Bounded FIFO ledger operations.
//!
//! Every per-key list in the store (messages sent by an account, paid
//! messages of an account, the paid messages of a topic, the replies of a
//! message, the endorsers of a paid message, follow and block lists) is a
//! fixed-capacity ordered list of keys, oldest first.  Appending to a full
//! list first evicts the front (oldest) element; the caller performs any
//! cascade deletion the evicted key requires.  Removal takes out the first
//! occurrence of a key.  There is no reordering on read.

use vstd::prelude::*;

verus! {

/// The list after a bounded FIFO append: when the list has reached `cap`,
/// the front element leaves and `item` goes to the back.
pub open spec fn fifo_appended(l: Seq<u64>, cap: usize, item: u64) -> Seq<u64> {
    if l.len() >= cap {
        l.subrange(1, l.len() as int).push(item)
    } else {
        l.push(item)
    }
}

/// `l_new` is `l_old` with the first occurrence of `x` taken out.
pub open spec fn removed_first(l_old: Seq<u64>, l_new: Seq<u64>, x: u64) -> bool {
    exists|i: int|
        {
            &&& 0 <= i < l_old.len()
            &&& #[trigger] l_old[i] == x
            &&& (forall|j: int| 0 <= j < i ==> l_old[j] != x)
            &&& l_new == l_old.remove(i)
        }
}

/// Appends `item` to a capacity-`cap` ledger.  When the ledger is full the
/// oldest (front) element is evicted first and handed back so the caller
/// can cascade its deletion.
pub fn ledger_append(list: &mut Vec<u64>, cap: usize, item: u64) -> (evicted: Option<u64>)
    requires
        cap >= 1,
        old(list)@.len() <= cap,
    ensures
        final(list)@.len() <= cap,
        final(list)@ == fifo_appended(old(list)@, cap, item),
        evicted == (if old(list)@.len() == cap {
            Some(old(list)@[0])
        } else {
            None::<u64>
        }),
{
    if list.len() >= cap {
        let evicted = list.remove(0);
        list.push(item);
        proof {
            assert(final(list)@ =~= old(list)@.subrange(1, cap as int).push(item));
        }
        Some(evicted)
    } else {
        list.push(item);
        None
    }
}

/// Index of the first occurrence of `item`, if any.
pub fn ledger_find(list: &Vec<u64>, item: u64) -> (r: Option<usize>)
    ensures
        match r {
            Some(i) => {
                &&& i < list@.len()
                &&& list@[i as int] == item
                &&& forall|j: int| 0 <= j < i ==> list@[j] != item
            },
            None => !list@.contains(item),
        },
{
    let mut i: usize = 0;
    while i < list.len()
        invariant
            i <= list@.len(),
            forall|j: int| 0 <= j < i ==> list@[j] != item,
        decreases list@.len() - i,
    {
        if list[i] == item {
            return Some(i);
        }
        i = i + 1;
    }
    None
}

/// Whether the ledger holds `item`.
pub fn ledger_contains(list: &Vec<u64>, item: u64) -> (r: bool)
    ensures
        r == list@.contains(item),
{
    ledger_find(list, item).is_some()
}

/// Removes the first occurrence of `item`; a no-op when absent.
pub fn ledger_remove(list: &mut Vec<u64>, item: u64) -> (removed: bool)
    ensures
        removed == old(list)@.contains(item),
        removed ==> removed_first(old(list)@, final(list)@, item),
        removed ==> final(list)@.len() == old(list)@.len() - 1,
        !removed ==> final(list)@ == old(list)@,
{
    match ledger_find(list, item) {
        Some(i) => {
            list.remove(i);
            proof {
                assert(final(list)@ == old(list)@.remove(i as int));
            }
            true
        },
        None => false,
    }
}

/// Removes every occurrence of `item`, keeping the order of the rest.
pub fn ledger_remove_all(list: &mut Vec<u64>, item: u64)
    ensures
        final(list)@ == old(list)@.filter(|x: u64| x != item),
{
    let ghost all = list@;
    let mut kept: Vec<u64> = Vec::new();
    let mut i: usize = 0;
    proof {
        assert(all.subrange(0, 0) =~= Seq::<u64>::empty());
        reveal_with_fuel(Seq::filter, 1);
        assert(all.subrange(0, 0).filter(|x: u64| x != item) =~= Seq::<u64>::empty());
    }
    while i < list.len()
        invariant
            i <= all.len(),
            list@ == all,
            kept@ == all.subrange(0, i as int).filter(|x: u64| x != item),
        decreases all.len() - i,
    {
        let x = list[i];
        proof {
            assert(all.subrange(0, i + 1 as int).drop_last() =~= all.subrange(0, i as int));
            reveal_with_fuel(Seq::filter, 2);
        }
        if x != item {
            kept.push(x);
        }
        i = i + 1;
    }
    proof {
        assert(all.subrange(0, all.len() as int) =~= all);
    }
    *list = kept;
}

} // verus!
