//! What the manager last published of its services: for each package, when
//! its service last changed its state.

use vstd::prelude::*;
use crate::clock::Timespec;
use crate::ident::{PackageIdent, PackageIdentView};

verus! {

/// The views of a list of packages with times.
pub open spec fn entries_view(v: Seq<(PackageIdent, Timespec)>) -> Seq<(PackageIdentView, Timespec)> {
    v.map_values(|e: (PackageIdent, Timespec)| (e.0@, e.1))
}

/// The views of a list of packages.
pub open spec fn idents_view(v: Seq<PackageIdent>) -> Seq<PackageIdentView> {
    v.map_values(|e: PackageIdent| e@)
}

/// The time for each package of a list; of two entries for one package the
/// later one counts.
pub open spec fn states_of(entries: Seq<(PackageIdentView, Timespec)>) -> Map<
    PackageIdentView,
    Timespec,
>
    decreases entries.len(),
{
    if entries.len() == 0 {
        Map::empty()
    } else {
        states_of(entries.drop_last()).insert(entries.last().0, entries.last().1)
    }
}

/// The time that stands for a service that is loaded and does not run.
pub open spec fn never() -> Timespec {
    Timespec { sec: 0, nsec: 0 }
}

/// `states` with the time `never` for each of the packages `loaded` that
/// has no time yet.
pub open spec fn with_loaded(
    states: Map<PackageIdentView, Timespec>,
    loaded: Seq<PackageIdentView>,
) -> Map<PackageIdentView, Timespec>
    decreases loaded.len(),
{
    if loaded.len() == 0 {
        states
    } else {
        let before = with_loaded(states, loaded.drop_last());
        if before.contains_key(loaded.last()) {
            before
        } else {
            before.insert(loaded.last(), never())
        }
    }
}

/// The states of the services that run, with when each of them last changed
/// its state, and of the services that are loaded without running.
pub open spec fn current_states(
    active: Seq<(PackageIdentView, Timespec)>,
    loaded: Seq<PackageIdentView>,
) -> Map<PackageIdentView, Timespec> {
    with_loaded(states_of(active), loaded)
}

/// A package has a time exactly if it is in the list.
proof fn lemma_states_of(entries: Seq<(PackageIdentView, Timespec)>, key: PackageIdentView)
    ensures
        states_of(entries).contains_key(key) <==> exists|i: int|
            0 <= i < entries.len() && (#[trigger] entries[i]).0 == key,
    decreases entries.len(),
{
    if entries.len() > 0 {
        let init = entries.drop_last();
        lemma_states_of(init, key);
        if exists|i: int| 0 <= i < init.len() && (#[trigger] init[i]).0 == key {
            let i = choose|i: int| 0 <= i < init.len() && (#[trigger] init[i]).0 == key;
            assert(entries[i].0 == key);
        }
        if exists|i: int| 0 <= i < entries.len() && (#[trigger] entries[i]).0 == key {
            let i = choose|i: int| 0 <= i < entries.len() && (#[trigger] entries[i]).0 == key;
            if i < init.len() {
                assert(init[i].0 == key);
            }
        }
        if entries.last().0 == key {
            assert(entries[entries.len() - 1].0 == key);
        }
    }
}

/// The time of `key` in a list of packages with times, if it has one.
fn time_of(entries: &Vec<(PackageIdent, Timespec)>, key: &PackageIdent) -> (r: Option<Timespec>)
    ensures
        r == (if states_of(entries_view(entries@)).contains_key(key@) {
            Some(states_of(entries_view(entries@))[key@])
        } else {
            None
        }),
{
    let ghost all = entries_view(entries@);
    let mut i: usize = entries.len();
    assert(all.subrange(0, i as int) =~= all);
    while i > 0
        invariant
            i <= entries.len(),
            all == entries_view(entries@),
            !states_of(all).contains_key(key@) <==> !states_of(all.subrange(0, i as int)).contains_key(
                key@,
            ),
            states_of(all).contains_key(key@) ==> states_of(all)[key@] == states_of(
                all.subrange(0, i as int),
            )[key@],
        decreases i,
    {
        let ghost here = all.subrange(0, i as int);
        assert(here.last() == all[i - 1]);
        assert(here.drop_last() =~= all.subrange(0, i - 1));
        if entries[i - 1].0.same(key) {
            return Some(entries[i - 1].1);
        }
        i = i - 1;
    }
    assert(all.subrange(0, 0).len() == 0);
    None
}

/// Whether every package of `a` has the same time, or none, in `a` and in
/// `b`.
fn agrees(a: &Vec<(PackageIdent, Timespec)>, b: &Vec<(PackageIdent, Timespec)>) -> (r: bool)
    ensures
        r == states_of(entries_view(a@)).submap_of(states_of(entries_view(b@))),
{
    let ghost va = entries_view(a@);
    let ghost vb = entries_view(b@);
    let mut i: usize = 0;
    while i < a.len()
        invariant
            i <= a.len(),
            va == entries_view(a@),
            vb == entries_view(b@),
            forall|j: int|
                0 <= j < i ==> states_of(vb).contains_key((#[trigger] va[j]).0) && states_of(
                    vb,
                )[va[j].0] == states_of(va)[va[j].0],
        decreases a.len() - i,
    {
        let mine = time_of(a, &a[i].0);
        let theirs = time_of(b, &a[i].0);
        proof {
            lemma_states_of(va, va[i as int].0);
            assert(va[i as int].0 == a@[i as int].0@);
        }
        let same = match (mine, theirs) {
            (Some(x), Some(y)) => x.sec == y.sec && x.nsec == y.nsec,
            _ => false,
        };
        if !same {
            assert(states_of(va).dom().contains(va[i as int].0));
            assert(!states_of(va).submap_of(states_of(vb)));
            return false;
        }
        i = i + 1;
    }
    proof {
        assert forall|k: PackageIdentView| #[trigger]
            states_of(va).dom().contains(k) implies #[trigger] states_of(vb).dom().contains(k)
            && states_of(va)[k] == states_of(vb)[k] by {
            lemma_states_of(va, k);
            let j = choose|j: int| 0 <= j < va.len() && (#[trigger] va[j]).0 == k;
            assert(states_of(vb).contains_key(va[j].0));
        }
        assert(states_of(va).submap_of(states_of(vb)));
    }
    true
}

/// What the manager last published of its services.
#[derive(Debug, PartialEq, Eq)]
pub struct ServiceStates {
    entries: Vec<(PackageIdent, Timespec)>,
}

impl ServiceStates {
    /// The time for each package.
    pub closed spec fn states(&self) -> Map<PackageIdentView, Timespec> {
        states_of(entries_view(self.entries@))
    }

    /// Nothing published yet.
    pub fn new() -> (r: ServiceStates)
        ensures
            r.states() == Map::<PackageIdentView, Timespec>::empty(),
    {
        ServiceStates { entries: Vec::new() }
    }

    /// The time that was last published for the package `ident`.
    pub fn get(&self, ident: &PackageIdent) -> (r: Option<Timespec>)
        ensures
            r == (if self.states().contains_key(ident@) {
                Some(self.states()[ident@])
            } else {
                None
            }),
    {
        time_of(&self.entries, ident)
    }

    /// Looks whether the services have changed since this was last asked:
    /// whether another set of services runs or is loaded, or one of them
    /// has changed its state since. `active` holds the running services
    /// with the time of their last change of state, `loaded` the packages
    /// of all specs on disk. Where anything has changed, the new states
    /// are kept for the next time.
    pub fn check_for_changed_services(
        &mut self,
        active: &Vec<(PackageIdent, Timespec)>,
        loaded: &Vec<PackageIdent>,
    ) -> (r: bool)
        ensures
            r == (old(self).states() != current_states(entries_view(active@), idents_view(loaded@))),
            final(self).states() == current_states(entries_view(active@), idents_view(loaded@)),
    {
        let ghost va = entries_view(active@);
        let ghost vl = idents_view(loaded@);
        let mut now: Vec<(PackageIdent, Timespec)> = Vec::new();
        let mut i: usize = 0;
        assert(va.subrange(0, 0) =~= Seq::<(PackageIdentView, Timespec)>::empty());
        assert(entries_view(now@) =~= va.subrange(0, 0));
        while i < active.len()
            invariant
                i <= active.len(),
                va == entries_view(active@),
                entries_view(now@) == va.subrange(0, i as int),
            decreases active.len() - i,
        {
            let ghost before = entries_view(now@);
            now.push((active[i].0.clone(), active[i].1));
            assert(entries_view(now@) =~= before.push(va[i as int]));
            assert(va.subrange(0, i + 1) =~= before.push(va[i as int]));
            i = i + 1;
        }
        assert(va.subrange(0, active.len() as int) =~= va);
        let mut k: usize = 0;
        assert(vl.subrange(0, 0) =~= Seq::<PackageIdentView>::empty());
        while k < loaded.len()
            invariant
                k <= loaded.len(),
                vl == idents_view(loaded@),
                states_of(entries_view(now@)) == with_loaded(states_of(va), vl.subrange(0, k as int)),
            decreases loaded.len() - k,
        {
            let ghost upto = vl.subrange(0, k + 1);
            assert(upto.drop_last() =~= vl.subrange(0, k as int));
            assert(upto.last() == loaded@[k as int]@);
            if time_of(&now, &loaded[k]).is_none() {
                let ghost before = entries_view(now@);
                now.push((loaded[k].clone(), Timespec { sec: 0, nsec: 0 }));
                let ghost e = (loaded@[k as int]@, never());
                assert(entries_view(now@) =~= before.push(e));
                assert(entries_view(now@).drop_last() =~= before);
            }
            k = k + 1;
        }
        assert(vl.subrange(0, loaded.len() as int) =~= vl);
        let same = agrees(&now, &self.entries) && agrees(&self.entries, &now);
        proof {
            let a = states_of(entries_view(now@));
            let b = self.states();
            if same {
                assert(a =~= b);
            }
        }
        if same {
            false
        } else {
            self.entries = now;
            true
        }
    }
}

} // verus!
