use vstd::hash_map::StringHashMap;
use vstd::prelude::*;

use crate::scene::MissionType;

verus! {

/// The value of `name` in `m`, zero where it was never set.
pub open spec fn flag_value(m: Map<Seq<char>, i64>, name: Seq<char>) -> i64 {
    if m.contains_key(name) {
        m[name]
    } else {
        0
    }
}

/// `v`, held inside the range of an `i64`.
pub open spec fn saturated(v: int) -> i64 {
    if v < i64::MIN {
        i64::MIN
    } else if v > i64::MAX {
        i64::MAX
    } else {
        v as i64
    }
}

/// The flags once `delta` is added to `name`.
pub open spec fn apply_delta(m: Map<Seq<char>, i64>, name: Seq<char>, delta: i64) -> Map<
    Seq<char>,
    i64,
> {
    m.insert(name, saturated(flag_value(m, name) + delta))
}

/// The flags once every change of `ds` is added, in order.
pub open spec fn apply_deltas(m: Map<Seq<char>, i64>, ds: Seq<(String, i64)>) -> Map<
    Seq<char>,
    i64,
>
    decreases ds.len(),
{
    if ds.len() == 0 {
        m
    } else {
        apply_delta(apply_deltas(m, ds.drop_last()), ds.last().0@, ds.last().1)
    }
}

/// The flag names in the order each was first set, once `ds` is applied.
pub open spec fn names_after(ns: Seq<Seq<char>>, ds: Seq<(String, i64)>) -> Seq<Seq<char>>
    decreases ds.len(),
{
    if ds.len() == 0 {
        ns
    } else {
        let p = names_after(ns, ds.drop_last());
        if p.contains(ds.last().0@) {
            p
        } else {
            p.push(ds.last().0@)
        }
    }
}

/// The sum of the changes that `ds` makes to `x`.
pub open spec fn delta_sum(ds: Seq<(String, i64)>, x: Seq<char>) -> int
    decreases ds.len(),
{
    if ds.len() == 0 {
        0
    } else {
        delta_sum(ds.drop_last(), x) + if ds.last().0@ == x {
            ds.last().1 as int
        } else {
            0
        }
    }
}

/// Adding the changes of `ds` to `x` one by one never leaves the range of an
/// `i64`.
pub open spec fn sums_fit(m: Map<Seq<char>, i64>, ds: Seq<(String, i64)>, x: Seq<char>) -> bool {
    forall|k: int|
        0 <= k <= ds.len() ==> i64::MIN <= flag_value(m, x) + #[trigger] delta_sum(ds.take(k), x)
            <= i64::MAX
}

/// Where nothing saturates, applying `ds` leaves `x` at its old value plus
/// the sum of its changes.
pub proof fn lemma_deltas_sum(m: Map<Seq<char>, i64>, ds: Seq<(String, i64)>, x: Seq<char>)
    requires
        sums_fit(m, ds, x),
    ensures
        flag_value(apply_deltas(m, ds), x) == flag_value(m, x) + delta_sum(ds, x),
    decreases ds.len(),
{
    if ds.len() > 0 {
        let p = ds.drop_last();
        assert forall|k: int| 0 <= k <= p.len() implies i64::MIN <= flag_value(m, x)
            + #[trigger] delta_sum(p.take(k), x) <= i64::MAX by {
            assert(p.take(k) == ds.take(k));
        }
        lemma_deltas_sum(m, p, x);
        assert(ds.take(ds.len() as int) == ds);
    }
}

/// The flags and mission tokens gathered over a whole play.
pub struct Ledger {
    flags: StringHashMap<i64>,
    names: Vec<String>,
    missions: Vec<MissionType>,
}

impl Ledger {
    /// The accumulated value of each flag that was ever set.
    pub closed spec fn flags(self) -> Map<Seq<char>, i64> {
        self.flags@
    }

    /// The names of the flags, in the order each was first set.
    pub closed spec fn names(self) -> Seq<Seq<char>> {
        self.names@.map_values(|s: String| s@)
    }

    /// The mission tokens, in the order they were collected.
    pub closed spec fn missions(self) -> Seq<MissionType> {
        self.missions@
    }

    /// Each flag appears once among the names, and the names are exactly
    /// the flags that were set.
    pub open spec fn wf(self) -> bool {
        &&& self.names().no_duplicates()
        &&& forall|k: Seq<char>| #[trigger] self.flags().contains_key(k) <==> self.names().contains(k)
    }

    /// A ledger with no flag and no mission.
    pub fn new() -> (r: Ledger)
        ensures
            r.wf(),
            r.flags() == Map::<Seq<char>, i64>::empty(),
            r.names() == Seq::<Seq<char>>::empty(),
            r.missions() == Seq::<MissionType>::empty(),
    {
        let r = Ledger { flags: StringHashMap::new(), names: Vec::new(), missions: Vec::new() };
        assert(r.names() =~= Seq::<Seq<char>>::empty());
        r
    }

    /// Adds `delta` to the flag `name`, which starts at zero.
    pub fn add_to_flag(&mut self, name: &String, delta: i64)
        requires
            old(self).wf(),
        ensures
            final(self).wf(),
            final(self).flags() == apply_delta(old(self).flags(), name@, delta),
            final(self).names() == (if old(self).names().contains(name@) {
                old(self).names()
            } else {
                old(self).names().push(name@)
            }),
            final(self).missions() == old(self).missions(),
    {
        let current: i64 = match self.flags.get(name.as_str()) {
            Some(v) => {
                assert(self.flags().contains_key(name@));
                *v
            },
            None => {
                assert(!self.flags().contains_key(name@));
                assert(!old(self).names().contains(name@));
                self.names.push(name.clone());
                assert(self.names() =~= old(self).names().push(name@));
                proof {
                    let ns = self.names();
                    assert forall|a: int, b: int|
                        0 <= a < ns.len() && 0 <= b < ns.len() && a != b implies ns[a] != ns[b] by {
                        if a == ns.len() - 1 {
                            assert(old(self).names()[b] == ns[b]);
                        } else if b == ns.len() - 1 {
                            assert(old(self).names()[a] == ns[a]);
                        }
                    }
                }
                0
            },
        };
        assert(self.names() == (if old(self).names().contains(name@) {
            old(self).names()
        } else {
            old(self).names().push(name@)
        }));
        assert(self.names().no_duplicates());
        let sum: i128 = current as i128 + delta as i128;
        let next: i64 = if sum < i64::MIN as i128 {
            i64::MIN
        } else if sum > i64::MAX as i128 {
            i64::MAX
        } else {
            sum as i64
        };
        self.flags.insert(name.clone(), next);
        proof {
            assert(self.names().contains(name@)) by {
                if old(self).names().contains(name@) {
                } else {
                    assert(self.names()[old(self).names().len() as int] == name@);
                }
            }
            assert forall|k: Seq<char>| #[trigger]
                self.flags().contains_key(k) <==> self.names().contains(k) by {
                if k != name@ {
                    assert(old(self).flags().contains_key(k) <==> old(self).names().contains(k));
                    if old(self).names().contains(k) {
                        let j = choose|j: int|
                            0 <= j < old(self).names().len() && old(self).names()[j] == k;
                        assert(self.names()[j] == k);
                    }
                    if self.names().contains(k) {
                        let j = choose|j: int| 0 <= j < self.names().len() && self.names()[j] == k;
                        assert(old(self).names()[j] == k);
                    }
                }
            }
        }
    }

    /// Adds each change of `deltas` to its flag, in order: a name that
    /// comes twice gets both.
    pub fn apply_outcome(&mut self, deltas: &Vec<(String, i64)>)
        requires
            old(self).wf(),
        ensures
            final(self).wf(),
            final(self).flags() == apply_deltas(old(self).flags(), deltas@),
            final(self).names() == names_after(old(self).names(), deltas@),
            final(self).missions() == old(self).missions(),
    {
        let n = deltas.len();
        let mut i: usize = 0;
        while i < n
            invariant
                n == deltas@.len(),
                i <= n,
                self.wf(),
                self.flags() == apply_deltas(old(self).flags(), deltas@.take(i as int)),
                self.names() == names_after(old(self).names(), deltas@.take(i as int)),
                self.missions() == old(self).missions(),
            decreases n - i,
        {
            let ghost t = deltas@.take(i + 1);
            assert(t.drop_last() == deltas@.take(i as int));
            assert(t.last() == deltas@[i as int]);
            self.add_to_flag(&deltas[i].0, deltas[i].1);
            i = i + 1;
        }
        assert(deltas@.take(n as int) == deltas@);
    }

    /// Appends a mission token; the same mission may be collected again.
    pub fn collect_mission(&mut self, mission: MissionType)
        requires
            old(self).wf(),
        ensures
            final(self).wf(),
            final(self).flags() == old(self).flags(),
            final(self).names() == old(self).names(),
            final(self).missions() == old(self).missions().push(mission),
    {
        self.missions.push(mission);
        assert(self.flags() == old(self).flags());
        assert(self.names() == old(self).names());
    }

    /// The value of the flag `name`, zero where it was never set.
    pub fn flag(&self, name: &str) -> (r: i64)
        ensures
            r == flag_value(self.flags(), name@),
    {
        match self.flags.get(name) {
            Some(v) => *v,
            None => 0,
        }
    }

    /// The mission tokens collected so far.
    pub fn missions_view(&self) -> (r: &Vec<MissionType>)
        ensures
            r@ == self.missions(),
    {
        &self.missions
    }

    /// Every flag with its value, in the order each was first set.
    pub fn snapshot(&self) -> (r: Vec<(String, i64)>)
        requires
            self.wf(),
        ensures
            r@.len() == self.names().len(),
            forall|i: int|
                0 <= i < r@.len() ==> (#[trigger] r@[i]).0@ == self.names()[i] && r@[i].1
                    == self.flags()[self.names()[i]],
    {
        let mut r: Vec<(String, i64)> = Vec::new();
        let n = self.names.len();
        let mut i: usize = 0;
        while i < n
            invariant
                n == self.names().len(),
                i <= n,
                self.wf(),
                r@.len() == i,
                forall|j: int|
                    0 <= j < i ==> (#[trigger] r@[j]).0@ == self.names()[j] && r@[j].1
                        == self.flags()[self.names()[j]],
            decreases n - i,
        {
            let name = &self.names[i];
            assert(self.names()[i as int] == name@);
            assert(self.names().contains(name@));
            let v = self.flag(name.as_str());
            r.push((name.clone(), v));
            i = i + 1;
        }
        r
    }
}

} // verus!
