use vstd::prelude::*;

verus! {

use vstd::seq_lib::group_to_multiset_ensures;

/// One competitor, as loaded from a roster snapshot. `experience` is an
/// order-preserving integer key for the player's (possibly fractional)
/// experience: the loader maps each raw experience value to a key so that
/// more experience always gives a strictly larger key, which makes the
/// tie-breaking comparison a total order.
#[derive(Debug)]
pub struct Player {
    pub handle: String,
    pub name: String,
    pub level: usize,
    pub experience: u64,
    pub immortal: usize,
    pub start_immortal: Option<usize>,
}

impl Player {
    /// Well-formed: the baseline tier, when one matched, does not exceed
    /// the current tier, and the derived total level fits a machine word.
    pub open spec fn wf(self) -> bool {
        &&& (self.start_immortal matches Some(s) ==> s <= self.immortal)
        &&& self.level + self.immortal * 100 <= usize::MAX
    }

    /// Total level: the current level plus 100 per immortal tier gained
    /// since the baseline snapshot, or per tier outright when no baseline
    /// record matched.
    pub open spec fn total_level_spec(self) -> int {
        self.level + (match self.start_immortal {
            Some(s) => self.immortal - s,
            None => self.immortal as int,
        }) * 100
    }

    /// Total level, computed.
    pub fn total_level(&self) -> (r: usize)
        requires
            self.wf(),
        ensures
            r == self.total_level_spec(),
    {
        let immortal: usize = match self.start_immortal {
            Some(start) => self.immortal - start,
            None => self.immortal,
        };
        self.level + immortal * 100
    }
}

/// `a` may stand at or before `b` on the leaderboard: strictly higher
/// total level first, ties broken in favor of the higher experience key.
pub open spec fn ranks_geq(a: Player, b: Player) -> bool {
    ||| a.total_level_spec() > b.total_level_spec()
    ||| (a.total_level_spec() == b.total_level_spec() && a.experience >= b.experience)
}

/// The leaderboard comparison, computed.
pub fn ranks_before(a: &Player, b: &Player) -> (r: bool)
    requires
        a.wf(),
        b.wf(),
    ensures
        r == ranks_geq(*a, *b),
{
    let ta = a.total_level();
    let tb = b.total_level();
    if ta != tb {
        ta > tb
    } else {
        a.experience >= b.experience
    }
}

/// Immortal tier of the first baseline record at or after index `i` whose
/// full name matches, if any.
pub open spec fn baseline_tier_from(baseline: Seq<Player>, name: Seq<char>, i: int) -> Option<
    usize,
>
    decreases baseline.len() - i,
{
    if i < 0 || i >= baseline.len() {
        None
    } else if baseline[i].name@ == name {
        Some(baseline[i].immortal)
    } else {
        baseline_tier_from(baseline, name, i + 1)
    }
}

/// Immortal tier of the first baseline record whose full name matches.
pub open spec fn baseline_tier(baseline: Seq<Player>, name: Seq<char>) -> Option<usize> {
    baseline_tier_from(baseline, name, 0)
}

/// Look up a player's baseline immortal tier by exact full-name match;
/// the first matching record wins.
pub fn find_baseline(baseline: &Vec<Player>, name: &String) -> (r: Option<usize>)
    ensures
        r == baseline_tier(baseline@, name@),
{
    let mut i: usize = 0;
    while i < baseline.len()
        invariant
            i <= baseline@.len(),
            baseline_tier(baseline@, name@) == baseline_tier_from(baseline@, name@, i as int),
        decreases baseline@.len() - i,
    {
        if baseline[i].name == *name {
            proof {
                assert(baseline_tier_from(baseline@, name@, i as int) == Some(
                    baseline@[i as int].immortal,
                ));
            }
            return Some(baseline[i].immortal);
        }
        proof {
            assert(baseline_tier_from(baseline@, name@, i as int) == baseline_tier_from(
                baseline@,
                name@,
                i as int + 1,
            ));
        }
        i = i + 1;
    }
    None
}

/// The current roster with every player's baseline tier filled in by
/// exact full-name match against the baseline roster; players with no
/// baseline match keep an empty baseline tier.
pub fn join_baseline(current: &Vec<Player>, baseline: &Vec<Player>) -> (r: Vec<Player>)
    ensures
        r@.len() == current@.len(),
        forall|i: int|
            0 <= i < current@.len() ==> {
                &&& (#[trigger] r@[i]).handle@ == current@[i].handle@
                &&& r@[i].name@ == current@[i].name@
                &&& r@[i].level == current@[i].level
                &&& r@[i].experience == current@[i].experience
                &&& r@[i].immortal == current@[i].immortal
                &&& r@[i].start_immortal == baseline_tier(baseline@, current@[i].name@)
            },
{
    let mut r: Vec<Player> = Vec::new();
    let mut i: usize = 0;
    while i < current.len()
        invariant
            i <= current@.len(),
            r@.len() == i,
            forall|k: int|
                0 <= k < i ==> {
                    &&& (#[trigger] r@[k]).handle@ == current@[k].handle@
                    &&& r@[k].name@ == current@[k].name@
                    &&& r@[k].level == current@[k].level
                    &&& r@[k].experience == current@[k].experience
                    &&& r@[k].immortal == current@[k].immortal
                    &&& r@[k].start_immortal == baseline_tier(baseline@, current@[k].name@)
                },
        decreases current@.len() - i,
    {
        let p = &current[i];
        let start_immortal = find_baseline(baseline, &p.name);
        r.push(
            Player {
                handle: p.handle.clone(),
                name: p.name.clone(),
                level: p.level,
                experience: p.experience,
                immortal: p.immortal,
                start_immortal,
            },
        );
        i = i + 1;
    }
    r
}

/// Every player on the roster is well-formed; app code checks this before
/// asking for totals, so malformed data fails fast instead of wrapping.
pub fn all_wf(players: &Vec<Player>) -> (r: bool)
    ensures
        r == forall|i: int| 0 <= i < players@.len() ==> (#[trigger] players@[i]).wf(),
{
    let mut i: usize = 0;
    while i < players.len()
        invariant
            i <= players@.len(),
            forall|k: int| 0 <= k < i ==> (#[trigger] players@[k]).wf(),
        decreases players@.len() - i,
    {
        let p = &players[i];
        let tier_ok = match p.start_immortal {
            Some(s) => s <= p.immortal,
            None => true,
        };
        if !tier_ok {
            return false;
        }
        if !(p.immortal <= usize::MAX / 100 && p.level <= usize::MAX - p.immortal * 100) {
            return false;
        }
        i = i + 1;
    }
    true
}

/// Sort the roster for display: descending by total level, ties broken by
/// descending experience. The result is a permutation of the input in
/// leaderboard order.
pub fn sort_players(players: &mut Vec<Player>)
    requires
        forall|i: int| 0 <= i < old(players)@.len() ==> (#[trigger] old(players)@[i]).wf(),
    ensures
        final(players)@.len() == old(players)@.len(),
        final(players)@.to_multiset() == old(players)@.to_multiset(),
        forall|i: int|
            0 <= i < final(players)@.len() ==> (#[trigger] final(players)@[i]).wf(),
        forall|i: int, j: int|
            0 <= i < j < final(players)@.len() ==> ranks_geq(
                final(players)@[i],
                final(players)@[j],
            ),
{
    let mut i: usize = 1;
    while i < players.len()
        invariant
            1 <= i,
            i <= players@.len() || players@.len() <= 1,
            players@.len() == old(players)@.len(),
            players@.to_multiset() == old(players)@.to_multiset(),
            forall|k: int| 0 <= k < players@.len() ==> (#[trigger] players@[k]).wf(),
            forall|a: int, b: int| 0 <= a < b < i ==> ranks_geq(players@[a], players@[b]),
        decreases players@.len() - i,
    {
        // Find where the element at `i` belongs in the sorted prefix:
        // after every element that ranks at or above it, so equal keys
        // keep their original order.
        let mut p: usize = 0;
        while p < i && ranks_before(&players[p], &players[i])
            invariant
                p <= i,
                i < players@.len(),
                forall|k: int| 0 <= k < players@.len() ==> (#[trigger] players@[k]).wf(),
                forall|k: int|
                    0 <= k < p ==> ranks_geq(#[trigger] players@[k], players@[i as int]),
            decreases i - p,
        {
            p = p + 1;
        }
        let ghost pre = players@;
        let item = players.remove(i);
        players.insert(p, item);
        proof {
            broadcast use group_to_multiset_ensures;

            pre.remove_ensures(i as int);
            pre.remove(i as int).insert_ensures(p as int, pre[i as int]);
            assert(players@ == pre.remove(i as int).insert(p as int, pre[i as int]));
            assert(pre.contains(pre[i as int]));
            assert(pre.remove(i as int).to_multiset() =~= pre.to_multiset().remove(pre[i as int]));
            assert(players@.to_multiset() =~= pre.remove(i as int).to_multiset().insert(
                pre[i as int],
            ));
            assert(pre.to_multiset().remove(pre[i as int]).insert(pre[i as int])
                =~= pre.to_multiset());
            assert forall|k: int| 0 <= k < p implies players@[k] == pre[k] by {
                assert(pre.remove(i as int)[k] == pre[k]);
            }
            assert(players@[p as int] == pre[i as int]);
            assert forall|b: int| p < b <= i implies players@[b] == pre[b - 1] by {
                assert(pre.remove(i as int)[b - 1] == pre[b - 1]);
            }
            if p < i {
                assert(!ranks_geq(pre[p as int], pre[i as int]));
            }
            // The new prefix 0 ..= i is sorted: the untouched part stayed
            // sorted, the inserted element ranks at-or-below everything
            // before its slot and at-or-above everything after it.
            assert forall|a: int, b: int| 0 <= a < b < i + 1 implies ranks_geq(
                players@[a],
                players@[b],
            ) by {
                if b < p {
                } else if b == p {
                    assert(ranks_geq(pre[a], pre[i as int]));
                } else if a < p {
                    assert(players@[b] == pre[b - 1]);
                } else if a == p {
                    assert(players@[b] == pre[b - 1]);
                    assert(ranks_geq(pre[i as int], pre[p as int]));
                    if p < b - 1 {
                        assert(ranks_geq(pre[p as int], pre[b - 1]));
                    }
                } else {
                    assert(players@[a] == pre[a - 1]);
                    assert(players@[b] == pre[b - 1]);
                }
            }
        }
        i = i + 1;
    }
}

/// The highest total level on the roster, or nothing when the roster is
/// empty (the degenerate configuration the caller must treat as fatal).
pub fn max_total_level(players: &Vec<Player>) -> (r: Option<usize>)
    requires
        forall|i: int| 0 <= i < players@.len() ==> (#[trigger] players@[i]).wf(),
    ensures
        (r is None) <==> players@.len() == 0,
        r matches Some(m) ==> {
            &&& exists|i: int|
                0 <= i < players@.len() && m == (#[trigger] players@[i]).total_level_spec()
            &&& forall|i: int|
                0 <= i < players@.len() ==> (#[trigger] players@[i]).total_level_spec() <= m
        },
{
    if players.len() == 0 {
        return None;
    }
    let mut best: usize = players[0].total_level();
    let mut i: usize = 1;
    while i < players.len()
        invariant
            1 <= i,
            i <= players@.len(),
            forall|k: int| 0 <= k < players@.len() ==> (#[trigger] players@[k]).wf(),
            exists|k: int| 0 <= k < i && best == (#[trigger] players@[k]).total_level_spec(),
            forall|k: int| 0 <= k < i ==> (#[trigger] players@[k]).total_level_spec() <= best,
        decreases players@.len() - i,
    {
        let t = players[i].total_level();
        if t > best {
            best = t;
        }
        i = i + 1;
    }
    Some(best)
}

} // verus!
