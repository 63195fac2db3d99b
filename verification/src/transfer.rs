use vstd::prelude::*;

use crate::amount::Amount;
use crate::network::AssetId;

verus! {

/// The funds attached to an instruction or a spawned sub-program: for
/// each asset, the amount to move.
///
/// A transfer is a mapping with at most one amount per asset. When it is
/// built from a pair list in which an asset repeats, the last pair for
/// that asset wins.
#[derive(Debug, PartialEq, Eq)]
pub struct Transfer {
    pairs: Vec<(AssetId, Amount)>,
}

/// The mapping a pair list denotes: pairs are added left to right, so for
/// a repeated asset the last pair overwrites the earlier ones.
pub open spec fn map_of_pairs(s: Seq<(AssetId, Amount)>) -> Map<AssetId, Amount>
    decreases s.len(),
{
    if s.len() == 0 {
        Map::empty()
    } else {
        map_of_pairs(s.drop_last()).insert(s.last().0, s.last().1)
    }
}

/// No two pairs of the list name the same asset.
pub open spec fn unique_assets(s: Seq<(AssetId, Amount)>) -> bool {
    forall|i: int, j: int| 0 <= i < j < s.len() ==> (#[trigger] s[i]).0 != (#[trigger] s[j]).0
}

impl View for Transfer {
    type V = Map<AssetId, Amount>;

    closed spec fn view(&self) -> Map<AssetId, Amount> {
        map_of_pairs(self.pairs@)
    }
}

/// An asset is in the mapping of a pair list exactly when some pair
/// names it.
pub proof fn lemma_map_of_pairs_domain(s: Seq<(AssetId, Amount)>, asset: AssetId)
    ensures
        map_of_pairs(s).contains_key(asset) <==> exists|i: int|
            0 <= i < s.len() && (#[trigger] s[i]).0 == asset,
    decreases s.len(),
{
    if s.len() > 0 {
        lemma_map_of_pairs_domain(s.drop_last(), asset);
        if s.last().0 == asset {
            assert(s[s.len() - 1].0 == asset);
        } else {
            if map_of_pairs(s).contains_key(asset) {
                let i = choose|i: int| 0 <= i < s.drop_last().len() && (#[trigger] s.drop_last()[i]).0 == asset;
                assert(s[i].0 == asset);
            }
            if exists|i: int| 0 <= i < s.len() && (#[trigger] s[i]).0 == asset {
                let i = choose|i: int| 0 <= i < s.len() && (#[trigger] s[i]).0 == asset;
                assert(s.drop_last()[i].0 == asset);
            }
        }
    }
}

/// The amount mapped to an asset is the amount of the last pair that
/// names it: the law behind the documented overwrite policy.
pub proof fn lemma_map_of_pairs_last_wins(s: Seq<(AssetId, Amount)>, j: int)
    requires
        0 <= j < s.len(),
        forall|k: int| j < k < s.len() ==> (#[trigger] s[k]).0 != s[j].0,
    ensures
        map_of_pairs(s).contains_key(s[j].0),
        map_of_pairs(s)[s[j].0] == s[j].1,
    decreases s.len(),
{
    if j == s.len() - 1 {
        assert(s.last() == s[j]);
    } else {
        assert(s.last().0 != s[j].0);
        assert(s.drop_last()[j] == s[j]);
        lemma_map_of_pairs_last_wins(s.drop_last(), j);
    }
}

/// Updating the one pair that names an asset updates the mapping at that
/// asset alone.
proof fn lemma_map_of_pairs_update(s: Seq<(AssetId, Amount)>, i: int, asset: AssetId, amount: Amount)
    requires
        0 <= i < s.len(),
        s[i].0 == asset,
        forall|k: int| i < k < s.len() ==> (#[trigger] s[k]).0 != asset,
    ensures
        map_of_pairs(s.update(i, (asset, amount))) == map_of_pairs(s).insert(asset, amount),
    decreases s.len(),
{
    let t = s.update(i, (asset, amount));
    if i == s.len() - 1 {
        assert(t.drop_last() =~= s.drop_last());
        assert(t.last() == (asset, amount));
        assert(map_of_pairs(t) == map_of_pairs(s.drop_last()).insert(asset, amount));
        assert(map_of_pairs(s.drop_last()).insert(asset, s.last().1).insert(asset, amount)
            =~= map_of_pairs(s.drop_last()).insert(asset, amount));
    } else {
        assert(s.last().0 != asset);
        assert(t.drop_last() =~= s.drop_last().update(i, (asset, amount)));
        assert(t.last() == s.last());
        assert(s.drop_last()[i] == s[i]);
        lemma_map_of_pairs_update(s.drop_last(), i, asset, amount);
        assert(map_of_pairs(t) == map_of_pairs(s.drop_last()).insert(asset, amount).insert(s.last().0, s.last().1));
        assert(map_of_pairs(s.drop_last()).insert(asset, amount).insert(s.last().0, s.last().1)
            =~= map_of_pairs(s.drop_last()).insert(s.last().0, s.last().1).insert(asset, amount));
    }
}

impl Transfer {
    #[verifier::type_invariant]
    spec fn wf(self) -> bool {
        unique_assets(self.pairs@)
    }

    /// The transfer that moves no funds at all.
    pub fn empty() -> (t: Transfer)
        ensures
            t@ == Map::<AssetId, Amount>::empty(),
    {
        Transfer { pairs: Vec::new() }
    }

    /// Sets the amount to move for one asset, replacing any amount set
    /// for it before.
    pub fn insert(&mut self, asset: AssetId, amount: Amount)
        ensures
            final(self)@ == old(self)@.insert(asset, amount),
    {
        proof {
            use_type_invariant(&*self);
        }
        let mut pairs: Vec<(AssetId, Amount)> = Vec::new();
        std::mem::swap(&mut pairs, &mut self.pairs);
        let ghost pre: Seq<(AssetId, Amount)> = pairs@;
        let n: usize = pairs.len();
        let mut i: usize = 0;
        while i < n
            invariant
                n == pairs.len(),
                pairs@ == pre,
                pre == old(self).pairs@,
                unique_assets(pre),
                0 <= i <= n,
                forall|k: int| 0 <= k < i ==> (#[trigger] pre[k]).0 != asset,
            decreases n - i,
        {
            if pairs[i].0 == asset {
                pairs.set(i, (asset, amount));
                proof {
                    lemma_map_of_pairs_update(pre, i as int, asset, amount);
                    assert(unique_assets(pre.update(i as int, (asset, amount))));
                }
                self.pairs = pairs;
                return;
            }
            i += 1;
        }
        pairs.push((asset, amount));
        proof {
            assert(pre.push((asset, amount)).drop_last() =~= pre);
            assert(unique_assets(pre.push((asset, amount))));
        }
        self.pairs = pairs;
    }

    /// Builds the mapping from a pair list; for a repeated asset, the
    /// last pair wins.
    pub fn from(pairs: Vec<(AssetId, Amount)>) -> (t: Transfer)
        ensures
            t@ == map_of_pairs(pairs@),
    {
        let mut t = Transfer::empty();
        let n: usize = pairs.len();
        let mut i: usize = 0;
        while i < n
            invariant
                n == pairs.len(),
                0 <= i <= n,
                t@ == map_of_pairs(pairs@.take(i as int)),
            decreases n - i,
        {
            let (asset, amount) = pairs[i];
            t.insert(asset, amount);
            proof {
                assert(pairs@.take(i as int + 1).drop_last() =~= pairs@.take(i as int));
                assert(pairs@.take(i as int + 1).last() == (asset, amount));
            }
            i += 1;
        }
        proof {
            assert(pairs@.take(n as int) =~= pairs@);
        }
        t
    }

    /// The amount set for an asset, if any.
    pub fn get(&self, asset: AssetId) -> (r: Option<Amount>)
        ensures
            r == (if self@.contains_key(asset) {
                Some(self@[asset])
            } else {
                None::<Amount>
            }),
    {
        proof {
            use_type_invariant(&*self);
        }
        let n: usize = self.pairs.len();
        let mut i: usize = 0;
        while i < n
            invariant
                n == self.pairs.len(),
                unique_assets(self.pairs@),
                0 <= i <= n,
                forall|k: int| 0 <= k < i ==> (#[trigger] self.pairs@[k]).0 != asset,
            decreases n - i,
        {
            let (a, amount) = self.pairs[i];
            if a == asset {
                proof {
                    lemma_map_of_pairs_last_wins(self.pairs@, i as int);
                }
                return Some(amount);
            }
            i += 1;
        }
        proof {
            lemma_map_of_pairs_domain(self.pairs@, asset);
        }
        None
    }

    /// How many assets the transfer names.
    pub fn len(&self) -> (n: usize)
        ensures
            n == self@.dom().len(),
    {
        proof {
            use_type_invariant(&*self);
            lemma_map_of_pairs_len(self.pairs@);
        }
        self.pairs.len()
    }
}

/// For a list without repeated assets, the mapping has exactly one entry
/// per pair.
proof fn lemma_map_of_pairs_len(s: Seq<(AssetId, Amount)>)
    requires
        unique_assets(s),
    ensures
        map_of_pairs(s).dom().finite(),
        map_of_pairs(s).dom().len() == s.len(),
    decreases s.len(),
{
    if s.len() > 0 {
        lemma_map_of_pairs_len(s.drop_last());
        lemma_map_of_pairs_domain(s.drop_last(), s.last().0);
        assert(forall|i: int| 0 <= i < s.drop_last().len() ==> (#[trigger] s.drop_last()[i]) == s[i]);
        assert(!map_of_pairs(s.drop_last()).contains_key(s.last().0));
    }
}

} // verus!
