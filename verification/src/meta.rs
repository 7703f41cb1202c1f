//! The coins that the exchange lists.

use vstd::hash_map::StringHashMap;
use vstd::prelude::*;

verus! {

/// A coin that the exchange lists.
#[derive(Debug)]
pub struct AssetMeta {
    pub name: String,
    pub sz_decimals: u32,
}

/// The coins, in the order in which the exchange numbers them.
#[derive(Debug)]
pub struct Meta {
    pub universe: Vec<AssetMeta>,
}

/// Whether a coin of the name `name` is listed.
pub open spec fn listed(universe: Seq<AssetMeta>, name: Seq<char>) -> bool {
    exists|i: int| 0 <= i < universe.len() && (#[trigger] universe[i]).name@ == name
}

/// The place of the last coin of the name `name`.
pub open spec fn last_place(universe: Seq<AssetMeta>, name: Seq<char>) -> int
    recommends
        listed(universe, name),
    decreases universe.len(),
{
    if universe.len() == 0 {
        0
    } else if universe.last().name@ == name {
        universe.len() - 1
    } else {
        last_place(universe.drop_last(), name)
    }
}

/// The index of each listed coin: its place, of the last such coin where a name is
/// listed more than once.
pub open spec fn asset_indices(universe: Seq<AssetMeta>) -> Map<Seq<char>, u32> {
    Map::new(|name: Seq<char>| listed(universe, name), |name: Seq<char>| last_place(universe, name) as u32)
}

impl Meta {
    /// The index of each coin under the coin's name.
    pub fn coin_to_asset(&self) -> (coin_to_asset: StringHashMap<u32>)
        ensures
            coin_to_asset@ == asset_indices(self.universe@),
    {
        let mut coin_to_asset: StringHashMap<u32> = StringHashMap::new();
        let mut asset_ind: usize = 0;
        assert(coin_to_asset@ =~= asset_indices(self.universe@.take(0)));
        while asset_ind < self.universe.len()
            invariant
                asset_ind <= self.universe.len(),
                coin_to_asset@ == asset_indices(self.universe@.take(asset_ind as int)),
            decreases self.universe.len() - asset_ind,
        {
            coin_to_asset.insert(self.universe[asset_ind].name.clone(), asset_ind as u32);
            proof {
                let before = self.universe@.take(asset_ind as int);
                let after = self.universe@.take(asset_ind + 1);
                let name = self.universe@[asset_ind as int].name@;
                assert(after.drop_last() == before);
                assert forall|other: Seq<char>| listed(after, other) <==> (listed(before, other)
                    || other == name) by {
                    if listed(before, other) {
                        let i = choose|i: int|
                            0 <= i < before.len() && (#[trigger] before[i]).name@ == other;
                        assert(after[i].name@ == other);
                    }
                    if other == name {
                        assert(after[asset_ind as int].name@ == other);
                    }
                    if listed(after, other) && other != name {
                        let i = choose|i: int|
                            0 <= i < after.len() && (#[trigger] after[i]).name@ == other;
                        assert(before[i].name@ == other);
                    }
                }
                assert(coin_to_asset@ =~= asset_indices(after));
            }
            asset_ind += 1;
        }
        assert(self.universe@.take(asset_ind as int) == self.universe@);
        coin_to_asset
    }
}

/// The last place of a listed name holds that name, and no later place does.
pub proof fn last_place_is_last(universe: Seq<AssetMeta>, name: Seq<char>)
    requires
        listed(universe, name),
    ensures
        0 <= last_place(universe, name) < universe.len(),
        universe[last_place(universe, name)].name@ == name,
        forall|j: int|
            last_place(universe, name) < j < universe.len() ==> (#[trigger] universe[j]).name@
                != name,
    decreases universe.len(),
{
    let i = choose|i: int| 0 <= i < universe.len() && (#[trigger] universe[i]).name@ == name;
    if universe.last().name@ != name {
        let rest = universe.drop_last();
        assert(rest[i].name@ == name);
        last_place_is_last(rest, name);
        assert(rest[last_place(rest, name)] == universe[last_place(rest, name)]);
        assert forall|j: int| last_place(universe, name) < j < universe.len() implies (
        #[trigger] universe[j]).name@ != name by {
            if j < rest.len() {
                assert(rest[j] == universe[j]);
            }
        }
    }
}

/// Where no name is listed twice, each coin is found under its name by its own place,
/// and so no two coins share an index. There are too few indices for more than
/// `u32::MAX + 1` coins.
pub proof fn law_each_coin_has_its_place(universe: Seq<AssetMeta>, i: int)
    requires
        universe.len() <= u32::MAX + 1,
        forall|j: int, k: int|
            0 <= j < k < universe.len() ==> (#[trigger] universe[j]).name@ != (
            #[trigger] universe[k]).name@,
        0 <= i < universe.len(),
    ensures
        asset_indices(universe).contains_key(universe[i].name@),
        asset_indices(universe)[universe[i].name@] == i,
{
    let name = universe[i].name@;
    assert(listed(universe, name));
    last_place_is_last(universe, name);
    let place = last_place(universe, name);
    assert(universe[place].name@ == name);
}

/// A coin whose name is not listed again after it is found under its name by its place,
/// however often the name is listed before.
pub proof fn law_last_coin_of_a_name_counts(universe: Seq<AssetMeta>, i: int)
    requires
        0 <= i < universe.len(),
        forall|j: int|
            i < j < universe.len() ==> (#[trigger] universe[j]).name@ != universe[i].name@,
    ensures
        asset_indices(universe).contains_key(universe[i].name@),
        asset_indices(universe)[universe[i].name@] == i as u32,
{
    let name = universe[i].name@;
    assert(listed(universe, name));
    last_place_is_last(universe, name);
    let place = last_place(universe, name);
    assert(universe[place].name@ == name);
    if place < i {
        assert(universe[i].name@ != name);
    }
}

/// No coin is found under a name that is not listed.
pub proof fn law_only_listed_coins_are_found(universe: Seq<AssetMeta>, name: Seq<char>)
    ensures
        asset_indices(universe).contains_key(name) <==> exists|i: int|
            0 <= i < universe.len() && (#[trigger] universe[i]).name@ == name,
{
}

/// A coin is found by the place of the last coin of its name, and under no other name.
pub proof fn law_coins_are_found_by_name(meta: Meta, found: StringHashMap<u32>, name: Seq<char>)
    requires
        call_ensures(Meta::coin_to_asset, (&meta,), found),
    ensures
        found@.contains_key(name) <==> exists|i: int|
            0 <= i < meta.universe@.len() && (#[trigger] meta.universe@[i]).name@ == name,
        forall|i: int|
            0 <= i < meta.universe@.len() && (#[trigger] meta.universe@[i]).name@ == name && (
            forall|j: int|
                i < j < meta.universe@.len() ==> (#[trigger] meta.universe@[j]).name@ != name)
                ==> found@[name] == i as u32,
{
    let coins = meta.universe@;
    law_only_listed_coins_are_found(coins, name);
    assert forall|i: int|
        0 <= i < coins.len() && (#[trigger] coins[i]).name@ == name && (forall|j: int|
            i < j < coins.len() ==> (#[trigger] coins[j]).name@ != name) implies found@[name]
        == i as u32 by {
        law_last_coin_of_a_name_counts(coins, i);
    }
}

} // verus!
