//! The hive map: a weighted random walk over chamber types, with adjacency
//! restrictions, a rule against three equal rooms in a row, a few
//! guaranteed rooms, and a final corridor of chambers linked neighbour to
//! neighbour.

use vstd::prelude::*;
use crate::rng::rand_below;

verus! {

#[derive(Debug, Copy, Clone, PartialEq, Eq, Structural)]
pub enum ChamberType {
    Entrance,
    Tunnel,
    Clearing,
    BroodChamber,
    FoodStorage,
    Flooded,
    Collapsed,
    EggChamber,
}

/// One entry of the picker pool: a chamber type and its walk weight.
#[derive(Debug, Copy, Clone, PartialEq, Eq, Structural)]
pub struct ChamberWeight {
    pub kind: ChamberType,
    pub weight: u32,
}

/// Which chamber types may follow `prev` in the walk.
pub open spec fn spec_neighbor_ok(prev: ChamberType, next: ChamberType) -> bool {
    match prev {
        ChamberType::Entrance => next == ChamberType::Tunnel || next == ChamberType::Flooded
            || next == ChamberType::Collapsed || next == ChamberType::Clearing,
        ChamberType::Tunnel => next == ChamberType::Tunnel || next == ChamberType::BroodChamber
            || next == ChamberType::Clearing,
        ChamberType::BroodChamber => next == ChamberType::Tunnel || next == ChamberType::Flooded,
        ChamberType::Flooded => next == ChamberType::Tunnel || next == ChamberType::BroodChamber,
        ChamberType::Clearing => next == ChamberType::Tunnel || next == ChamberType::FoodStorage,
        ChamberType::FoodStorage => next == ChamberType::Tunnel || next
            == ChamberType::Collapsed,
        ChamberType::Collapsed => next == ChamberType::Tunnel,
        ChamberType::EggChamber => false,
    }
}

fn neighbor_ok(prev: ChamberType, next: ChamberType) -> (b: bool)
    ensures
        b == spec_neighbor_ok(prev, next),
{
    match prev {
        ChamberType::Entrance => matches!(next, ChamberType::Tunnel | ChamberType::Flooded
            | ChamberType::Collapsed | ChamberType::Clearing),
        ChamberType::Tunnel => matches!(next, ChamberType::Tunnel | ChamberType::BroodChamber
            | ChamberType::Clearing),
        ChamberType::BroodChamber => matches!(next, ChamberType::Tunnel | ChamberType::Flooded),
        ChamberType::Flooded => matches!(next, ChamberType::Tunnel | ChamberType::BroodChamber),
        ChamberType::Clearing => matches!(next, ChamberType::Tunnel | ChamberType::FoodStorage),
        ChamberType::FoodStorage => matches!(next, ChamberType::Tunnel | ChamberType::Collapsed),
        ChamberType::Collapsed => matches!(next, ChamberType::Tunnel),
        ChamberType::EggChamber => false,
    }
}

/// A room that must appear in the middle of the hive and may not open or
/// close it.
pub open spec fn spec_is_required(ct: ChamberType) -> bool {
    ct == ChamberType::Clearing || ct == ChamberType::Flooded || ct == ChamberType::FoodStorage
}

fn is_required(ct: ChamberType) -> (b: bool)
    ensures
        b == spec_is_required(ct),
{
    matches!(ct, ChamberType::Clearing | ChamberType::Flooded | ChamberType::FoodStorage)
}

/// Membership in a chamber list survives an insertion.
proof fn lemma_insert_keeps(s: Seq<ChamberType>, pos: int, v: ChamberType, x: ChamberType)
    requires
        0 <= pos <= s.len(),
        s.contains(x),
    ensures
        s.insert(pos, v).contains(x),
{
    s.insert_ensures(pos, v);
    let w = choose|w: int| 0 <= w < s.len() && s[w] == x;
    if w < pos {
        assert(s.insert(pos, v)[w] == x);
    } else {
        assert(s.insert(pos, v)[w + 1] == x);
    }
}

/// The neighbour list chamber `j` carries in a corridor of `n` chambers:
/// its predecessor and successor, as far as they exist.
pub open spec fn spec_corridor_links(j: int, n: int) -> Seq<usize> {
    if n <= 1 {
        Seq::<usize>::empty()
    } else if j == 0 {
        seq![1usize]
    } else if j == n - 1 {
        seq![(j - 1) as usize]
    } else {
        seq![(j - 1) as usize, (j + 1) as usize]
    }
}

/// A chamber in the built corridor: its position, its type, and the
/// positions it connects to.
#[derive(Debug, Clone)]
pub struct Chamber {
    pub id: usize,
    pub kind: ChamberType,
    pub neighbors: Vec<usize>,
}

pub struct Cartographer;

impl Cartographer {
    pub fn new() -> Cartographer {
        Cartographer
    }

    /// The full picker pool; the entrance carries no walk weight and the
    /// egg chamber is placed by hand, never walked to.
    fn chamber_weights() -> (pool: Vec<ChamberWeight>)
        ensures
            pool@.len() == 7,
            forall|i: int| 0 <= i < pool@.len() ==> (#[trigger] pool@[i]).weight <= 5,
    {
        let mut pool: Vec<ChamberWeight> = Vec::new();
        pool.push(ChamberWeight { kind: ChamberType::Entrance, weight: 0 });
        pool.push(ChamberWeight { kind: ChamberType::Tunnel, weight: 5 });
        pool.push(ChamberWeight { kind: ChamberType::BroodChamber, weight: 1 });
        pool.push(ChamberWeight { kind: ChamberType::Flooded, weight: 2 });
        pool.push(ChamberWeight { kind: ChamberType::Clearing, weight: 1 });
        pool.push(ChamberWeight { kind: ChamberType::FoodStorage, weight: 2 });
        pool.push(ChamberWeight { kind: ChamberType::Collapsed, weight: 1 });
        pool
    }

    /// Drops a chamber type from the picker pool; everything else stays,
    /// in order.
    pub fn restrict_chambers(pool: &mut Vec<ChamberWeight>, ctype: ChamberType)
        ensures
            final(pool)@.len() <= old(pool)@.len(),
            forall|i: int|
                0 <= i < final(pool)@.len() ==> (#[trigger] final(pool)@[i]).kind != ctype,
            forall|i: int|
                0 <= i < final(pool)@.len() ==> old(pool)@.contains(#[trigger] final(pool)@[i]),
            forall|i: int|
                0 <= i < old(pool)@.len() && (#[trigger] old(pool)@[i]).kind != ctype
                    ==> final(pool)@.contains(old(pool)@[i]),
    {
        let ghost pool0 = old(pool)@;
        let n = pool.len();
        let mut kept: Vec<ChamberWeight> = Vec::new();
        let mut i: usize = 0;
        while i < n
            invariant
                i <= n,
                pool@ == pool0,
                n == pool0.len(),
                kept@.len() <= i,
                forall|j: int| 0 <= j < kept@.len() ==> (#[trigger] kept@[j]).kind != ctype,
                forall|j: int| 0 <= j < kept@.len() ==> pool0.contains(#[trigger] kept@[j]),
                forall|j: int|
                    0 <= j < i && (#[trigger] pool0[j]).kind != ctype ==> kept@.contains(
                        pool0[j],
                    ),
            decreases n - i,
        {
            let cw = pool[i];
            let ghost kept_before = kept@;
            if !(cw.kind == ctype) {
                kept.push(cw);
            }
            proof {
                assert forall|j: int|
                    0 <= j < i + 1 && (#[trigger] pool0[j]).kind != ctype implies kept@.contains(
                    pool0[j]) by {
                    if j < i {
                        let w = choose|w: int|
                            0 <= w < kept_before.len() && kept_before[w] == pool0[j];
                        assert(kept@[w] == pool0[j]);
                    } else {
                        assert(kept@[kept@.len() - 1] == pool0[j]);
                    }
                }
            }
            i = i + 1;
        }
        *pool = kept;
    }

    /// The index of a chamber type in the pool, if it is still there.
    pub fn get_chamber_weight(ctype: ChamberType, pool: &Vec<ChamberWeight>) -> (r: Option<
        usize,
    >)
        ensures
            r matches Some(i) ==> i < pool@.len() && pool@[i as int].kind == ctype,
            r is None ==> forall|j: int|
                0 <= j < pool@.len() ==> (#[trigger] pool@[j]).kind != ctype,
    {
        let n = pool.len();
        let mut i: usize = 0;
        while i < n
            invariant
                i <= n,
                n == pool@.len(),
                forall|j: int| 0 <= j < i ==> (#[trigger] pool@[j]).kind != ctype,
            decreases n - i,
        {
            if pool[i].kind == ctype {
                return Some(i);
            }
            i = i + 1;
        }
        None
    }

    /// The pool entries that may follow `prev_type`; the whole pool when
    /// `prev_type` is no longer in it.
    pub fn allowed_next_chambers(prev_type: ChamberType, pool: &Vec<ChamberWeight>) -> (allowed:
        Vec<ChamberWeight>)
        ensures
            allowed@.len() <= pool@.len(),
            forall|i: int|
                0 <= i < allowed@.len() ==> pool@.contains(#[trigger] allowed@[i]),
            (forall|j: int| 0 <= j < pool@.len() ==> (#[trigger] pool@[j]).weight <= 5)
                ==> (forall|i: int|
                0 <= i < allowed@.len() ==> (#[trigger] allowed@[i]).weight <= 5),
    {
        let found = Self::get_chamber_weight(prev_type, pool);
        match found {
            Some(_) => {
                let n = pool.len();
                let mut allowed: Vec<ChamberWeight> = Vec::new();
                let mut i: usize = 0;
                while i < n
                    invariant
                        i <= n,
                        n == pool@.len(),
                        allowed@.len() <= i,
                        forall|j: int|
                            0 <= j < allowed@.len() ==> pool@.contains(#[trigger] allowed@[j]),
                    decreases n - i,
                {
                    let cw = pool[i];
                    if neighbor_ok(prev_type, cw.kind) {
                        allowed.push(cw);
                        proof {
                            assert(pool@.contains(pool@[i as int]));
                        }
                    }
                    i = i + 1;
                }
                proof {
                    if forall|j: int| 0 <= j < pool@.len() ==> (#[trigger] pool@[j]).weight <= 5 {
                        assert forall|w: int|
                            0 <= w < allowed@.len() implies (#[trigger] allowed@[w]).weight
                            <= 5 by {
                            let x = choose|x: int|
                                0 <= x < pool@.len() && pool@[x] == allowed@[w];
                        }
                    }
                }
                allowed
            },
            None => {
                let n = pool.len();
                let mut allowed: Vec<ChamberWeight> = Vec::new();
                let mut i: usize = 0;
                while i < n
                    invariant
                        i <= n,
                        n == pool@.len(),
                        allowed@.len() <= i,
                        forall|j: int|
                            0 <= j < allowed@.len() ==> pool@.contains(#[trigger] allowed@[j]),
                    decreases n - i,
                {
                    allowed.push(pool[i]);
                    proof {
                        assert(pool@.contains(pool@[i as int]));
                    }
                    i = i + 1;
                }
                proof {
                    if forall|j: int| 0 <= j < pool@.len() ==> (#[trigger] pool@[j]).weight <= 5 {
                        assert forall|w: int|
                            0 <= w < allowed@.len() implies (#[trigger] allowed@[w]).weight
                            <= 5 by {
                            let x = choose|x: int|
                                0 <= x < pool@.len() && pool@[x] == allowed@[w];
                        }
                    }
                }
                allowed
            },
        }
    }

    /// One chamber type from the pool, drawn with probability proportional
    /// to its weight; an empty or weightless pool falls back to a tunnel.
    fn weighted_random_type(rng: &mut rand::rngs::SmallRng, pool: &Vec<ChamberWeight>) -> (r:
        ChamberType)
        requires
            pool@.len() <= 16,
            forall|i: int| 0 <= i < pool@.len() ==> (#[trigger] pool@[i]).weight <= 5,
        ensures
            pool@.len() > 0 ==> (exists|i: int|
                0 <= i < pool@.len() && (#[trigger] pool@[i]).kind == r),
            pool@.len() == 0 ==> r == ChamberType::Tunnel,
    {
        let n = pool.len();
        let mut total: u64 = 0;
        let mut i: usize = 0;
        while i < n
            invariant
                i <= n,
                n == pool@.len(),
                n <= 16,
                forall|j: int| 0 <= j < n ==> (#[trigger] pool@[j]).weight <= 5,
                total <= 5 * i,
            decreases n - i,
        {
            total = total + pool[i].weight as u64;
            i = i + 1;
        }
        if total == 0 {
            if n > 0 {
                return pool[0].kind;
            }
            return ChamberType::Tunnel;
        }
        let mut roll: u64 = rand_below(rng, total as usize) as u64;
        let mut j: usize = 0;
        while j < n
            invariant
                j <= n,
                n == pool@.len(),
                n > 0,
            decreases n - j,
        {
            if roll < pool[j].weight as u64 {
                return pool[j].kind;
            }
            roll = roll - pool[j].weight as u64;
            j = j + 1;
        }
        pool[0].kind
    }

    /// A chamber type may stand at `pos` unless it would make three equal
    /// rooms in a row, or it is a required room aimed at the first or last
    /// slot.
    pub open spec fn spec_check_validity(s: Seq<ChamberType>, ct: ChamberType, pos: int) -> bool {
        if pos >= 2 && s[pos - 1] == ct && s[pos - 2] == ct {
            false
        } else if (pos == 0 || pos == s.len() - 1) && spec_is_required(ct) {
            false
        } else {
            true
        }
    }

    pub fn check_validity(chambers: &Vec<ChamberType>, ct: ChamberType, pos: usize) -> (b: bool)
        requires
            pos <= chambers@.len(),
            chambers@.len() >= 1,
        ensures
            b == Self::spec_check_validity(chambers@, ct, pos as int),
    {
        if pos >= 2 && chambers[pos - 1] == ct && chambers[pos - 2] == ct {
            return false;
        }
        if (pos == 0 || pos == chambers.len() - 1) && is_required(ct) {
            return false;
        }
        true
    }

    /// Inserts `must_have` at random valid middle positions until `num` of
    /// them stand in the list; once the random tries run out, the slot
    /// just inside the entrance (always a valid interior position) takes
    /// the rest, so the guarantee always holds.  The ends of the corridor
    /// are never touched, and nothing already present is lost.
    fn guarantee_chambers(
        chambers: &mut Vec<ChamberType>,
        must_have: ChamberType,
        num: usize,
        rng: &mut rand::rngs::SmallRng,
    )
        requires
            old(chambers)@.len() >= 3,
        ensures
            old(chambers)@.len() <= final(chambers)@.len() <= old(chambers)@.len() + num,
            final(chambers)@[0] == old(chambers)@[0],
            final(chambers)@.last() == old(chambers)@.last(),
            num >= 1 ==> final(chambers)@.contains(must_have),
            forall|x: ChamberType|
                old(chambers)@.contains(x) ==> final(chambers)@.contains(x),
    {
        let mut count: usize = 0;
        let mut i: usize = 0;
        let n = chambers.len();
        while i < n
            invariant
                i <= n,
                n == chambers@.len(),
                count <= i,
                count > 0 ==> (exists|p: int| 0 <= p < i && chambers@[p] == must_have),
            decreases n - i,
        {
            if chambers[i] == must_have {
                count = count + 1;
                proof {
                    assert(chambers@[i as int] == must_have);
                }
            }
            i = i + 1;
        }
        let mut tries: usize = 0;
        let ghost start = chambers@;
        let ghost c0 = count as int;
        proof {
            if count > 0 {
                let p = choose|p: int| 0 <= p < n && chambers@[p] == must_have;
                assert(chambers@.contains(chambers@[p]));
            }
        }
        while count < num && tries < 1000
            invariant
                c0 <= count,
                count == c0 || count <= num,
                chambers@.len() == start.len() + (count - c0),
                start.len() >= 3,
                chambers@[0] == start[0],
                chambers@.last() == start.last(),
                count > 0 ==> chambers@.contains(must_have),
                forall|x: ChamberType| start.contains(x) ==> chambers@.contains(x),
            decreases 1000 - tries,
        {
            let pos = 1 + rand_below(rng, chambers.len() - 2);
            if Self::check_validity(chambers, must_have, pos) {
                let ghost before = chambers@;
                chambers.insert(pos, must_have);
                proof {
                    before.insert_ensures(pos as int, must_have);
                    assert(chambers@[0] == before[0]);
                    assert(chambers@.last() == before.last());
                    assert(chambers@[pos as int] == must_have);
                    assert(chambers@.contains(chambers@[pos as int]));
                    assert forall|x: ChamberType| start.contains(x) implies chambers@.contains(
                        x) by {
                        lemma_insert_keeps(before, pos as int, must_have, x);
                    }
                }
                count = count + 1;
            }
            tries = tries + 1;
        }
        while count < num
            invariant
                c0 <= count,
                count <= num || count == c0,
                chambers@.len() == start.len() + (count - c0),
                start.len() >= 3,
                chambers@[0] == start[0],
                chambers@.last() == start.last(),
                count > 0 ==> chambers@.contains(must_have),
                forall|x: ChamberType| start.contains(x) ==> chambers@.contains(x),
            decreases num - count,
        {
            let ghost before = chambers@;
            chambers.insert(1, must_have);
            proof {
                before.insert_ensures(1, must_have);
                assert(chambers@[0] == before[0]);
                assert(chambers@.last() == before.last());
                assert(chambers@[1] == must_have);
                assert(chambers@.contains(chambers@[1]));
                assert forall|x: ChamberType| start.contains(x) implies chambers@.contains(
                    x) by {
                    lemma_insert_keeps(before, 1, must_have, x);
                }
            }
            count = count + 1;
        }
    }

    /// The walked list of chamber types: an entrance, `num_chambers`
    /// walked rooms, the egg chamber, and up to one each of the three
    /// guaranteed rooms spliced into the middle — so `num_chambers` must
    /// leave a vector room for those five extras.  Each guaranteed room is
    /// spliced at a random valid position, falling back to the slot just
    /// inside the entrance, so all three always appear.
    pub fn gen_ctype_list(num_chambers: usize, rng: &mut rand::rngs::SmallRng) -> (chambers: Vec<
        ChamberType,
    >)
        requires
            num_chambers <= usize::MAX - 5,
        ensures
            chambers@.len() >= 3,
            num_chambers >= 1 ==> num_chambers + 2 <= chambers@.len() <= num_chambers + 5,
            chambers@[0] == ChamberType::Entrance,
            chambers@.last() == ChamberType::EggChamber,
            chambers@.contains(ChamberType::Clearing),
            chambers@.contains(ChamberType::Flooded),
            chambers@.contains(ChamberType::FoodStorage),
    {
        let mut chambers: Vec<ChamberType> = Vec::new();
        let mut picker_pool = Self::chamber_weights();

        chambers.push(ChamberType::Entrance);
        let entrance_neighbors = Self::allowed_next_chambers(ChamberType::Entrance, &picker_pool);
        let mut ctype = Self::weighted_random_type(rng, &entrance_neighbors);
        chambers.push(ctype);

        let mut k: usize = 1;
        while k < num_chambers
            invariant
                chambers@.len() == k + 1,
                1 <= k,
                k <= num_chambers || k == 1,
                picker_pool@.len() == 7,
                forall|j: int|
                    0 <= j < picker_pool@.len() ==> (#[trigger] picker_pool@[j]).weight <= 5,
                chambers@[0] == ChamberType::Entrance,
            decreases num_chambers - k,
        {
            let prev_type = chambers[chambers.len() - 1];
            let allowed = Self::allowed_next_chambers(prev_type, &picker_pool);
            let mut tries: usize = 0;
            ctype = Self::weighted_random_type(rng, &allowed);
            while !Self::check_validity(&chambers, ctype, chambers.len()) && tries <= 20
                invariant
                    chambers@.len() == k + 1,
                    allowed@.len() <= 7,
                    forall|j: int| 0 <= j < allowed@.len() ==> (#[trigger] allowed@[j]).weight <= 5,
                    tries <= 21,
                decreases 21 - tries,
            {
                ctype = Self::weighted_random_type(rng, &allowed);
                tries = tries + 1;
            }
            chambers.push(ctype);
            k = k + 1;
        }
        chambers.push(ChamberType::EggChamber);

        Self::guarantee_chambers(&mut chambers, ChamberType::Clearing, 1, rng);
        Self::guarantee_chambers(&mut chambers, ChamberType::Flooded, 1, rng);
        Self::guarantee_chambers(&mut chambers, ChamberType::FoodStorage, 1, rng);
        Self::restrict_chambers(&mut picker_pool, ChamberType::FoodStorage);

        chambers
    }

    /// Links the typed list into a corridor: chamber `i` connects to its
    /// predecessor and successor.
    pub fn build_chambers(ctypes: &Vec<ChamberType>) -> (chambers: Vec<Chamber>)
        ensures
            chambers@.len() == ctypes@.len(),
            forall|i: int|
                0 <= i < chambers@.len() ==> (#[trigger] chambers@[i]).id == i && chambers@[
                    i
                ].kind == ctypes@[i],
            forall|i: int|
                0 <= i < chambers@.len() ==> (#[trigger] chambers@[i]).neighbors@
                    == spec_corridor_links(i, ctypes@.len() as int),
    {
        let n = ctypes.len();
        let mut chambers: Vec<Chamber> = Vec::new();
        let mut i: usize = 0;
        while i < n
            invariant
                i <= n,
                n == ctypes@.len(),
                chambers@.len() == i,
                forall|j: int|
                    0 <= j < i ==> (#[trigger] chambers@[j]).id == j && chambers@[j].kind
                        == ctypes@[j],
                forall|j: int|
                    0 <= j < i ==> (#[trigger] chambers@[j]).neighbors@ == spec_corridor_links(
                        j,
                        n as int,
                    ),
            decreases n - i,
        {
            let mut neighbors: Vec<usize> = Vec::new();
            if i > 0 {
                neighbors.push(i - 1);
            }
            if i + 1 < n {
                neighbors.push(i + 1);
            }
            proof {
                assert(neighbors@ =~= spec_corridor_links(i as int, n as int));
            }
            chambers.push(Chamber { id: i, kind: ctypes[i], neighbors });
            i = i + 1;
        }
        chambers
    }

    /// Generates and links a hive of `count` walked chambers plus the two
    /// fixed ends and the guaranteed rooms, opening at the entrance and
    /// ending at the egg chamber, with every chamber linked to its
    /// corridor neighbours.
    pub fn spawn_chambers(&self, count: usize, rng: &mut rand::rngs::SmallRng) -> (chambers: Vec<
        Chamber,
    >)
        requires
            count <= usize::MAX - 5,
        ensures
            chambers@.len() >= 3,
            count >= 1 ==> count + 2 <= chambers@.len() <= count + 5,
            chambers@[0].kind == ChamberType::Entrance,
            chambers@.last().kind == ChamberType::EggChamber,
            forall|i: int| 0 <= i < chambers@.len() ==> (#[trigger] chambers@[i]).id == i,
            forall|i: int|
                0 <= i < chambers@.len() ==> (#[trigger] chambers@[i]).neighbors@
                    == spec_corridor_links(i, chambers@.len() as int),
            exists|i: int|
                0 <= i < chambers@.len() && (#[trigger] chambers@[i]).kind
                    == ChamberType::Clearing,
            exists|i: int|
                0 <= i < chambers@.len() && (#[trigger] chambers@[i]).kind
                    == ChamberType::Flooded,
            exists|i: int|
                0 <= i < chambers@.len() && (#[trigger] chambers@[i]).kind
                    == ChamberType::FoodStorage,
    {
        let ctypes = Self::gen_ctype_list(count, rng);
        let chambers = Self::build_chambers(&ctypes);
        proof {
            assert(chambers@.last() == chambers@[chambers@.len() - 1]);
            let c = choose|c: int| 0 <= c < ctypes@.len() && ctypes@[c] == ChamberType::Clearing;
            assert(chambers@[c].kind == ChamberType::Clearing);
            let f = choose|f: int| 0 <= f < ctypes@.len() && ctypes@[f] == ChamberType::Flooded;
            assert(chambers@[f].kind == ChamberType::Flooded);
            let g = choose|g: int|
                0 <= g < ctypes@.len() && ctypes@[g] == ChamberType::FoodStorage;
            assert(chambers@[g].kind == ChamberType::FoodStorage);
        }
        chambers
    }
}

} // verus!
