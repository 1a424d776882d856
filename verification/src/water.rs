//! The water below the play area: pools that rise with the drops they take in
//! and sink under the sponges.

use vstd::prelude::*;

verus! {

/// How much one raindrop adds to a pool, and one sponge takes from it.
pub const WATER_STEP: i16 = 10;

/// The width a pool is drawn with when it has no size yet.
pub const POOL_WIDTH: i64 = 800;

/// How full a pool is, and how full it can get.
#[derive(Clone, Copy, Debug, PartialEq, Eq)]
pub struct WaterLevel {
    pub current: i16,
    pub max: i16,
}

impl WaterLevel {
    /// The level lies between empty and full.
    pub open spec fn wf(self) -> bool {
        0 <= self.current <= self.max
    }

    /// The level after one raindrop: ten more, but never above the maximum.
    pub open spec fn raised(self) -> WaterLevel {
        WaterLevel {
            current: if self.current + 10 > self.max {
                self.max
            } else {
                (self.current + 10) as i16
            },
            max: self.max,
        }
    }

    /// The level after one sponge: ten less, but never below zero.
    pub open spec fn lowered(self) -> WaterLevel {
        WaterLevel {
            current: if self.current - 10 < 0 {
                0
            } else {
                (self.current - 10) as i16
            },
            max: self.max,
        }
    }

    /// Takes in one raindrop.
    pub fn add_water(&mut self)
        requires
            old(self).wf(),
        ensures
            *final(self) == old(self).raised(),
            final(self).wf(),
    {
        if self.max - self.current < WATER_STEP {
            self.current = self.max;
        } else {
            self.current = self.current + WATER_STEP;
        }
    }

    /// Gives up one sponge-full.
    pub fn remove_water(&mut self)
        requires
            old(self).wf(),
        ensures
            *final(self) == old(self).lowered(),
            final(self).wf(),
    {
        if self.current < WATER_STEP {
            self.current = 0;
        } else {
            self.current = self.current - WATER_STEP;
        }
    }

    /// Whether the level stands above the maximum.
    pub fn overflowing(&self) -> (b: bool)
        ensures
            b == (self.current > self.max),
    {
        self.current > self.max
    }
}

/// The size a pool is drawn with, in whole units.
#[derive(Clone, Copy, Debug, PartialEq, Eq)]
pub struct Size {
    pub width: i64,
    pub height: i64,
}

/// One pool of water: where it lies, how it is drawn and how full it is.
#[derive(Clone, Copy, Debug, PartialEq, Eq)]
pub struct WaterBundle {
    pub x: i64,
    pub custom_size: Option<Size>,
    pub water_level: WaterLevel,
}

impl Default for WaterBundle {
    fn default() -> (w: WaterBundle)
        ensures
            w == WaterBundle::empty_pool(),
            w.water_level.wf(),
            w.shows_level(),
    {
        WaterBundle {
            x: 0,
            custom_size: Some(Size { width: POOL_WIDTH, height: 0 }),
            water_level: WaterLevel { current: 0, max: 70 },
        }
    }
}

impl WaterBundle {
    /// The pool that a game starts with: in the middle, empty, holding up to 70.
    pub open spec fn empty_pool() -> WaterBundle {
        WaterBundle {
            x: 0,
            custom_size: Some(Size { width: 800, height: 0 }),
            water_level: WaterLevel { current: 0, max: 70 },
        }
    }

    /// The pool drawn twice as high as its level; a pool without a size gets
    /// the full width.
    pub open spec fn resized(self) -> WaterBundle {
        WaterBundle {
            custom_size: Some(
                Size {
                    width: match self.custom_size {
                        Some(s) => s.width,
                        None => 800,
                    },
                    height: (2 * self.water_level.current) as i64,
                },
            ),
            ..self
        }
    }

    /// The pool is drawn twice as high as its level.
    pub open spec fn shows_level(self) -> bool {
        self.custom_size matches Some(size) && size.height == 2 * self.water_level.current
    }

    /// The pool after a raindrop (`rain`) or a sponge has landed in it.
    pub open spec fn after_landing(self, rain: bool) -> WaterBundle {
        WaterBundle {
            water_level: if rain {
                self.water_level.raised()
            } else {
                self.water_level.lowered()
            },
            ..self
        }.resized()
    }

    /// How far the pool lies from the horizontal position `x`.
    pub open spec fn gap(self, x: i64) -> int {
        if self.x >= x {
            self.x - x
        } else {
            x - self.x
        }
    }

    /// How far the pool lies from the horizontal position `x`.
    pub fn distance_to(&self, x: i64) -> (d: i128)
        ensures
            d == self.gap(x),
    {
        if self.x >= x {
            self.x as i128 - x as i128
        } else {
            x as i128 - self.x as i128
        }
    }

    /// Sets the drawn height from the level.
    pub fn resize(&mut self)
        ensures
            *final(self) == old(self).resized(),
            final(self).shows_level(),
    {
        let height: i64 = 2 * (self.water_level.current as i64);
        match self.custom_size {
            None => {
                self.custom_size = Some(Size { width: POOL_WIDTH, height });
            },
            Some(mut size) => {
                size.height = height;
                self.custom_size = Some(size);
            },
        }
    }

    /// Lets a raindrop (`rain`) or a sponge land in the pool.
    pub fn land(&mut self, rain: bool)
        requires
            old(self).water_level.wf(),
        ensures
            *final(self) == old(self).after_landing(rain),
            final(self).water_level.wf(),
            final(self).shows_level(),
    {
        if rain {
            self.water_level.add_water();
        } else {
            self.water_level.remove_water();
        }
        self.resize();
    }
}

/// Every pool holds a level between empty and full.
pub open spec fn all_wf(water: Seq<WaterBundle>) -> bool {
    forall|i: int| 0 <= i < water.len() ==> (#[trigger] water[i]).water_level.wf()
}

/// The pool among the first `n` that a scan from the front settles on: a later
/// pool replaces an earlier one only where it is strictly nearer to `x`.
pub open spec fn nearest_among(water: Seq<WaterBundle>, x: i64, n: nat) -> int
    decreases n,
{
    if n <= 1 {
        0
    } else {
        let best = nearest_among(water, x, (n - 1) as nat);
        if water[n - 1].gap(x) < water[best].gap(x) {
            n - 1
        } else {
            best
        }
    }
}

/// The index of the pool nearest to `x`; of several equally near, the first.
pub open spec fn nearest(water: Seq<WaterBundle>, x: i64) -> int {
    nearest_among(water, x, water.len())
}

/// `i` is nearest to `x`: no pool is nearer, and every pool before it is
/// farther.
pub open spec fn is_nearest(water: Seq<WaterBundle>, x: i64, i: int) -> bool {
    &&& 0 <= i < water.len()
    &&& forall|j: int| 0 <= j < water.len() ==> water[i].gap(x) <= (#[trigger] water[j]).gap(x)
    &&& forall|j: int| 0 <= j < i ==> water[i].gap(x) < (#[trigger] water[j]).gap(x)
}

/// The scan from the front finds the nearest pool, and of equally near pools
/// the first.
pub proof fn lemma_nearest_among(water: Seq<WaterBundle>, x: i64, n: nat)
    requires
        1 <= n <= water.len(),
    ensures
        is_nearest(water.take(n as int), x, nearest_among(water, x, n)),
    decreases n,
{
    if n > 1 {
        lemma_nearest_among(water, x, (n - 1) as nat);
        let best = nearest_among(water, x, (n - 1) as nat);
        let prev = water.take(n - 1);
        let cur = water.take(n as int);
        let now = nearest_among(water, x, n);
        assert forall|j: int| 0 <= j < cur.len() implies cur[now].gap(x) <= (#[trigger] cur[j]).gap(
            x,
        ) by {
            if j < n - 1 {
                assert(prev[j] == cur[j]);
            }
        }
        assert forall|j: int| 0 <= j < now implies cur[now].gap(x) < (#[trigger] cur[j]).gap(
            x,
        ) by {
            assert(prev[j] == cur[j]);
        }
    }
}

/// Where there is a pool at all, the pool that the scan settles on is the
/// nearest, and of equally near pools the first.
pub proof fn lemma_nearest(water: Seq<WaterBundle>, x: i64)
    requires
        water.len() > 0,
    ensures
        is_nearest(water, x, nearest(water, x)),
{
    lemma_nearest_among(water, x, water.len());
    assert(water.take(water.len() as int) =~= water);
}

/// Finds the pool nearest to `x`, if there is any pool.
pub fn nearest_pool(water: &Vec<WaterBundle>, x: i64) -> (r: Option<usize>)
    ensures
        r is None <==> water@.len() == 0,
        r matches Some(i) ==> i == nearest(water@, x) && is_nearest(water@, x, i as int),
{
    if water.len() == 0 {
        return None;
    }
    let mut best: usize = 0;
    let mut k: usize = 1;
    while k < water.len()
        invariant
            1 <= k <= water.len(),
            best == nearest_among(water@, x, k as nat),
            0 <= best < k,
        decreases water.len() - k,
    {
        if water[k].distance_to(x) < water[best].distance_to(x) {
            best = k;
        }
        k = k + 1;
    }
    proof {
        lemma_nearest(water@, x);
    }
    Some(best)
}

/// The pools after an object has come down at `x`: the nearest pool takes the
/// raindrop (`rain`) or the sponge; where there is no pool, nothing changes.
pub open spec fn water_after(water: Seq<WaterBundle>, x: i64, rain: bool) -> Seq<WaterBundle> {
    if water.len() == 0 {
        water
    } else {
        water.update(nearest(water, x), water[nearest(water, x)].after_landing(rain))
    }
}

/// The pool that is made when an object comes down and finds none: a fresh
/// pool, in which the raindrop has already landed if it was one. A sponge
/// finds the fresh pool empty and leaves it so.
pub open spec fn made_for(water: Seq<WaterBundle>, rain: bool) -> Option<WaterBundle> {
    if water.len() == 0 {
        Some(
            if rain {
                WaterBundle::empty_pool().after_landing(true)
            } else {
                WaterBundle::empty_pool()
            },
        )
    } else {
        None
    }
}

/// Lets a raindrop (`rain`) or a sponge that came down at `x` land in the
/// nearest pool. Where there is no pool, hands back the one to create.
pub fn land_in_water(water: &mut Vec<WaterBundle>, x: i64, rain: bool) -> (made: Option<
    WaterBundle,
>)
    requires
        all_wf(old(water)@),
    ensures
        final(water)@ == water_after(old(water)@, x, rain),
        made == made_for(old(water)@, rain),
        made matches Some(pool) ==> pool.water_level.wf() && pool.shows_level(),
        old(water)@.len() > 0 ==> is_nearest(old(water)@, x, nearest(old(water)@, x)),
        old(water)@.len() > 0 ==> final(water)@[nearest(old(water)@, x)].shows_level(),
        all_wf(final(water)@),
{
    match nearest_pool(water, x) {
        None => {
            let mut fresh = WaterBundle::default();
            if rain {
                fresh.land(true);
            }
            Some(fresh)
        },
        Some(i) => {
            let mut pool = water[i];
            pool.land(rain);
            water.set(i, pool);
            None
        },
    }
}

/// The level after a run of landings, `true` for a raindrop and `false` for a
/// sponge.
pub open spec fn level_after(level: WaterLevel, landings: Seq<bool>) -> WaterLevel
    decreases landings.len(),
{
    if landings.len() == 0 {
        level
    } else if landings.last() {
        level_after(level, landings.drop_last()).raised()
    } else {
        level_after(level, landings.drop_last()).lowered()
    }
}

/// Whatever lands in a pool, in whatever order, its level stays between
/// empty and full, and full stays what it was.
pub proof fn lemma_level_in_range(level: WaterLevel, landings: Seq<bool>)
    requires
        level.wf(),
    ensures
        level_after(level, landings).wf(),
        level_after(level, landings).max == level.max,
        0 <= level_after(level, landings).current <= level.max,
    decreases landings.len(),
{
    if landings.len() > 0 {
        lemma_level_in_range(level, landings.drop_last());
    }
}

impl WaterLevel {
    /// Tells whether the level lies between empty and full.
    pub fn is_wf(&self) -> (b: bool)
        ensures
            b == self.wf(),
    {
        0 <= self.current && self.current <= self.max
    }
}

/// Tells whether every pool holds a level between empty and full.
pub fn pools_wf(water: &Vec<WaterBundle>) -> (b: bool)
    ensures
        b == all_wf(water@),
{
    let mut i: usize = 0;
    while i < water.len()
        invariant
            0 <= i <= water@.len(),
            forall|j: int| 0 <= j < i ==> (#[trigger] water@[j]).water_level.wf(),
        decreases water@.len() - i,
    {
        if !water[i].water_level.is_wf() {
            return false;
        }
        i = i + 1;
    }
    true
}

} // verus!
