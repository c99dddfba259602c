//! A bounded store of interpreter contexts, one for each font at each size.

use super::font::LoaderFont;
use super::hint::{HintGlyph, HintZone, HinterMode, Interpreter};
use vstd::prelude::*;

verus! {

/// What a context was built for.
pub struct SlotKey {
    pub font_id: u64,
    pub ppem: u16,
    pub coords: Seq<i16>,
    pub mode: HinterMode,
}

/// Names a context that [`Cache::prepare`] made ready.
#[derive(Copy, Clone, PartialEq, Eq, Structural, Debug)]
pub enum CacheSlot {
    /// The context of a font without identity, which is never kept.
    Uncached,
    /// The context at `index`, as long as it bears `stamp`.
    Cached { index: usize, stamp: u64 },
}

struct Entry<C> {
    font_id: u64,
    ppem: u16,
    coords: Vec<i16>,
    mode: HinterMode,
    stamp: u64,
    context: C,
}

impl<C> Entry<C> {
    spec fn key(&self) -> SlotKey {
        SlotKey { font_id: self.font_id, ppem: self.ppem, coords: self.coords@, mode: self.mode }
    }
}

/// Contexts of the interpreter `H`, at most a fixed number of them. When a
/// new one needs room, the one that was asked for longest ago leaves.
pub struct Cache<H: Interpreter> {
    interpreter: H,
    entries: Vec<Entry<H::Context>>,
    uncached: Option<H::Context>,
    max_size: usize,
    clock: u64,
}

/// Holds when `i` is the position of the smallest of `stamps`.
pub open spec fn is_oldest(stamps: Seq<u64>, i: int) -> bool {
    &&& 0 <= i < stamps.len()
    &&& forall|j: int| 0 <= j < stamps.len() ==> stamps[i] <= #[trigger] stamps[j]
}

/// Holds when `key` is among `keys`.
pub open spec fn has_key(keys: Seq<SlotKey>, key: SlotKey) -> bool {
    exists|i: int| 0 <= i < keys.len() && #[trigger] keys[i] == key
}

fn same_coords(a: &Vec<i16>, b: &[i16]) -> (r: bool)
    ensures
        r == (a@ == b@),
{
    if a.len() != b.len() {
        return false;
    }
    let mut i: usize = 0;
    while i < a.len()
        invariant
            a@.len() == b@.len(),
            i <= a@.len(),
            forall|j: int| 0 <= j < i ==> a@[j] == b@[j],
        decreases a@.len() - i,
    {
        if a[i] != b[i] {
            return false;
        }
        i += 1;
    }
    assert(a@ =~= b@);
    true
}

fn copy_coords(a: &[i16]) -> (r: Vec<i16>)
    ensures
        r@ == a@,
{
    let mut r: Vec<i16> = Vec::new();
    let mut i: usize = 0;
    while i < a.len()
        invariant
            i <= a@.len(),
            r@ == a@.subrange(0, i as int),
        decreases a@.len() - i,
    {
        r.push(a[i]);
        assert(r@ =~= a@.subrange(0, i + 1));
        i += 1;
    }
    assert(r@ =~= a@);
    r
}

impl<H: Interpreter> Cache<H> {
    /// The largest number of contexts that the cache keeps.
    pub closed spec fn max_size(&self) -> usize {
        self.max_size
    }

    /// What each kept context was built for.
    pub closed spec fn keys(&self) -> Seq<SlotKey> {
        Seq::new(self.entries@.len(), |i: int| self.entries@[i].key())
    }

    /// When each kept context was last asked for: a larger stamp is later.
    pub closed spec fn stamps(&self) -> Seq<u64> {
        Seq::new(self.entries@.len(), |i: int| self.entries@[i].stamp)
    }

    /// Holds when the cache is within its bound, no two contexts were built
    /// for the same thing, and no two were asked for at the same time.
    pub closed spec fn wf(&self) -> bool {
        &&& self.entries@.len() <= self.max_size
        &&& self.max_size == 0 ==> self.uncached.is_none()
        &&& forall|i: int|
            0 <= i < self.entries@.len() ==> (#[trigger] self.entries@[i]).stamp < self.clock
        &&& forall|i: int, j: int|
            0 <= i < j < self.entries@.len() ==> (#[trigger] self.entries@[i]).stamp != (
            #[trigger] self.entries@[j]).stamp
        &&& forall|i: int, j: int|
            0 <= i < j < self.entries@.len() ==> (#[trigger] self.entries@[i]).key() != (
            #[trigger] self.entries@[j]).key()
    }

    /// Holds when `slot` names a context that the cache holds now.
    pub closed spec fn holds(&self, slot: CacheSlot) -> bool {
        match slot {
            CacheSlot::Uncached => self.uncached.is_some(),
            CacheSlot::Cached { index, stamp } => index < self.entries@.len()
                && self.entries@[index as int].stamp == stamp,
        }
    }

    /// Creates an empty cache for at most `max_size` contexts of
    /// `interpreter`. A cache for none prepares nothing.
    pub fn new(interpreter: H, max_size: usize) -> (cache: Self)
        ensures
            cache.wf(),
            cache.max_size() == max_size,
            cache.keys().len() == 0,
            max_size == 0 || !interpreter.willing() ==> cache.idle(),
    {
        Self { interpreter, entries: Vec::new(), uncached: None, max_size, clock: 0 }
    }

    /// The largest number of contexts that the cache keeps.
    pub fn capacity(&self) -> (n: usize)
        ensures
            n == self.max_size(),
    {
        self.max_size
    }

    /// The number of contexts that the cache keeps now.
    pub fn len(&self) -> (n: usize)
        ensures
            n == self.keys().len(),
            self.wf() ==> n <= self.max_size(),
    {
        self.entries.len()
    }

    /// Holds when the cache holds no context and builds none: it keeps
    /// none, or its interpreter is not willing.
    pub closed spec fn idle(&self) -> bool {
        &&& self.max_size == 0 || !self.interpreter.willing()
        &&& self.entries@.len() == 0
        &&& self.uncached.is_none()
    }

    /// Holds when the cache has handed out its last stamp and prepares no
    /// context for a font with an identity any more.
    pub closed spec fn spent(&self) -> bool {
        self.clock == u64::MAX
    }

    /// Tells whether `slot` names a context that the cache holds now.
    pub fn is_live(&self, slot: CacheSlot) -> (r: bool)
        ensures
            r == self.holds(slot),
            self.wf() && self.max_size() == 0 ==> !r,
            self.idle() ==> !r,
    {
        match slot {
            CacheSlot::Uncached => self.uncached.is_some(),
            CacheSlot::Cached { index, stamp } => index < self.entries.len()
                && self.entries[index].stamp == stamp,
        }
    }

    /// Obtains the context for a font at one size, building it where the
    /// cache does not hold it.
    ///
    /// A font with an identity has its context kept under `font_id`, `ppem`,
    /// `coords` and `mode`. Asking for a kept context succeeds and makes it
    /// the latest; a new one is built by the interpreter, which may refuse,
    /// and takes a free place or else that of the context asked for longest
    /// ago. The context of a font without identity is built each time and
    /// replaces the one before.
    pub fn prepare(
        &mut self,
        font_id: Option<u64>,
        font: &LoaderFont,
        coords: &[i16],
        ppem: u16,
        scale: i32,
        mode: HinterMode,
    ) -> (slot: Option<CacheSlot>)
        requires
            old(self).wf(),
        ensures
            final(self).wf(),
            final(self).max_size() == old(self).max_size(),
            final(self).keys().len() <= old(self).max_size(),
            old(self).max_size() == 0 ==> slot.is_none(),
            old(self).idle() ==> slot.is_none() && final(self).idle(),
            slot.is_none() || slot == Some(CacheSlot::Uncached) ==> {
                &&& final(self).keys() == old(self).keys()
                &&& final(self).stamps() == old(self).stamps()
            },
            slot == Some(CacheSlot::Uncached) ==> font_id.is_none() && final(self).holds(
                CacheSlot::Uncached,
            ),
            match slot {
                Some(CacheSlot::Cached { index, stamp }) => {
                    let key = SlotKey { font_id: font_id.unwrap(), ppem, coords: coords@, mode };
                    &&& font_id.is_some()
                    &&& final(self).holds(CacheSlot::Cached { index, stamp })
                    &&& index < final(self).keys().len()
                    &&& final(self).keys()[index as int] == key
                    &&& final(self).stamps()[index as int] == stamp
                    &&& forall|j: int|
                        0 <= j < final(self).stamps().len() && j != index ==> (
                        #[trigger] final(self).stamps()[j]) < stamp
                    &&& forall|j: int|
                        0 <= j < old(self).stamps().len() && j != index ==> (
                        #[trigger] final(self).stamps()[j]) == old(self).stamps()[j]
                    &&& if has_key(old(self).keys(), key) {
                        final(self).keys() == old(self).keys()
                    } else if old(self).keys().len() < old(self).max_size() {
                        final(self).keys() == old(self).keys().push(key)
                    } else {
                        &&& is_oldest(old(self).stamps(), index as int)
                        &&& final(self).keys() == old(self).keys().update(index as int, key)
                    }
                },
                _ => true,
            },
            font_id.is_some() && old(self).max_size() > 0 && !old(self).spent() && has_key(
                old(self).keys(),
                SlotKey { font_id: font_id.unwrap(), ppem, coords: coords@, mode },
            ) ==> slot.is_some(),
    {
        if self.max_size == 0 {
            return None;
        }
        let id = match font_id {
            Some(id) => id,
            None => {
                return match self.interpreter.prepare(font, coords, ppem, scale, mode) {
                    Some(context) => {
                        self.uncached = Some(context);
                        assert(self.keys() =~= old(self).keys());
                        assert(self.stamps() =~= old(self).stamps());
                        Some(CacheSlot::Uncached)
                    },
                    None => {
                        assert(self.keys() =~= old(self).keys());
                        assert(self.stamps() =~= old(self).stamps());
                        None
                    },
                };
            },
        };
        if self.clock == u64::MAX {
            return None;
        }
        let ghost key = SlotKey { font_id: id, ppem, coords: coords@, mode };
        let stamp = self.clock;
        match self.find(id, coords, ppem, mode) {
            Some(i) => {
                assert(old(self).keys()[i as int] == key);
                self.clock = self.clock + 1;
                self.entries[i].stamp = stamp;
                assert(self.keys() =~= old(self).keys());
                Some(CacheSlot::Cached { index: i, stamp })
            },
            None => {
                assert(!has_key(old(self).keys(), key));
                match self.interpreter.prepare(font, coords, ppem, scale, mode) {
                    None => {
                        assert(self.keys() =~= old(self).keys());
                        assert(self.stamps() =~= old(self).stamps());
                        None
                    },
                    Some(context) => {
                        self.clock = self.clock + 1;
                        let entry = Entry {
                            font_id: id,
                            ppem,
                            coords: copy_coords(coords),
                            mode,
                            stamp,
                            context,
                        };
                        if self.entries.len() < self.max_size {
                            let index = self.entries.len();
                            self.entries.push(entry);
                            assert(self.keys() =~= old(self).keys().push(key));
                            Some(CacheSlot::Cached { index, stamp })
                        } else {
                            let index = self.oldest();
                            self.entries.set(index, entry);
                            assert(self.keys() =~= old(self).keys().update(index as int, key));
                            Some(CacheSlot::Cached { index, stamp })
                        }
                    },
                }
            },
        }
    }

    /// Runs the hint program of a glyph on `zone` with the context that
    /// `slot` names. Hands back the hinted zone where the slot is live, the
    /// program succeeds and the zone still has as many points and tags as
    /// before.
    pub fn hint(
        &mut self,
        font: &LoaderFont,
        coords: &[i16],
        slot: CacheSlot,
        glyph: &HintGlyph<'_>,
        zone: HintZone,
    ) -> (hinted: Option<HintZone>)
        requires
            old(self).wf(),
        ensures
            final(self).wf(),
            final(self).max_size() == old(self).max_size(),
            final(self).keys() == old(self).keys(),
            final(self).stamps() == old(self).stamps(),
            !old(self).holds(slot) ==> hinted.is_none(),
            old(self).idle() ==> hinted.is_none() && final(self).idle(),
            match hinted {
                Some(z) => z.points@.len() == zone.points@.len() && z.tags@.len()
                    == zone.tags@.len(),
                None => true,
            },
    {
        let points = zone.points.len();
        let tags = zone.tags.len();
        let hinted = match slot {
            CacheSlot::Uncached => match &mut self.uncached {
                Some(context) => self.interpreter.execute(context, font, coords, glyph, zone),
                None => None,
            },
            CacheSlot::Cached { index, stamp } => {
                if index < self.entries.len() && self.entries[index].stamp == stamp {
                    self.interpreter.execute(
                        &mut self.entries[index].context,
                        font,
                        coords,
                        glyph,
                        zone,
                    )
                } else {
                    None
                }
            },
        };
        assert(self.keys() =~= old(self).keys());
        assert(self.stamps() =~= old(self).stamps());
        checked_zone(hinted, points, tags)
    }

    /// Position of the context built for the given font and size, if any.
    fn find(&self, font_id: u64, coords: &[i16], ppem: u16, mode: HinterMode) -> (r: Option<
        usize,
    >)
        ensures
            match r {
                Some(i) => i < self.entries@.len() && self.entries@[i as int].key() == (SlotKey {
                    font_id,
                    ppem,
                    coords: coords@,
                    mode,
                }),
                None => forall|i: int|
                    0 <= i < self.entries@.len() ==> (#[trigger] self.entries@[i]).key() != (
                    SlotKey { font_id, ppem, coords: coords@, mode }),
            },
    {
        let mut i: usize = 0;
        while i < self.entries.len()
            invariant
                i <= self.entries@.len(),
                forall|j: int|
                    0 <= j < i ==> (#[trigger] self.entries@[j]).key() != (SlotKey {
                        font_id,
                        ppem,
                        coords: coords@,
                        mode,
                    }),
            decreases self.entries@.len() - i,
        {
            let e = &self.entries[i];
            if e.font_id == font_id && e.ppem == ppem && e.mode == mode && same_coords(
                &e.coords,
                coords,
            ) {
                return Some(i);
            }
            i += 1;
        }
        None
    }

    /// Position of the context that was asked for longest ago.
    fn oldest(&self) -> (r: usize)
        requires
            self.entries@.len() > 0,
        ensures
            is_oldest(self.stamps(), r as int),
    {
        let mut best: usize = 0;
        let mut i: usize = 1;
        while i < self.entries.len()
            invariant
                0 <= best < i <= self.entries@.len(),
                forall|j: int|
                    0 <= j < i ==> self.entries@[best as int].stamp <= (
                    #[trigger] self.entries@[j]).stamp,
            decreases self.entries@.len() - i,
        {
            if self.entries[i].stamp < self.entries[best].stamp {
                best = i;
            }
            i += 1;
        }
        best
    }
}

/// What is kept of the zone that an interpreter handed back for a zone of
/// `points` points and `tags` tags: the zone itself where it still has as
/// many of both, else nothing.
pub open spec fn zone_if_whole(hinted: Option<HintZone>, points: nat, tags: nat) -> Option<
    HintZone,
> {
    match hinted {
        Some(zone) => if zone.points@.len() == points && zone.tags@.len() == tags {
            Some(zone)
        } else {
            None
        },
        None => None,
    }
}

/// Takes what an interpreter handed back for a zone of `points` points and
/// `tags` tags, and keeps it where it still has as many of both. A zone of
/// another size counts as a program that failed.
pub fn checked_zone(hinted: Option<HintZone>, points: usize, tags: usize) -> (r: Option<HintZone>)
    ensures
        r == zone_if_whole(hinted, points as nat, tags as nat),
{
    match hinted {
        Some(zone) => if zone.points.len() == points && zone.tags.len() == tags {
            Some(zone)
        } else {
            None
        },
        None => None,
    }
}

} // verus!
