//! A bounded, time-expiring cache of radio spots, keyed by callsign.
//!
//! Spots expire once they are as old as the retention period. Adding a spot
//! first drops the expired ones and, when more remain than the capacity,
//! evicts the oldest until the capacity is met; the new spot then replaces
//! any spot of the same callsign.

use vstd::prelude::*;

verus! {

/// How long a spot stays active, in seconds (30 minutes).
pub const SPOT_RETENTION_SECS: u64 = 1800;

/// One reported station: who was heard, where, and when (seconds since the
/// Unix epoch). The frequency is kept in thousandths of the unit it was
/// reported in.
#[derive(Debug)]
pub struct Spot {
    pub callsign: String,
    pub frequency_milli: u64,
    pub mode: String,
    pub spotter: String,
    pub timestamp: u64,
    pub grid: Option<String>,
    pub snr: Option<i32>,
}

impl Spot {
    pub fn duplicate(&self) -> (r: Spot)
        ensures
            r == *self,
    {
        Spot {
            callsign: self.callsign.clone(),
            frequency_milli: self.frequency_milli,
            mode: self.mode.clone(),
            spotter: self.spotter.clone(),
            timestamp: self.timestamp,
            grid: match &self.grid {
                Some(g) => Some(g.clone()),
                None => None,
            },
            snr: self.snr,
        }
    }
}

/// A spot is active while its age, counted as zero for a timestamp in the
/// future, is below the retention period.
pub open spec fn is_active_at(spot: Spot, now: u64, retention: u64) -> bool {
    (if now >= spot.timestamp { now - spot.timestamp } else { 0 }) < retention
}

pub open spec fn active_spots(s: Seq<Spot>, now: u64, retention: u64) -> Seq<Spot> {
    s.filter(|x: Spot| is_active_at(x, now, retention))
}

pub open spec fn unique_callsigns(s: Seq<Spot>) -> bool {
    forall|i: int, j: int| 0 <= i < j < s.len() ==> s[i].callsign@ != s[j].callsign@
}

/// `s` is what is left of the spots `r` after evicting the oldest until at
/// most `max` remain: a selection of `r` of length `min(|r|, max)`, where no
/// evicted spot is newer than a kept one.
pub open spec fn evicted_oldest(r: Seq<Spot>, s: Seq<Spot>, max: usize) -> bool {
    &&& s.len() == if r.len() <= max { r.len() as int } else { max as int }
    &&& forall|x: Spot| s.contains(x) ==> r.contains(x)
    &&& forall|x: Spot, y: Spot|
        r.contains(x) && !s.contains(x) && s.contains(y) ==> x.timestamp <= y.timestamp
}

/// `s` is `mid` with `spot` put in: in place of the spot of the same
/// callsign if there is one, else appended.
pub open spec fn upserted(mid: Seq<Spot>, spot: Spot, s: Seq<Spot>) -> bool {
    if exists|i: int| 0 <= i < mid.len() && mid[i].callsign@ == spot.callsign@ {
        exists|i: int| 0 <= i < mid.len() && mid[i].callsign@ == spot.callsign@ && s == mid.update(i, spot)
    } else {
        s == mid.push(spot)
    }
}

/// Seconds since the Unix epoch.
/// Relies on `std::time::SystemTime::now`, read against `UNIX_EPOCH`; a clock
/// set before the epoch reads as zero. Nothing is promised of the value.
#[verifier::external_body]
fn unix_now_secs() -> u64 {
    std::time::SystemTime::now().duration_since(std::time::UNIX_EPOCH).map_or(0, |d| d.as_secs())
}

proof fn lemma_remove_keeps_others(s: Seq<Spot>, m: int)
    requires
        0 <= m < s.len(),
        unique_callsigns(s),
    ensures
        unique_callsigns(s.remove(m)),
        !s.remove(m).contains(s[m]),
        forall|x: Spot| s.remove(m).contains(x) ==> s.contains(x),
        forall|x: Spot| s.contains(x) && x != s[m] ==> s.remove(m).contains(x),
{
    let t = s.remove(m);
    assert forall|i: int, j: int| 0 <= i < j < t.len() implies t[i].callsign@ != t[j].callsign@ by {
        let a = if i < m { i } else { i + 1 };
        let b = if j < m { j } else { j + 1 };
        assert(t[i] == s[a] && t[j] == s[b] && a < b);
    }
    if t.contains(s[m]) {
        let k = choose|k: int| 0 <= k < t.len() && t[k] == s[m];
        let a = if k < m { k } else { k + 1 };
        assert(t[k] == s[a] && a != m);
        if a < m {
            assert(s[a].callsign@ != s[m].callsign@);
        } else {
            assert(s[m].callsign@ != s[a].callsign@);
        }
    }
    assert forall|x: Spot| t.contains(x) implies s.contains(x) by {
        let k = choose|k: int| 0 <= k < t.len() && t[k] == x;
        if k < m {
            assert(s[k] == x);
        } else {
            assert(s[k + 1] == x);
        }
    }
    assert forall|x: Spot| s.contains(x) && x != s[m] implies t.contains(x) by {
        let k = choose|k: int| 0 <= k < s.len() && s[k] == x;
        if k < m {
            assert(t[k] == x);
        } else {
            assert(k != m);
            assert(t[k - 1] == x);
        }
    }
}

/// Spots by callsign, at most `max_size` of them after each cleanup.
pub struct SpotCache {
    spots: Vec<Spot>,
    max_size: usize,
    retention_secs: u64,
}

impl View for SpotCache {
    type V = Seq<Spot>;

    closed spec fn view(&self) -> Seq<Spot> {
        self.spots@
    }
}

impl SpotCache {
    #[verifier::type_invariant]
    closed spec fn callsigns_unique(self) -> bool {
        unique_callsigns(self.spots@)
    }

    pub closed spec fn capacity(&self) -> usize {
        self.max_size
    }

    pub closed spec fn retention(&self) -> u64 {
        self.retention_secs
    }

    pub fn new(max_size: usize) -> (r: SpotCache)
        ensures
            r@ == Seq::<Spot>::empty(),
            r.capacity() == max_size,
            r.retention() == SPOT_RETENTION_SECS,
    {
        SpotCache { spots: Vec::new(), max_size, retention_secs: SPOT_RETENTION_SECS }
    }

    pub fn is_active(&self, spot: &Spot, now: u64) -> (r: bool)
        ensures
            r == is_active_at(*spot, now, self.retention()),
    {
        let age = if now >= spot.timestamp { now - spot.timestamp } else { 0 };
        age < self.retention_secs
    }

    /// The active spots at `now`, thinned by evicting the oldest until the
    /// capacity is met.
    fn cleanup(&self, now: u64) -> (r: Vec<Spot>)
        ensures
            evicted_oldest(active_spots(self@, now, self.retention()), r@, self.capacity()),
            unique_callsigns(r@),
    {
        let mut kept = self.get_spots_at(now);
        let ghost active = kept@;
        while kept.len() > self.max_size
            invariant
                unique_callsigns(kept@),
                kept@.len() <= active.len(),
                kept@.len() < active.len() ==> kept@.len() >= self.max_size,
                forall|x: Spot| kept@.contains(x) ==> active.contains(x),
                forall|x: Spot, y: Spot|
                    active.contains(x) && !kept@.contains(x) && kept@.contains(y) ==> x.timestamp
                        <= y.timestamp,
            decreases kept@.len(),
        {
            let mut m: usize = 0;
            let mut j: usize = 1;
            while j < kept.len()
                invariant
                    0 <= m < j <= kept@.len(),
                    forall|k: int| 0 <= k < j ==> kept@[m as int].timestamp <= kept@[k].timestamp,
                decreases kept@.len() - j,
            {
                if kept[j].timestamp < kept[m].timestamp {
                    m = j;
                }
                j += 1;
            }
            let ghost prev = kept@;
            proof {
                lemma_remove_keeps_others(prev, m as int);
            }
            kept.remove(m);
            proof {
                assert forall|x: Spot, y: Spot|
                    active.contains(x) && !kept@.contains(x) && kept@.contains(y) implies x.timestamp
                        <= y.timestamp by {
                    assert(prev.contains(y));
                    let k = choose|k: int| 0 <= k < prev.len() && prev[k] == y;
                    if x != prev[m as int] {
                        assert(!prev.contains(x));
                    }
                }
            }
        }
        kept
    }

    /// Drops the spots expired at `now`, evicts the oldest beyond the
    /// capacity, then puts `spot` in place of the one of the same callsign,
    /// or adds it.
    pub fn add_spot_at(&mut self, spot: Spot, now: u64)
        ensures
            exists|mid: Seq<Spot>|
                evicted_oldest(active_spots(old(self)@, now, old(self).retention()), mid, old(self).capacity())
                    && upserted(mid, spot, final(self)@),
            final(self).capacity() == old(self).capacity(),
            final(self).retention() == old(self).retention(),
    {
        let mut kept = self.cleanup(now);
        let ghost mid = kept@;
        let mut i: usize = 0;
        let mut same: Option<usize> = None;
        while i < kept.len()
            invariant
                kept@ == mid,
                i <= mid.len(),
                same matches Some(j) ==> j < mid.len() && mid[j as int].callsign@ == spot.callsign@,
                same is None ==> forall|k: int| 0 <= k < i ==> mid[k].callsign@ != spot.callsign@,
            decreases mid.len() - i,
        {
            if same.is_none() && kept[i].callsign == spot.callsign {
                same = Some(i);
            }
            i += 1;
        }
        match same {
            Some(j) => {
                proof {
                    assert forall|a: int, b: int| 0 <= a < b < mid.len() implies mid.update(
                        j as int,
                        spot,
                    )[a].callsign@ != mid.update(j as int, spot)[b].callsign@ by {
                        if a == j {
                            assert(mid[b].callsign@ != mid[j as int].callsign@);
                        } else if b == j {
                            assert(mid[a].callsign@ != mid[j as int].callsign@);
                        }
                    }
                }
                kept.set(j, spot);
                assert(upserted(mid, spot, kept@));
            },
            None => {
                kept.push(spot);
                assert(kept@ =~= mid.push(spot));
                assert(upserted(mid, spot, kept@));
            },
        }
        let ghost before = *self;
        assert(evicted_oldest(active_spots(before@, now, before.retention()), mid, before.capacity()));
        self.spots = kept;
        assert(upserted(mid, spot, self@));
    }

    /// Adds a spot, cleaning up against the current time.
    pub fn add_spot(&mut self, spot: Spot)
        ensures
            exists|now: u64, mid: Seq<Spot>|
                evicted_oldest(active_spots(old(self)@, now, old(self).retention()), mid, old(self).capacity())
                    && upserted(mid, spot, final(self)@),
            final(self).capacity() == old(self).capacity(),
            final(self).retention() == old(self).retention(),
    {
        let now = unix_now_secs();
        self.add_spot_at(spot, now);
    }

    /// The spots still active at `now`, in cache order.
    pub fn get_spots_at(&self, now: u64) -> (r: Vec<Spot>)
        ensures
            r@ == active_spots(self@, now, self.retention()),
            unique_callsigns(r@),
            forall|x: Spot| r@.contains(x) ==> self@.contains(x),
    {
        proof {
            use_type_invariant(self);
        }
        let mut out: Vec<Spot> = Vec::new();
        let mut i: usize = 0;
        while i < self.spots.len()
            invariant
                i <= self.spots@.len(),
                out@ == active_spots(self.spots@.take(i as int), now, self.retention()),
                unique_callsigns(self.spots@),
                unique_callsigns(out@),
                forall|k: int|
                    0 <= k < out@.len() ==> exists|j: int| 0 <= j < i && #[trigger] out@[k] == self.spots@[j],
            decreases self.spots@.len() - i,
        {
            let ghost prefix = self.spots@.take(i as int + 1);
            let ghost before = out@;
            let keep = self.is_active(&self.spots[i], now);
            if keep {
                out.push(self.spots[i].duplicate());
                proof {
                    assert forall|a: int, b: int| 0 <= a < b < out@.len() implies out@[a].callsign@
                        != out@[b].callsign@ by {
                        if b == out@.len() - 1 {
                            let j = choose|j: int| 0 <= j < i && before[a] == self.spots@[j];
                            assert(self.spots@[j].callsign@ != self.spots@[i as int].callsign@);
                        } else {
                            assert(out@[a] == before[a] && out@[b] == before[b]);
                        }
                    }
                    assert forall|k: int| 0 <= k < out@.len() implies exists|j: int|
                        0 <= j < i + 1 && #[trigger] out@[k] == self.spots@[j] by {
                        if k == out@.len() - 1 {
                            assert(out@[k] == self.spots@[i as int]);
                        } else {
                            assert(out@[k] == before[k]);
                        }
                    }
                }
            }
            proof {
                assert(prefix.drop_last() =~= self.spots@.take(i as int));
                assert(prefix.last() == self.spots@[i as int]);
                assert(is_active_at(prefix.last(), now, self.retention()) == keep);
                reveal(Seq::filter);
                assert(active_spots(prefix, now, self.retention()) == if keep {
                    before.push(prefix.last())
                } else {
                    before
                });
                assert(out@ =~= active_spots(prefix, now, self.retention()));
            }
            i += 1;
        }
        assert(self.spots@.take(self.spots@.len() as int) =~= self.spots@);
        assert forall|x: Spot| out@.contains(x) implies self.spots@.contains(x) by {
            let k = choose|k: int| 0 <= k < out@.len() && out@[k] == x;
            let j = choose|j: int| 0 <= j < i && out@[k] == self.spots@[j];
        }
        out
    }

    /// The spots active now.
    pub fn get_spots(&self) -> (r: Vec<Spot>)
        ensures
            exists|now: u64| r@ == active_spots(self@, now, self.retention()),
    {
        let now = unix_now_secs();
        self.get_spots_at(now)
    }
}

} // verus!
