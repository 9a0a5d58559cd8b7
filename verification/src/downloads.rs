//! Download activity per item: how many downloads run and how fast, for the administrator's
//! view.
use vstd::prelude::*;

use crate::text::{chars_equal, chars_of};

verus! {

/// The activity of one item: running downloads, bytes sent since the last tick, the speed
/// measured at the last tick and when that tick was (in the caller's clock units).
#[derive(Debug, Clone, Copy)]
pub struct DownloadProgress {
    pub active_count: u32,
    pub bytes_since_tick: u64,
    pub current_speed_bps: u64,
    pub last_tick: u64,
}

/// One item being downloaded, as the administrator's view lists it.
#[derive(Debug)]
pub struct DownloadPublicItem {
    pub item_id: String,
    pub speed_bps: u64,
    pub active_count: u32,
}

/// The activity of all items being downloaded, one entry per item.
#[derive(Debug)]
pub struct DownloadTracker {
    entries: Vec<(String, DownloadProgress)>,
}

/// The activity as (item id, progress) pairs.
pub open spec fn entries_view(entries: Seq<(String, DownloadProgress)>) -> Seq<(Seq<char>, DownloadProgress)> {
    entries.map_values(|e: (String, DownloadProgress)| (e.0@, e.1))
}

/// Each item appears once and every entry has a running download.
pub open spec fn tracker_wf(s: Seq<(Seq<char>, DownloadProgress)>) -> bool {
    &&& forall|i: int, j: int| 0 <= i < j < s.len() ==> s[i].0 != s[j].0
    &&& forall|i: int| 0 <= i < s.len() ==> (#[trigger] s[i]).1.active_count > 0
}

/// Position of the entry of an item, if any.
pub open spec fn index_of(s: Seq<(Seq<char>, DownloadProgress)>, id: Seq<char>) -> Option<int> {
    if exists|i: int| 0 <= i < s.len() && s[i].0 == id {
        Some(choose|i: int| 0 <= i < s.len() && s[i].0 == id)
    } else {
        None
    }
}

/// The progress of an item whose first download starts at `now`.
pub open spec fn fresh_progress(now: u64) -> DownloadProgress {
    DownloadProgress { active_count: 1, bytes_since_tick: 0, current_speed_bps: 0, last_tick: now }
}

/// The activity after a download of `id` starts at `now`: one more running download (up to
/// the counter's limit); a first download starts measuring afresh.
pub open spec fn started(s: Seq<(Seq<char>, DownloadProgress)>, id: Seq<char>, now: u64) -> Seq<(Seq<char>, DownloadProgress)> {
    match index_of(s, id) {
        None => s.push((id, fresh_progress(now))),
        Some(i) => {
            let p = s[i].1;
            let count = if p.active_count == u32::MAX { u32::MAX } else { (p.active_count + 1) as u32 };
            let q = if count == 1 {
                fresh_progress(now)
            } else {
                DownloadProgress { active_count: count, ..p }
            };
            s.update(i, (id, q))
        },
    }
}

/// The activity after `bytes` more were sent for `id` (nothing changes for an item that is
/// not being downloaded).
pub open spec fn recorded(s: Seq<(Seq<char>, DownloadProgress)>, id: Seq<char>, bytes: u64) -> Seq<(Seq<char>, DownloadProgress)> {
    match index_of(s, id) {
        None => s,
        Some(i) => {
            let p = s[i].1;
            let total = if p.bytes_since_tick + bytes > u64::MAX { u64::MAX } else { (p.bytes_since_tick + bytes) as u64 };
            s.update(i, (id, DownloadProgress { bytes_since_tick: total, ..p }))
        },
    }
}

/// The activity after a download of `id` ends: one running download less; the item's entry
/// goes when none is left.
pub open spec fn finished(s: Seq<(Seq<char>, DownloadProgress)>, id: Seq<char>) -> Seq<(Seq<char>, DownloadProgress)> {
    match index_of(s, id) {
        None => s,
        Some(i) => {
            let p = s[i].1;
            let count = if p.active_count == 0 { 0u32 } else { (p.active_count - 1) as u32 };
            if count == 0 {
                s.remove(i)
            } else {
                s.update(i, (id, DownloadProgress { active_count: count, ..p }))
            }
        },
    }
}

/// The activity after a tick at `now` with the measured speeds: every entry keeps its count,
/// takes its speed, restarts its byte count and remembers the tick.
pub open spec fn ticked(s: Seq<(Seq<char>, DownloadProgress)>, now: u64, speeds: Seq<u64>) -> Seq<(Seq<char>, DownloadProgress)> {
    Seq::new(s.len(), |i: int| (s[i].0, DownloadProgress {
        active_count: s[i].1.active_count,
        bytes_since_tick: 0,
        current_speed_bps: speeds[i],
        last_tick: now,
    }))
}

/// An entry as the administrator's view lists it.
pub open spec fn public_download(e: (Seq<char>, DownloadProgress)) -> (Seq<char>, u64, u32) {
    (e.0, e.1.current_speed_bps, e.1.active_count)
}

impl View for DownloadTracker {
    type V = Seq<(Seq<char>, DownloadProgress)>;

    closed spec fn view(&self) -> Self::V {
        entries_view(self.entries@)
    }
}

impl DownloadTracker {
    /// Each item appears once and every entry has a running download.
    #[verifier::type_invariant]
    spec fn well_formed(self) -> bool {
        tracker_wf(entries_view(self.entries@))
    }

    /// No downloads.
    pub fn new() -> (res: Self)
        ensures
            res@ == Seq::<(Seq<char>, DownloadProgress)>::empty(),
    {
        let res = DownloadTracker { entries: Vec::new() };
        assert(res@ =~= Seq::<(Seq<char>, DownloadProgress)>::empty());
        res
    }

    /// Number of items being downloaded.
    pub fn len(&self) -> (res: usize)
        ensures
            res == self@.len(),
    {
        self.entries.len()
    }

    fn position(&self, id: &str) -> (res: Option<usize>)
        ensures
            match res {
                Some(i) => i < self@.len() && self@[i as int].0 == id@,
                None => index_of(self@, id@) is None,
            },
    {
        let key = chars_of(id);
        let mut i: usize = 0;
        while i < self.entries.len()
            invariant
                i <= self.entries@.len(),
                key@ == id@,
                self@ == entries_view(self.entries@),
                forall|t: int| 0 <= t < i ==> self@[t].0 != id@,
            decreases self.entries.len() - i,
        {
            if chars_equal(&chars_of(self.entries[i].0.as_str()), &key) {
                return Some(i);
            }
            i = i + 1;
        }
        None
    }

    /// Takes the entries out, leaving none (which keeps the invariant).
    fn take_entries(&mut self) -> (res: Vec<(String, DownloadProgress)>)
        ensures
            entries_view(res@) == old(self)@,
            tracker_wf(old(self)@),
            final(self)@.len() == 0,
    {
        proof {
            use_type_invariant(&*self);
        }
        let mut entries: Vec<(String, DownloadProgress)> = Vec::new();
        std::mem::swap(&mut entries, &mut self.entries);
        assert(entries_view(self.entries@) =~= Seq::<(Seq<char>, DownloadProgress)>::empty());
        entries
    }

    /// A download of `id` starts at `now`.
    pub fn mark_download_started(&mut self, id: &str, now: u64)
        ensures
            final(self)@ == started(old(self)@, id@, now),
    {
        let ghost s = self@;
        let found = self.position(id);
        let mut entries = self.take_entries();
        match found {
            None => {
                entries.push((chars_of_string(id), fresh(now)));
                assert(entries_view(entries@) =~= s.push((id@, fresh_progress(now))));
                assert forall|a: int, b: int| 0 <= a < b < entries@.len() implies entries_view(entries@)[a].0 != entries_view(entries@)[b].0 by {
                    if b == s.len() {
                        assert(entries_view(entries@)[a] == s[a]);
                        assert(s[a].0 != id@);
                    }
                }
            },
            Some(i) => {
                proof {
                    assert(s[i as int].0 == id@);
                    let j = index_of(s, id@)->0;
                    assert(j == i as int) by {
                        if j != i {
                            if j < i {
                                assert(s[j].0 != s[i as int].0);
                            } else {
                                assert(s[i as int].0 != s[j].0);
                            }
                        }
                    }
                }
                let p = entries[i].1;
                let count = if p.active_count == u32::MAX {
                    u32::MAX
                } else {
                    p.active_count + 1
                };
                let q = if count == 1 {
                    fresh(now)
                } else {
                    DownloadProgress { active_count: count, ..p }
                };
                let name = chars_of_string(id);
                entries.set(i, (name, q));
                assert(entries_view(entries@) =~= s.update(i as int, (id@, q)));
            },
        }
        self.entries = entries;
    }

    /// `bytes` more were sent for `id`.
    pub fn record_download_bytes(&mut self, id: &str, bytes: u64)
        ensures
            final(self)@ == recorded(old(self)@, id@, bytes),
    {
        let ghost s = self@;
        let found = self.position(id);
        let mut entries = self.take_entries();
        if let Some(i) = found {
            proof {
                let j = index_of(s, id@)->0;
                assert(j == i as int) by {
                    if j != i {
                        if j < i {
                            assert(s[j].0 != s[i as int].0);
                        } else {
                            assert(s[i as int].0 != s[j].0);
                        }
                    }
                }
            }
            let p = entries[i].1;
            let total = p.bytes_since_tick.saturating_add(bytes);
            let q = DownloadProgress { bytes_since_tick: total, ..p };
            let name = chars_of_string(id);
            entries.set(i, (name, q));
            assert(entries_view(entries@) =~= s.update(i as int, (id@, q)));
        }
        self.entries = entries;
    }

    /// A download of `id` ended.
    pub fn mark_download_finished(&mut self, id: &str)
        ensures
            final(self)@ == finished(old(self)@, id@),
    {
        let ghost s = self@;
        let found = self.position(id);
        let mut entries = self.take_entries();
        if let Some(i) = found {
            proof {
                let j = index_of(s, id@)->0;
                assert(j == i as int) by {
                    if j != i {
                        if j < i {
                            assert(s[j].0 != s[i as int].0);
                        } else {
                            assert(s[i as int].0 != s[j].0);
                        }
                    }
                }
            }
            let p = entries[i].1;
            let count = p.active_count.saturating_sub(1);
            if count == 0 {
                let _ = entries.remove(i);
                let ghost t = entries_view(entries@);
                assert(t =~= s.remove(i as int));
                assert forall|a: int, b: int| 0 <= a < b < t.len() implies t[a].0 != t[b].0 by {
                    if a >= i {
                        assert(t[a] == s[a + 1]);
                    }
                    if b >= i {
                        assert(t[b] == s[b + 1]);
                    }
                }
                assert forall|a: int| 0 <= a < t.len() implies (#[trigger] t[a]).1.active_count > 0 by {
                    if a >= i {
                        assert(t[a] == s[a + 1]);
                    }
                }
            } else {
                let q = DownloadProgress { active_count: count, ..p };
                let name = chars_of_string(id);
                entries.set(i, (name, q));
                assert(entries_view(entries@) =~= s.update(i as int, (id@, q)));
            }
        }
        self.entries = entries;
    }

    /// The items being downloaded with their speeds and download counts, in the order their
    /// first download started.
    pub fn download_snapshot(&self) -> (res: Vec<DownloadPublicItem>)
        ensures
            res@.map_values(|d: DownloadPublicItem| (d.item_id@, d.speed_bps, d.active_count)) == self@.map_values(
                |e: (Seq<char>, DownloadProgress)| public_download(e),
            ),
    {
        let mut out: Vec<DownloadPublicItem> = Vec::new();
        let mut i: usize = 0;
        while i < self.entries.len()
            invariant
                i <= self.entries@.len(),
                self@ == entries_view(self.entries@),
                out@.map_values(|d: DownloadPublicItem| (d.item_id@, d.speed_bps, d.active_count)) == self@.take(i as int).map_values(
                    |e: (Seq<char>, DownloadProgress)| public_download(e),
                ),
            decreases self.entries.len() - i,
        {
            let e = &self.entries[i];
            let ghost before = out@.map_values(|d: DownloadPublicItem| (d.item_id@, d.speed_bps, d.active_count));
            out.push(DownloadPublicItem { item_id: e.0.clone(), speed_bps: e.1.current_speed_bps, active_count: e.1.active_count });
            i = i + 1;
            assert(out@.map_values(|d: DownloadPublicItem| (d.item_id@, d.speed_bps, d.active_count)) =~= before.push(public_download(self@[i - 1])));
            assert(self@.take(i as int).map_values(|e: (Seq<char>, DownloadProgress)| public_download(e)) =~= self@.take(i - 1).map_values(
                |e: (Seq<char>, DownloadProgress)| public_download(e),
            ).push(public_download(self@[i - 1])));
        }
        assert(self@.take(self.entries.len() as int) =~= self@);
        out
    }

    /// Bytes sent since the last tick and the time of that tick, per entry in order: what
    /// the speeds of the next tick are measured from.
    pub fn tick_inputs(&self) -> (res: Vec<(u64, u64)>)
        ensures
            res@.len() == self@.len(),
            forall|i: int| 0 <= i < self@.len() ==> #[trigger] res@[i] == (self@[i].1.bytes_since_tick, self@[i].1.last_tick),
    {
        let mut out: Vec<(u64, u64)> = Vec::new();
        let mut i: usize = 0;
        while i < self.entries.len()
            invariant
                i <= self.entries@.len(),
                self@ == entries_view(self.entries@),
                out@.len() == i,
                forall|t: int| 0 <= t < i ==> #[trigger] out@[t] == (self@[t].1.bytes_since_tick, self@[t].1.last_tick),
            decreases self.entries.len() - i,
        {
            out.push((self.entries[i].1.bytes_since_tick, self.entries[i].1.last_tick));
            i = i + 1;
        }
        out
    }

    /// A tick at `now`: each entry takes the speed measured for it (`speeds`, in entry order),
    /// restarts its byte count and remembers the tick.
    pub fn update_download_speeds(&mut self, now: u64, speeds: &Vec<u64>)
        requires
            speeds@.len() == old(self)@.len(),
        ensures
            final(self)@ == ticked(old(self)@, now, speeds@),
    {
        let ghost s = self@;
        let mut entries = self.take_entries();
        let mut i: usize = 0;
        while i < entries.len()
            invariant
                i <= entries@.len(),
                entries@.len() == s.len(),
                speeds@.len() == s.len(),
                tracker_wf(s),
                forall|t: int| 0 <= t < i ==> #[trigger] entries_view(entries@)[t] == ticked(s, now, speeds@)[t],
                forall|t: int| i <= t < s.len() ==> #[trigger] entries_view(entries@)[t] == s[t],
            decreases entries.len() - i,
        {
            assert(entries_view(entries@)[i as int] == s[i as int]);
            let p = entries[i].1;
            assert(p == s[i as int].1);
            let q = DownloadProgress { active_count: p.active_count, bytes_since_tick: 0, current_speed_bps: speeds[i], last_tick: now };
            let name = entries[i].0.clone();
            let ghost before = entries@;
            entries.set(i, (name, q));
            assert(entries_view(entries@) =~= entries_view(before).update(i as int, (s[i as int].0, q)));
            assert(ticked(s, now, speeds@)[i as int] == (s[i as int].0, q));
            i = i + 1;
        }
        assert(entries_view(entries@) =~= ticked(s, now, speeds@));
        self.entries = entries;
    }
}

fn fresh(now: u64) -> (res: DownloadProgress)
    ensures
        res == fresh_progress(now),
{
    DownloadProgress { active_count: 1, bytes_since_tick: 0, current_speed_bps: 0, last_tick: now }
}

fn chars_of_string(id: &str) -> (res: String)
    ensures
        res@ == id@,
{
    crate::text::string_of(chars_of(id).as_slice())
}

/// The administrator's view lists each item being downloaded once, and only items with a
/// running download: an item whose last download ended is gone from it.
pub proof fn snapshot_lists_running_downloads(s: Seq<(Seq<char>, DownloadProgress)>)
    requires
        tracker_wf(s),
    ensures
        ({
            let v = s.map_values(|e: (Seq<char>, DownloadProgress)| public_download(e));
            &&& forall|i: int, j: int| 0 <= i < j < v.len() ==> (#[trigger] v[i]).0 != (#[trigger] v[j]).0
            &&& forall|i: int| 0 <= i < v.len() ==> (#[trigger] v[i]).2 > 0
        }),
{
    let v = s.map_values(|e: (Seq<char>, DownloadProgress)| public_download(e));
    assert forall|i: int, j: int| 0 <= i < j < v.len() implies (#[trigger] v[i]).0 != (#[trigger] v[j]).0 by {
        assert(v[i] == public_download(s[i]));
        assert(v[j] == public_download(s[j]));
    }
    assert forall|i: int| 0 <= i < v.len() implies (#[trigger] v[i]).2 > 0 by {
        assert(v[i] == public_download(s[i]));
    }
}

/// A download that starts and ends leaves the activity as it was: for an item that was not
/// being downloaded its entry goes again; for one that was, its count returns (below the
/// counter's limit).
pub proof fn finished_download_undoes_start(s: Seq<(Seq<char>, DownloadProgress)>, id: Seq<char>, now: u64)
    requires
        tracker_wf(s),
        index_of(s, id) matches Some(i) ==> s[i].1.active_count < u32::MAX,
    ensures
        finished(started(s, id, now), id) == s,
{
    let t = started(s, id, now);
    match index_of(s, id) {
        None => {
            assert(t == s.push((id, fresh_progress(now))));
            assert(t[s.len() as int].0 == id);
            let k = index_of(t, id)->0;
            assert(k == s.len()) by {
                if k < s.len() {
                    assert(t[k] == s[k]);
                    assert(exists|i: int| 0 <= i < s.len() && s[i].0 == id);
                }
            }
            assert(t.remove(s.len() as int) =~= s);
        },
        Some(i) => {
            assert(t[i].0 == id);
            let k = index_of(t, id)->0;
            assert(k == i) by {
                if k != i {
                    assert(t[k] == s[k]);
                    if k < i {
                        assert(s[k].0 != s[i].0);
                    } else {
                        assert(s[i].0 != s[k].0);
                    }
                }
            }
            assert(t.update(i, (id, s[i].1)) =~= s);
        },
    }
}

/// How many downloads of `id` run, by the activity: its entry's count, or 0 without one.
pub open spec fn running(s: Seq<(Seq<char>, DownloadProgress)>, id: Seq<char>) -> int {
    match index_of(s, id) {
        Some(i) => s[i].1.active_count as int,
        None => 0,
    }
}

/// The activity after a log of download starts (`true`) and ends (`false`), in order.
pub open spec fn replay(s: Seq<(Seq<char>, DownloadProgress)>, log: Seq<(bool, Seq<char>)>, now: u64) -> Seq<
    (Seq<char>, DownloadProgress),
>
    decreases log.len(),
{
    if log.len() == 0 {
        s
    } else {
        let prev = replay(s, log.drop_last(), now);
        let (start, id) = log.last();
        if start {
            started(prev, id, now)
        } else {
            finished(prev, id)
        }
    }
}

/// Starts minus ends of downloads of `id` in a log.
pub open spec fn balance(log: Seq<(bool, Seq<char>)>, id: Seq<char>) -> int
    decreases log.len(),
{
    if log.len() == 0 {
        0
    } else {
        balance(log.drop_last(), id) + if log.last().1 == id {
            if log.last().0 {
                1int
            } else {
                -1int
            }
        } else {
            0int
        }
    }
}

/// No download ends before it started, and fewer downloads of one item run at once than the
/// counter can hold.
pub open spec fn well_formed_log(log: Seq<(bool, Seq<char>)>) -> bool {
    forall|k: int, id: Seq<char>| 0 <= k <= log.len() ==> 0 <= #[trigger] balance(log.take(k), id) < u32::MAX
}

proof fn lemma_index_unique(s: Seq<(Seq<char>, DownloadProgress)>, id: Seq<char>, i: int)
    requires
        tracker_wf(s),
        0 <= i < s.len(),
        s[i].0 == id,
    ensures
        index_of(s, id) == Some(i),
{
    let j = index_of(s, id)->0;
    if j != i {
        if j < i {
            assert(s[j].0 != s[i].0);
        } else {
            assert(s[i].0 != s[j].0);
        }
    }
}

proof fn lemma_started(s: Seq<(Seq<char>, DownloadProgress)>, id: Seq<char>, now: u64, x: Seq<char>)
    requires
        tracker_wf(s),
        running(s, id) < u32::MAX,
    ensures
        tracker_wf(started(s, id, now)),
        running(started(s, id, now), x) == running(s, x) + if x == id { 1int } else { 0int },
{
    let t = started(s, id, now);
    match index_of(s, id) {
        None => {
            assert(t == s.push((id, fresh_progress(now))));
            assert forall|a: int, b: int| 0 <= a < b < t.len() implies t[a].0 != t[b].0 by {
                if b == s.len() {
                    assert(t[a] == s[a]);
                    assert(t[b].0 == id);
                }
            }
            lemma_index_unique(t, id, s.len() as int);
            if x != id {
                match index_of(s, x) {
                    Some(k) => {
                        assert(t[k] == s[k]);
                        lemma_index_unique(t, x, k);
                    },
                    None => {
                        if index_of(t, x) is Some {
                            let k = index_of(t, x)->0;
                            if k < s.len() {
                                assert(t[k] == s[k]);
                            }
                        }
                    },
                }
            }
        },
        Some(i) => {
            let p = s[i].1;
            let q = DownloadProgress { active_count: (p.active_count + 1) as u32, ..p };
            assert(p.active_count > 0);
            assert(t == s.update(i, (id, q)));
            lemma_index_unique(t, id, i);
            if x != id {
                match index_of(s, x) {
                    Some(k) => {
                        assert(k != i);
                        assert(t[k] == s[k]);
                        lemma_index_unique(t, x, k);
                    },
                    None => {
                        if index_of(t, x) is Some {
                            let k = index_of(t, x)->0;
                            if k != i {
                                assert(t[k] == s[k]);
                            }
                        }
                    },
                }
            }
        },
    }
}

proof fn lemma_finished(s: Seq<(Seq<char>, DownloadProgress)>, id: Seq<char>, x: Seq<char>)
    requires
        tracker_wf(s),
        running(s, id) > 0,
    ensures
        tracker_wf(finished(s, id)),
        running(finished(s, id), x) == running(s, x) - if x == id { 1int } else { 0int },
{
    let t = finished(s, id);
    let i = index_of(s, id)->0;
    let p = s[i].1;
    if p.active_count == 1 {
        assert(t == s.remove(i));
        assert forall|a: int, b: int| 0 <= a < b < t.len() implies t[a].0 != t[b].0 by {
            let a2 = if a < i { a } else { a + 1 };
            let b2 = if b < i { b } else { b + 1 };
            assert(t[a] == s[a2]);
            assert(t[b] == s[b2]);
        }
        assert forall|a: int| 0 <= a < t.len() implies (#[trigger] t[a]).1.active_count > 0 by {
            let a2 = if a < i { a } else { a + 1 };
            assert(t[a] == s[a2]);
        }
        if x == id {
            if index_of(t, x) is Some {
                let k = index_of(t, x)->0;
                let k2 = if k < i { k } else { k + 1 };
                assert(t[k] == s[k2]);
                lemma_index_unique(s, id, k2);
            }
        } else {
            match index_of(s, x) {
                Some(k) => {
                    assert(k != i);
                    let k1 = if k < i { k } else { k - 1 };
                    assert(t[k1] == s[k]);
                    lemma_index_unique(t, x, k1);
                },
                None => {
                    if index_of(t, x) is Some {
                        let k = index_of(t, x)->0;
                        let k2 = if k < i { k } else { k + 1 };
                        assert(t[k] == s[k2]);
                    }
                },
            }
        }
    } else {
        let q = DownloadProgress { active_count: (p.active_count - 1) as u32, ..p };
        assert(t == s.update(i, (id, q)));
        lemma_index_unique(t, id, i);
        if x != id {
            match index_of(s, x) {
                Some(k) => {
                    assert(k != i);
                    assert(t[k] == s[k]);
                    lemma_index_unique(t, x, k);
                },
                None => {
                    if index_of(t, x) is Some {
                        let k = index_of(t, x)->0;
                        if k != i {
                            assert(t[k] == s[k]);
                        }
                    }
                },
            }
        }
    }
}

proof fn lemma_replay(log: Seq<(bool, Seq<char>)>, now: u64)
    requires
        well_formed_log(log),
    ensures
        tracker_wf(replay(Seq::empty(), log, now)),
        forall|id: Seq<char>| #[trigger] running(replay(Seq::empty(), log, now), id) == balance(log, id),
    decreases log.len(),
{
    let empty = Seq::<(Seq<char>, DownloadProgress)>::empty();
    if log.len() == 0 {
        assert forall|id: Seq<char>| #[trigger] running(replay(empty, log, now), id) == balance(log, id) by {
            assert(index_of(empty, id) is None);
        }
    } else {
        let prev_log = log.drop_last();
        assert forall|k: int, id: Seq<char>| 0 <= k <= prev_log.len() implies 0 <= #[trigger] balance(prev_log.take(k), id) < u32::MAX by {
            assert(prev_log.take(k) =~= log.take(k));
        }
        lemma_replay(prev_log, now);
        let prev = replay(empty, prev_log, now);
        let (start, id) = log.last();
        assert(log.take(log.len() as int) =~= log);
        assert(log.take(prev_log.len() as int) =~= prev_log);
        assert(0 <= balance(log, id) < u32::MAX);
        assert(0 <= balance(prev_log, id) < u32::MAX);
        if start {
            assert forall|x: Seq<char>| #[trigger] running(replay(empty, log, now), x) == balance(log, x) by {
                lemma_started(prev, id, now, x);
            }
            lemma_started(prev, id, now, id);
        } else {
            assert(running(prev, id) == balance(prev_log, id));
            assert(balance(log, id) == balance(prev_log, id) - 1);
            assert forall|x: Seq<char>| #[trigger] running(replay(empty, log, now), x) == balance(log, x) by {
                lemma_finished(prev, id, x);
            }
            lemma_finished(prev, id, id);
        }
    }
}

/// Whatever order the downloads of different items start and end in, the activity counts
/// for each item the downloads that started and have not ended yet; once every download
/// that started has ended, nothing is listed any more.
pub proof fn activity_counts_running_downloads(log: Seq<(bool, Seq<char>)>, now: u64)
    requires
        well_formed_log(log),
    ensures
        tracker_wf(replay(Seq::empty(), log, now)),
        forall|id: Seq<char>| #[trigger] running(replay(Seq::empty(), log, now), id) == balance(log, id),
        (forall|id: Seq<char>| #[trigger] balance(log, id) == 0) ==> replay(Seq::empty(), log, now).len() == 0,
{
    lemma_replay(log, now);
    let s = replay(Seq::empty(), log, now);
    if (forall|id: Seq<char>| #[trigger] balance(log, id) == 0) && s.len() > 0 {
        let id = s[0].0;
        lemma_index_unique(s, id, 0);
        assert(running(s, id) == s[0].1.active_count);
        assert(balance(log, id) == 0);
    }
}

} // verus!
