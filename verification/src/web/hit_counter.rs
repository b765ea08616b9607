//! The write-behind hit counter: hits are merged in memory, per code, and
//! written to storage in one go.

use crate::data::model::ClipRow;
use crate::data::{Database, Tables};
use crate::service::action;
use crate::ShortCode;
use vstd::prelude::*;

verus! {

/// What the counter is told.
#[derive(Debug)]
pub enum HitCountMsg {
    /// Write the pending counts to storage.
    Commit,
    /// The clip under the code was read that many times.
    Hit(ShortCode, u32),
}

/// The hits that wait to be written, per code. No code is held twice.
#[derive(Debug)]
pub struct HitCounter {
    pending: Vec<(ShortCode, u32)>,
}

/// Whether `code` is the code of the entry at `i`.
spec fn held_at(entries: Seq<(ShortCode, u32)>, i: int, code: Seq<char>) -> bool {
    0 <= i < entries.len() && entries[i].0@ == code
}

/// The counts of the entries by their code.
spec fn tally(entries: Seq<(ShortCode, u32)>) -> Map<Seq<char>, nat> {
    Map::new(
        |code: Seq<char>| exists|i: int| held_at(entries, i, code),
        |code: Seq<char>| entries[choose|i: int| held_at(entries, i, code)].1 as nat,
    )
}

/// No two entries share a code.
pub open spec fn codes_distinct(entries: Seq<(ShortCode, u32)>) -> bool {
    forall|i: int, j: int| 0 <= i < j < entries.len() ==> entries[i].0@ != entries[j].0@
}

/// The entries hold exactly the counts of `pending`: each entry is a count
/// of `pending`, and each code of `pending` has an entry.
pub open spec fn holds(entries: Seq<(ShortCode, u32)>, pending: Map<Seq<char>, nat>) -> bool {
    &&& codes_distinct(entries)
    &&& forall|i: int|
        0 <= i < entries.len() ==> pending.dom().contains(#[trigger] entries[i].0@)
            && pending[entries[i].0@] == entries[i].1
    &&& forall|code: Seq<char>| #[trigger]
        pending.dom().contains(code) ==> exists|i: int|
            0 <= i < entries.len() && #[trigger] entries[i].0@ == code
}

/// The hits that wait for `code`: none where the code has no entry.
pub open spec fn waiting(pending: Map<Seq<char>, nat>, code: Seq<char>) -> nat {
    if pending.dom().contains(code) {
        pending[code]
    } else {
        0
    }
}

/// The most hits that can wait for one code.
pub const MOST_WAITING: u32 = u32::MAX;

/// What is pending after `count` hits for `code` are merged in. Counting is
/// best effort: what waits for a code stops growing at [`MOST_WAITING`].
pub open spec fn merged(pending: Map<Seq<char>, nat>, code: Seq<char>, count: nat) -> Map<
    Seq<char>,
    nat,
> {
    if waiting(pending, code) + count <= MOST_WAITING {
        pending.insert(code, waiting(pending, code) + count)
    } else {
        pending.insert(code, MOST_WAITING as nat)
    }
}

/// An entry of the sequence is in the tally, under its code.
proof fn lemma_entry(entries: Seq<(ShortCode, u32)>, i: int)
    requires
        codes_distinct(entries),
        0 <= i < entries.len(),
    ensures
        tally(entries).dom().contains(entries[i].0@),
        tally(entries)[entries[i].0@] == entries[i].1,
{
    let code = entries[i].0@;
    assert(held_at(entries, i, code));
    let j = choose|j: int| held_at(entries, j, code);
    if j < i {
        assert(entries[j].0@ != entries[i].0@);
    } else if i < j {
        assert(entries[i].0@ != entries[j].0@);
    }
}

/// Distinct entries hold their tally.
proof fn lemma_holds(entries: Seq<(ShortCode, u32)>)
    requires
        codes_distinct(entries),
    ensures
        holds(entries, tally(entries)),
{
    assert forall|i: int| 0 <= i < entries.len() implies tally(entries).dom().contains(
        #[trigger] entries[i].0@,
    ) && tally(entries)[entries[i].0@] == entries[i].1 by {
        lemma_entry(entries, i);
    }
    assert forall|code: Seq<char>| #[trigger] tally(entries).dom().contains(code) implies exists|
        i: int,
    |
        0 <= i < entries.len() && #[trigger] entries[i].0@ == code by {
        let i = choose|i: int| held_at(entries, i, code);
        assert(entries[i].0@ == code);
    }
}

/// An entry added at the end is a count inserted into the tally.
proof fn lemma_entry_push(entries: Seq<(ShortCode, u32)>, entry: (ShortCode, u32))
    requires
        codes_distinct(entries.push(entry)),
    ensures
        tally(entries.push(entry)) == tally(entries).insert(entry.0@, entry.1 as nat),
{
    let more = entries.push(entry);
    let m1 = tally(more);
    let m2 = tally(entries).insert(entry.0@, entry.1 as nat);
    assert forall|code: Seq<char>| m1.dom().contains(code) <==> m2.dom().contains(code) by {
        if m1.dom().contains(code) {
            let i = choose|i: int| held_at(more, i, code);
            if i < entries.len() {
                assert(more[i] == entries[i]);
                assert(held_at(entries, i, code));
            }
        }
        if m2.dom().contains(code) {
            if code == entry.0@ {
                assert(held_at(more, entries.len() as int, code));
            } else {
                let i = choose|i: int| held_at(entries, i, code);
                assert(more[i] == entries[i]);
                assert(held_at(more, i, code));
            }
        }
    }
    assert(m1.dom() =~= m2.dom());
    assert forall|code: Seq<char>| m1.dom().contains(code) implies m1[code] == m2[code] by {
        if code == entry.0@ {
            lemma_entry(more, entries.len() as int);
        } else {
            let i = choose|i: int| held_at(entries, i, code);
            assert(more[i] == entries[i]);
            assert forall|a: int, b: int| 0 <= a < b < entries.len() implies entries[a].0@
                != entries[b].0@ by {
                assert(more[a] == entries[a] && more[b] == entries[b]);
            }
            lemma_entry(entries, i);
            lemma_entry(more, i);
        }
    }
    assert(m1 =~= m2);
}

/// An entry that takes the place of one with the same code overwrites its
/// count in the tally.
proof fn lemma_entry_update(entries: Seq<(ShortCode, u32)>, i: int, entry: (ShortCode, u32))
    requires
        codes_distinct(entries),
        0 <= i < entries.len(),
        entry.0@ == entries[i].0@,
    ensures
        codes_distinct(entries.update(i, entry)),
        tally(entries.update(i, entry)) == tally(entries).insert(entry.0@, entry.1 as nat),
{
    let next = entries.update(i, entry);
    let m1 = tally(next);
    let m2 = tally(entries).insert(entry.0@, entry.1 as nat);
    assert forall|a: int, b: int| 0 <= a < b < next.len() implies next[a].0@ != next[b].0@ by {
        assert(next[a].0@ == entries[a].0@ && next[b].0@ == entries[b].0@);
    }
    assert forall|code: Seq<char>| m1.dom().contains(code) <==> m2.dom().contains(code) by {
        if m1.dom().contains(code) {
            let a = choose|a: int| held_at(next, a, code);
            assert(next[a].0@ == entries[a].0@);
            assert(held_at(entries, a, code));
        }
        if m2.dom().contains(code) {
            if code == entry.0@ {
                assert(held_at(next, i, code));
            } else {
                let a = choose|a: int| held_at(entries, a, code);
                assert(next[a].0@ == entries[a].0@);
                assert(held_at(next, a, code));
            }
        }
    }
    assert(m1.dom() =~= m2.dom());
    assert forall|code: Seq<char>| m1.dom().contains(code) implies m1[code] == m2[code] by {
        let a = choose|a: int| held_at(next, a, code);
        lemma_entry(next, a);
        if a != i {
            assert(next[a] == entries[a]);
            lemma_entry(entries, a);
            if a < i {
                assert(entries[a].0@ != entries[i].0@);
            } else {
                assert(entries[i].0@ != entries[a].0@);
            }
        }
    }
    assert(m1 =~= m2);
}

impl View for HitCounter {
    type V = Map<Seq<char>, nat>;

    closed spec fn view(&self) -> Map<Seq<char>, nat> {
        tally(self.pending@)
    }
}

impl Tables {
    /// The tables after the pending counts are written: each stored clip
    /// has the hits more that wait for its code. Counts for codes that are
    /// not stored are dropped, and so is a count that would take a clip's
    /// hits out of their range.
    pub open spec fn flushed(self, pending: Map<Seq<char>, nat>) -> Tables {
        Tables {
            clips: Map::new(
                |code: Seq<char>| self.clips.dom().contains(code),
                |code: Seq<char>| self.clips[code].counted(waiting(pending, code)),
            ),
            ..self
        }
    }
}

impl ClipRow {
    /// The row with `hits` more hits, where the count stays in range.
    pub open spec fn counted(self, hits: nat) -> ClipRow {
        if self.hits + hits <= i64::MAX {
            ClipRow { hits: (self.hits + hits) as i64, ..self }
        } else {
            self
        }
    }
}

impl HitCounter {
    #[verifier::type_invariant]
    spec fn distinct(self) -> bool {
        codes_distinct(self.pending@)
    }

    /// A counter with nothing pending.
    pub fn new() -> (r: Self)
        ensures
            r@ == Map::<Seq<char>, nat>::empty(),
    {
        let r = HitCounter { pending: Vec::new() };
        assert(r@ =~= Map::<Seq<char>, nat>::empty());
        r
    }

    /// Takes the entries out, leaving nothing pending for the moment.
    fn take(&mut self) -> (entries: Vec<(ShortCode, u32)>)
        ensures
            entries@ == old(self).pending@,
            codes_distinct(entries@),
            final(self).pending@.len() == 0,
    {
        proof {
            use_type_invariant(&*self);
        }
        let mut entries: Vec<(ShortCode, u32)> = Vec::new();
        core::mem::swap(&mut self.pending, &mut entries);
        entries
    }

    /// Puts entries in place of those that are pending.
    fn put(&mut self, entries: Vec<(ShortCode, u32)>)
        requires
            codes_distinct(entries@),
        ensures
            final(self).pending == entries,
    {
        self.pending = entries;
    }

    /// Merges `count` hits into what waits for the code; a code that has no
    /// entry gets one. The call never fails and never waits for storage.
    pub fn hit(&mut self, shortcode: ShortCode, count: u32)
        ensures
            final(self)@ == merged(old(self)@, shortcode@, count as nat),
    {
        let mut entries = self.take();
        let ghost before = entries@;
        let mut i: usize = 0;
        let mut found = false;
        while i < entries.len() && !found
            invariant
                entries@ == before,
                codes_distinct(before),
                i <= before.len(),
                found ==> held_at(before, i as int, shortcode@),
                forall|j: int| 0 <= j < i ==> !held_at(before, j, shortcode@),
            decreases before.len() - i + if found { 0int } else { 1int },
        {
            if entries[i].0 == shortcode {
                found = true;
            } else {
                i += 1;
            }
        }
        if found {
            proof {
                lemma_entry(before, i as int);
            }
            let waits = entries[i].1;
            let total = if count <= MOST_WAITING - waits {
                waits + count
            } else {
                MOST_WAITING
            };
            proof {
                lemma_entry_update(before, i as int, (shortcode, total));
            }
            entries[i] = (shortcode, total);
        } else {
            proof {
                let more = before.push((shortcode, count));
                assert forall|a: int, b: int| 0 <= a < b < more.len() implies more[a].0@
                    != more[b].0@ by {
                    if b == before.len() {
                        assert(!held_at(before, a, shortcode@));
                    }
                }
                lemma_entry_push(before, (shortcode, count));
            }
            entries.push((shortcode, count));
        }
        self.put(entries);
    }

    /// Takes out everything that is pending: one entry per code, with the
    /// hits that waited for it. Nothing is pending afterwards.
    pub fn drain(&mut self) -> (entries: Vec<(ShortCode, u32)>)
        ensures
            holds(entries@, old(self)@),
            final(self)@ == Map::<Seq<char>, nat>::empty(),
    {
        let entries = self.take();
        proof {
            lemma_holds(entries@);
            assert(final(self)@ =~= Map::<Seq<char>, nat>::empty());
        }
        entries
    }

    /// Writes everything that is pending to storage, one increment per
    /// code, and leaves nothing pending. An increment that fails is dropped
    /// and does not keep the others from being written.
    pub fn commit_hits(&mut self, db: &mut Database)
        ensures
            final(self)@ == Map::<Seq<char>, nat>::empty(),
            final(db)@ == old(db)@.flushed(old(self)@),
            final(db)@.wf(),
    {
        let ghost pending = self@;
        let entries = self.drain();
        flush(&entries, db, Ghost(pending));
    }

    /// Does what the counter is told: merges a hit, or writes what is
    /// pending to storage.
    pub fn process_msg(&mut self, msg: HitCountMsg, db: &mut Database)
        ensures
            match msg {
                HitCountMsg::Commit => final(self)@ == Map::<Seq<char>, nat>::empty()
                    && final(db)@ == old(db)@.flushed(old(self)@),
                HitCountMsg::Hit(shortcode, count) => final(self)@ == merged(
                    old(self)@,
                    shortcode@,
                    count as nat,
                ) && final(db)@ == old(db)@,
            },
    {
        match msg {
            HitCountMsg::Commit => self.commit_hits(db),
            HitCountMsg::Hit(shortcode, count) => self.hit(shortcode, count),
        }
    }
}

/// Writes drained entries to storage, one increment per entry.
fn flush(entries: &Vec<(ShortCode, u32)>, db: &mut Database, Ghost(pending): Ghost<Map<Seq<char>, nat>>)
    requires
        holds(entries@, pending),
    ensures
        final(db)@ == old(db)@.flushed(pending),
        final(db)@.wf(),
{
    let ghost start = db@;
    let mut i: usize = 0;
    db.tables_are_well_formed();
    proof {
        assert(start.flushed(tally(entries@.take(0))) =~= start);
    }
    while i < entries.len()
        invariant
            holds(entries@, pending),
            i <= entries@.len(),
            start.wf(),
            db@.wf(),
            db@ == start.flushed(tally(entries@.take(i as int))),
        decreases entries@.len() - i,
    {
        let ghost done = entries@.take(i as int);
        let ghost next = entries@.take(i + 1);
        proof {
            assert(next == done.push(entries@[i as int]));
            assert forall|a: int, b: int| 0 <= a < b < next.len() implies next[a].0@
                != next[b].0@ by {
                assert(next[a] == entries@[a] && next[b] == entries@[b]);
            }
            lemma_entry_push(done, entries@[i as int]);
            assert(!tally(done).dom().contains(entries@[i as int].0@)) by {
                if tally(done).dom().contains(entries@[i as int].0@) {
                    let j = choose|j: int| held_at(done, j, entries@[i as int].0@);
                    assert(done[j] == entries@[j]);
                }
            }
        }
        let _ = action::increase_hit_count(&entries[i].0, entries[i].1 as i64, db);
        assert(db@ =~= start.flushed(tally(next))) by {
            assert(db@.api_keys == start.api_keys);
            assert(db@.clips =~= start.flushed(tally(next)).clips);
        }
        i += 1;
    }
    proof {
        assert(entries@.take(entries@.len() as int) == entries@);
        assert(tally(entries@) =~= pending) by {
            lemma_holds(entries@);
            assert forall|code: Seq<char>| tally(entries@).dom().contains(code)
                <==> pending.dom().contains(code) by {
                if tally(entries@).dom().contains(code) {
                    let j = choose|j: int| held_at(entries@, j, code);
                    assert(pending.dom().contains(entries@[j].0@));
                }
                if pending.dom().contains(code) {
                    let j = choose|j: int| 0 <= j < entries@.len() && #[trigger] entries@[j].0@ == code;
                    assert(held_at(entries@, j, code));
                }
            }
            assert(tally(entries@).dom() =~= pending.dom());
            assert forall|code: Seq<char>| tally(entries@).dom().contains(code) implies tally(
                entries@,
            )[code] == pending[code] by {
                let j = choose|j: int| held_at(entries@, j, code);
                lemma_entry(entries@, j);
            }
        }
    }
}

/// The order in which two hits arrive makes no difference to what is
/// pending: hits that race for the counter are merged the same either way.
pub proof fn lemma_hits_commute(
    pending: Map<Seq<char>, nat>,
    first: Seq<char>,
    count: nat,
    second: Seq<char>,
    other: nat,
)
    ensures
        merged(merged(pending, first, count), second, other) == merged(
            merged(pending, second, other),
            first,
            count,
        ),
{
    assert(merged(merged(pending, first, count), second, other) =~= merged(
        merged(pending, second, other),
        first,
        count,
    ));
}

/// What is pending after `n` hits of one each for `code` are merged in, one
/// after the other.
pub open spec fn hit_times(pending: Map<Seq<char>, nat>, code: Seq<char>, n: nat) -> Map<
    Seq<char>,
    nat,
>
    decreases n,
{
    if n == 0 {
        pending
    } else {
        merged(hit_times(pending, code, (n - 1) as nat), code, 1)
    }
}

/// Hits are neither lost nor counted twice while they wait: after `n` hits
/// of one each, `n` more wait for the code, and what waits for any other
/// code is what waited before. This holds as long as no more than
/// [`MOST_WAITING`] hits wait for the code.
pub proof fn lemma_hits_accumulate(
    pending: Map<Seq<char>, nat>,
    code: Seq<char>,
    n: nat,
    other: Seq<char>,
)
    requires
        waiting(pending, code) + n <= MOST_WAITING,
    ensures
        waiting(hit_times(pending, code, n), code) == waiting(pending, code) + n,
        other != code ==> waiting(hit_times(pending, code, n), other) == waiting(pending, other),
    decreases n,
{
    if n > 0 {
        lemma_hits_accumulate(pending, code, (n - 1) as nat, other);
    }
}

/// Hits are neither lost nor counted twice when they are written: after
/// `n` hits of one each and one flush, the stored count of the clip is what
/// it was, plus what waited before, plus `n`. This holds as long as no more
/// than [`MOST_WAITING`] hits wait for the code and the stored count stays
/// in its range.
pub proof fn lemma_flush_writes_every_hit(
    tables: Tables,
    pending: Map<Seq<char>, nat>,
    code: Seq<char>,
    n: nat,
)
    requires
        tables.clips.dom().contains(code),
        waiting(pending, code) + n <= MOST_WAITING,
        tables.clips[code].hits + waiting(pending, code) + n <= i64::MAX,
    ensures
        tables.flushed(hit_times(pending, code, n)).clips[code].hits == tables.clips[code].hits
            + waiting(pending, code) + n,
{
    lemma_hits_accumulate(pending, code, n, code);
}

/// A flush leaves well-formed tables well formed.
pub proof fn lemma_flush_keeps_tables_well_formed(tables: Tables, pending: Map<Seq<char>, nat>)
    requires
        tables.wf(),
    ensures
        tables.flushed(pending).wf(),
{
    let after = tables.flushed(pending);
    assert forall|a: Seq<char>, b: Seq<char>|
        #![trigger after.clips[a], after.clips[b]]
        after.clips.dom().contains(a) && after.clips.dom().contains(b) && after.clips[a].id
            == after.clips[b].id implies a == b by {
        assert(after.clips[a].id == tables.clips[a].id);
        assert(after.clips[b].id == tables.clips[b].id);
    }
}

/// A flush changes hit counts and nothing else: the same codes are stored,
/// each row differs from what it was in its hit count at most, and a clip
/// for which nothing waits is untouched.
pub proof fn lemma_flush_changes_hits_only(
    tables: Tables,
    pending: Map<Seq<char>, nat>,
    code: Seq<char>,
)
    requires
        tables.clips.dom().contains(code),
    ensures
        tables.flushed(pending).clips.dom() == tables.clips.dom(),
        tables.flushed(pending).clips[code] == (ClipRow {
            hits: tables.flushed(pending).clips[code].hits,
            ..tables.clips[code]
        }),
        tables.flushed(pending).clips[code].hits >= tables.clips[code].hits,
        waiting(pending, code) == 0 ==> tables.flushed(pending).clips[code] == tables.clips[code],
{
    assert(tables.flushed(pending).clips.dom() =~= tables.clips.dom());
}

} // verus!
