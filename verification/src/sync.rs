//! Magic-word resynchronization: a single-counter automaton that scans the
//! byte FIFO for the eight-byte magic word, consuming every byte up to and
//! including the match. The laws at the bottom show the automaton complete:
//! it finds the first occurrence of the magic word in the scanned bytes and
//! never consumes past it, even when partial matches overlap the real one.

use crate::types::magic_seq;
use std::collections::VecDeque;
use vstd::prelude::*;

verus! {

/// One automaton step: the partial-match length after seeing byte `b` with
/// `m` bytes of the magic word already matched. A byte that breaks a partial
/// match but itself opens a new one (it equals the magic word's first byte)
/// restarts the counter at 1, so overlapping occurrences are not lost.
pub open spec fn sync_step(m: int, b: u8) -> int {
    if 0 <= m < 8 && b == magic_seq()[m] {
        m + 1
    } else if b == magic_seq()[0] {
        1
    } else {
        0
    }
}

/// The automaton run over `s` from state `m`, halting at the first full
/// match: (found, bytes consumed, final state).
pub open spec fn sync_run(s: Seq<u8>, m: int) -> (bool, int, int)
    decreases s.len(),
{
    if s.len() == 0 {
        (false, 0, m)
    } else {
        let m2 = sync_step(m, s[0]);
        if m2 == 8 {
            (true, 1, 8)
        } else {
            let r = sync_run(s.subrange(1, s.len() as int), m2);
            (r.0, 1 + r.1, r.2)
        }
    }
}

/// The magic word occurs in `s` starting at position `i`.
pub open spec fn magic_at(s: Seq<u8>, i: int) -> bool {
    &&& 0 <= i
    &&& i + 8 <= s.len()
    &&& s.subrange(i, i + 8) == magic_seq()
}

/// The byte of the magic word expected at partial-match position `i`.
fn magic_byte(i: usize) -> (r: u8)
    requires
        i < 8,
    ensures
        r == magic_seq()[i as int],
{
    if i == 0 {
        0x02
    } else if i == 1 {
        0x01
    } else if i == 2 {
        0x04
    } else if i == 3 {
        0x03
    } else if i == 4 {
        0x06
    } else if i == 5 {
        0x05
    } else if i == 6 {
        0x08
    } else {
        0x07
    }
}

/// One executable automaton step.
pub fn sync_step_exec(m: usize, b: u8) -> (r: usize)
    requires
        m < 8,
    ensures
        r as int == sync_step(m as int, b),
        r <= 8,
{
    if b == magic_byte(m) {
        m + 1
    } else if b == 0x02 {
        proof {
            assert(magic_seq()[0] == 0x02);
        }
        1
    } else {
        proof {
            assert(magic_seq()[0] == 0x02);
        }
        0
    }
}

/// Scan the FIFO for the magic word, starting from a saved partial-match
/// length. Consumes every scanned byte; on a full match it stops right after
/// the match, on exhaustion it reports the partial-match length to resume
/// from once more bytes arrive.
#[verifier::loop_isolation(false)]
pub fn scan_fifo(fifo: &mut VecDeque<u8>, matched: usize) -> (r: (bool, usize))
    requires
        matched < 8,
    ensures
        ({
            let run = sync_run(old(fifo)@, matched as int);
            &&& r.0 == run.0
            &&& r.1 as int == run.2
            &&& r.1 <= 8
            &&& !r.0 ==> r.1 < 8
            &&& final(fifo)@ == old(fifo)@.subrange(run.1, old(fifo)@.len() as int)
            &&& 0 <= run.1 <= old(fifo)@.len()
        }),
{
    let ghost orig: Seq<u8> = fifo@;
    let ghost run0: (bool, int, int) = sync_run(orig, matched as int);
    let ghost mut consumed: int = 0;
    let mut m: usize = matched;
    loop
        invariant
            m < 8,
            0 <= consumed <= orig.len(),
            fifo@ == orig.subrange(consumed, orig.len() as int),
            run0 == sync_run(orig, matched as int),
            run0.0 == sync_run(fifo@, m as int).0,
            run0.1 == consumed + sync_run(fifo@, m as int).1,
            run0.2 == sync_run(fifo@, m as int).2,
        decreases fifo@.len(),
    {
        if fifo.len() == 0 {
            proof {
                assert(fifo@.len() == 0);
                assert(sync_run(fifo@, m as int) == (false, 0int, m as int));
            }
            return (false, m);
        }
        let ghost before: Seq<u8> = fifo@;
        let b = fifo.pop_front().unwrap();
        let ghost rb: (bool, int, int) = sync_run(before, m as int);
        proof {
            assert(before.len() > 0);
            assert(b == before[0]);
            assert(fifo@ =~= before.subrange(1, before.len() as int));
        }
        let m2 = sync_step_exec(m, b);
        proof {
            consumed = consumed + 1;
            assert(fifo@ =~= orig.subrange(consumed, orig.len() as int));
            if m2 == 8 {
                assert(rb == (true, 1int, 8int));
            } else {
                let r2 = sync_run(fifo@, m2 as int);
                assert(rb == (r2.0, 1 + r2.1, r2.2));
            }
        }
        if m2 == 8 {
            return (true, 8);
        }
        m = m2;
    }
}

/// Each byte of the magic word other than the first differs from the first:
/// a new occurrence can only begin where the first byte stands.
proof fn lemma_magic_head_unique()
    ensures
        magic_seq().len() == 8,
        magic_seq()[0] == 0x02,
        forall|j: int| 1 <= j < 8 ==> #[trigger] magic_seq()[j] != magic_seq()[0],
{
    assert(magic_seq()[1] == 0x01);
    assert(magic_seq()[2] == 0x04);
    assert(magic_seq()[3] == 0x03);
    assert(magic_seq()[4] == 0x06);
    assert(magic_seq()[5] == 0x05);
    assert(magic_seq()[6] == 0x08);
    assert(magic_seq()[7] == 0x07);
    assert forall|j: int| 1 <= j < 8 implies #[trigger] magic_seq()[j] != magic_seq()[0] by {
        if j == 1 {
        } else if j == 2 {
        } else if j == 3 {
        } else if j == 4 {
        } else if j == 5 {
        } else if j == 6 {
        } else {
            assert(j == 7);
        }
    }
}

/// The history a partial match of length `m` stands for: the first `m` bytes
/// of the magic word, which are exactly the bytes the automaton last matched.
pub open spec fn history(m: int) -> Seq<u8> {
    magic_seq().subrange(0, m)
}

/// After one step, the new history is a suffix of the old history extended by
/// the byte just seen.
proof fn lemma_step_history(m: int, b: u8)
    requires
        0 <= m < 8,
    ensures
        0 <= sync_step(m, b) <= m + 1,
        history(sync_step(m, b)) == (history(m) + seq![b]).subrange(
            m + 1 - sync_step(m, b),
            m + 1,
        ),
{
    let m2 = sync_step(m, b);
    let ext = history(m) + seq![b];
    assert(ext.len() == m + 1);
    if m2 == m + 1 {
        assert(b == magic_seq()[m]);
        assert(history(m2) =~= ext.subrange(0, m + 1));
    } else if m2 == 1 {
        assert(b == magic_seq()[0]);
        assert(history(1) =~= ext.subrange(m, m + 1));
    } else {
        assert(m2 == 0);
        assert(history(0) =~= ext.subrange(m + 1, m + 1));
    }
}

/// Soundness of the scan, stated over the virtual stream `history(m) + s`:
/// when the run reports a match, the bytes consumed so far end exactly with
/// the magic word.
#[verifier::rlimit(100)]
proof fn lemma_run_sound(s: Seq<u8>, m: int)
    requires
        0 <= m < 8,
    ensures
        ({
            let r = sync_run(s, m);
            &&& 0 <= r.1 <= s.len()
            &&& r.0 ==> r.1 + m >= 8
            &&& r.0 ==> magic_at(history(m) + s.subrange(0, r.1), m + r.1 - 8)
        }),
    decreases s.len(),
{
    let r = sync_run(s, m);
    if s.len() == 0 {
    } else {
        let b = s[0];
        let m2 = sync_step(m, b);
        lemma_step_history(m, b);
        if m2 == 8 {
            assert(m == 7 && b == magic_seq()[7]);
            let t = history(m) + s.subrange(0, 1);
            assert(t =~= magic_seq());
            assert(t.subrange(0, 8) =~= t);
        } else {
            let tail = s.subrange(1, s.len() as int);
            let r2 = sync_run(tail, m2);
            lemma_run_sound(tail, m2);
            if r.0 {
                assert(r2.0 && r.1 == 1 + r2.1);
                let t2 = history(m2) + tail.subrange(0, r2.1);
                assert(magic_at(t2, m2 + r2.1 - 8));
                let t = history(m) + s.subrange(0, r.1);
                // t ends with t2: t == (kept prefix) + t2
                let d = m + 1 - m2;
                assert(t =~= (history(m) + seq![b]).subrange(0, d) + t2);
                let i = m + r.1 - 8;
                assert(i == d + (m2 + r2.1 - 8));
                assert(t.subrange(i, i + 8) =~= t2.subrange(
                    m2 + r2.1 - 8,
                    m2 + r2.1,
                ));
            }
        }
    }
}

/// Completeness of the scan, stated over the virtual stream `history(m) + s`:
/// an occurrence of the magic word at position `i` is found, and the run
/// consumes no byte beyond that occurrence's end.
#[verifier::rlimit(100)]
proof fn lemma_run_complete(s: Seq<u8>, m: int, i: int)
    requires
        0 <= m < 8,
        magic_at(history(m) + s, i),
    ensures
        sync_run(s, m).0,
        m + sync_run(s, m).1 <= i + 8,
    decreases s.len(),
{
    lemma_magic_head_unique();
    let t = history(m) + s;
    if s.len() == 0 {
        assert(i + 8 <= m < 8);
        assert(false);
    } else {
        let b = s[0];
        let m2 = sync_step(m, b);
        lemma_step_history(m, b);
        if m2 == 8 {
            // found on this very byte; i >= 0 gives the bound
        } else {
            let d = m + 1 - m2;
            let tail = s.subrange(1, s.len() as int);
            let t2 = history(m2) + tail;
            // t2 is the suffix of t from position d
            assert(t2 =~= t.subrange(d, t.len() as int));
            // no occurrence can start before d
            assert(t.subrange(i, i + 8)[0] == t[i]);
            assert(t[i] == magic_seq()[0]);
            if i < d {
                if i == 0 {
                    // the current partial match is the occurrence, so the
                    // next byte extends it and nothing is dropped
                    assert(t.subrange(0, 8)[m] == t[m]);
                    assert(t[m] == b);
                    assert(b == magic_seq()[m]);
                    assert(m2 == m + 1 && d == 0);
                    assert(false);
                } else if i < m {
                    assert(t[i] == magic_seq()[i]);
                    assert(false);
                } else if i == m {
                    assert(t[m] == b);
                    if m == 0 {
                        assert(false);
                    } else {
                        assert(b != magic_seq()[m]);
                        assert(m2 == 1 && d == m);
                        assert(false);
                    }
                } else {
                    assert(i >= m + 1 >= d);
                    assert(false);
                }
            }
            assert(i >= d);
            assert(magic_at(t2, i - d)) by {
                assert(t2.subrange(i - d, i - d + 8) =~= t.subrange(i, i + 8));
            }
            lemma_run_complete(tail, m2, i - d);
        }
    }
}

/// Law: if the magic word occurs in a scanned byte sequence, the synchronizer
/// started in its initial state reports a match, the consumed bytes end with
/// a full occurrence, and no byte past the end of any occurrence is consumed.
/// In particular a partial match overlapping the true occurrence never makes
/// the scan skip past it.
pub proof fn lemma_sync_finds_first(s: Seq<u8>, i: int)
    requires
        magic_at(s, i),
    ensures
        sync_run(s, 0).0,
        sync_run(s, 0).1 <= i + 8,
        8 <= sync_run(s, 0).1 <= s.len(),
        magic_at(s, sync_run(s, 0).1 - 8),
{
    let r = sync_run(s, 0);
    assert(history(0) + s =~= s);
    lemma_run_complete(s, 0, i);
    lemma_run_sound(s, 0);
    let t = history(0) + s.subrange(0, r.1);
    assert(t =~= s.subrange(0, r.1));
    assert(magic_at(t, r.1 - 8));
    assert(s.subrange(r.1 - 8, r.1) =~= t.subrange(r.1 - 8, r.1));
}

/// Law: scanning a stream delivered in two pieces, carrying the
/// partial-match state across the boundary, is the same as scanning the
/// whole stream at once. A partial match left unresolved by the first piece
/// is neither lost nor double-counted; with the other laws, a stream reader
/// that refills its FIFO mid-scan still finds the first occurrence.
pub proof fn lemma_sync_run_append(s1: Seq<u8>, s2: Seq<u8>, m: int)
    requires
        0 <= m < 8,
        !sync_run(s1, m).0,
    ensures
        ({
            let r1 = sync_run(s1, m);
            let r2 = sync_run(s2, r1.2);
            let r = sync_run(s1 + s2, m);
            &&& 0 <= r1.2 < 8
            &&& r.0 == r2.0
            &&& r.1 == s1.len() + r2.1
            &&& r.2 == r2.2
        }),
    decreases s1.len(),
{
    if s1.len() == 0 {
        assert(s1 + s2 =~= s2);
    } else {
        let m2 = sync_step(m, s1[0]);
        let t = s1 + s2;
        assert(t[0] == s1[0]);
        assert(m2 != 8);
        assert(0 <= m2 < 8);
        assert(t.subrange(1, t.len() as int) =~= s1.subrange(1, s1.len() as int) + s2);
        lemma_sync_run_append(s1.subrange(1, s1.len() as int), s2, m2);
    }
}

/// Law: if the scan of a whole sequence reports no match, the magic word
/// occurs nowhere in it.
pub proof fn lemma_sync_not_found(s: Seq<u8>)
    requires
        !sync_run(s, 0).0,
    ensures
        forall|i: int| !magic_at(s, i),
{
    assert forall|i: int| !magic_at(s, i) by {
        if magic_at(s, i) {
            lemma_sync_finds_first(s, i);
        }
    }
}

} // verus!
