//! Captured guest output.
//!
//! During a run, two reader threads drain the guest's standard output
//! and standard error into one shared buffer, appending one chunk at a
//! time under a lock, in whatever order the readers get to run. This
//! module holds the append operation itself, the replay of such a
//! drain under an arbitrary schedule — shown to lose, duplicate and
//! reorder nothing — and the timeout notice appended to the buffer
//! when a run was cut short.

use vstd::prelude::*;

verus! {

/// Appends a chunk read from one of the guest's streams to the shared
/// output buffer.
pub fn append(into: &mut Vec<u8>, chunk: &[u8])
    ensures
        final(into)@ == old(into)@ + chunk@,
{
    let mut i: usize = 0;
    while i < chunk.len()
        invariant
            i <= chunk.len(),
            into@ == old(into)@ + chunk@.take(i as int),
        decreases chunk.len() - i,
    {
        into.push(chunk[i]);
        proof {
            assert(chunk@.take(i + 1) =~= chunk@.take(i as int).push(chunk@[i as int]));
            assert(into@ =~= old(into)@ + chunk@.take(i + 1));
        }
        i = i + 1;
    }
    proof {
        assert(chunk@.take(chunk@.len() as int) =~= chunk@);
    }
}

/// The fixed human-readable notice appended to the captured output
/// when the timeout fired, so downstream consumers can see the cut
/// from the byte stream alone.
pub open spec fn spec_timeout_marker() -> Seq<u8> {
    seq![10u8, 116u8, 105u8, 109u8, 101u8, 111u8, 117u8, 116u8, 32u8, 116u8, 114u8, 105u8, 103u8, 103u8, 101u8, 114u8, 101u8, 100u8, 33u8]
}

/// Builds the timeout notice.
pub fn timeout_marker() -> (r: Vec<u8>)
    ensures
        r@ == spec_timeout_marker(),
{
    let mut r: Vec<u8> = Vec::new();
    r.push(10);
    r.push(116);
    r.push(105);
    r.push(109);
    r.push(101);
    r.push(111);
    r.push(117);
    r.push(116);
    r.push(32);
    r.push(116);
    r.push(114);
    r.push(105);
    r.push(103);
    r.push(103);
    r.push(101);
    r.push(114);
    r.push(101);
    r.push(100);
    r.push(33);
    proof {
        assert(r@ =~= spec_timeout_marker());
    }
    r
}

/// Finishes a run's captured output: when the timed-out flag is set,
/// the timeout notice is appended; otherwise the output is returned
/// unchanged.
pub fn finish_output(output: Vec<u8>, timed_out: bool) -> (r: Vec<u8>)
    ensures
        timed_out ==> r@ == output@ + spec_timeout_marker(),
        !timed_out ==> r@ == output@,
{
    let mut out = output;
    if timed_out {
        let marker = timeout_marker();
        append(&mut out, marker.as_slice());
    }
    out
}

/// Whether `s` is an interleaving of `a` and `b`: every byte of `s`
/// comes from exactly one of the two, each stream is consumed front to
/// back, and nothing else appears. This is at once order preservation
/// within each stream and the absence of loss and duplication.
pub open spec fn is_interleaving(s: Seq<u8>, a: Seq<u8>, b: Seq<u8>) -> bool
    decreases s.len(),
{
    if s.len() == 0 {
        a.len() == 0 && b.len() == 0
    } else {
        ||| (a.len() > 0 && s.first() == a.first() && is_interleaving(
            s.drop_first(),
            a.drop_first(),
            b,
        ))
        ||| (b.len() > 0 && s.first() == b.first() && is_interleaving(
            s.drop_first(),
            a,
            b.drop_first(),
        ))
    }
}

/// An interleaving holds exactly the bytes of both streams: nothing is
/// lost and nothing is duplicated.
pub proof fn lemma_interleaving_len(s: Seq<u8>, a: Seq<u8>, b: Seq<u8>)
    requires
        is_interleaving(s, a, b),
    ensures
        s.len() == a.len() + b.len(),
    decreases s.len(),
{
    if s.len() > 0 {
        if a.len() > 0 && s.first() == a.first() && is_interleaving(
            s.drop_first(),
            a.drop_first(),
            b,
        ) {
            lemma_interleaving_len(s.drop_first(), a.drop_first(), b);
        } else {
            lemma_interleaving_len(s.drop_first(), a, b.drop_first());
        }
    }
}

/// A stream is an interleaving of itself and nothing.
proof fn lemma_interleave_self(c: Seq<u8>, b: Seq<u8>)
    requires
        b.len() == 0,
    ensures
        is_interleaving(c, c, b),
    decreases c.len(),
{
    if c.len() > 0 {
        lemma_interleave_self(c.drop_first(), b);
    }
}

/// Appending a chunk to the buffer and to the first stream preserves
/// the interleaving.
proof fn lemma_interleaving_extend_first(s: Seq<u8>, a: Seq<u8>, b: Seq<u8>, c: Seq<u8>)
    requires
        is_interleaving(s, a, b),
    ensures
        is_interleaving(s + c, a + c, b),
    decreases s.len(),
{
    if s.len() == 0 {
        assert(s + c =~= c);
        assert(a + c =~= c);
        lemma_interleave_self(c, b);
    } else {
        assert((s + c).drop_first() =~= s.drop_first() + c);
        if a.len() > 0 && s.first() == a.first() && is_interleaving(
            s.drop_first(),
            a.drop_first(),
            b,
        ) {
            lemma_interleaving_extend_first(s.drop_first(), a.drop_first(), b, c);
            assert((a + c).drop_first() =~= a.drop_first() + c);
            assert((a + c).first() == a.first());
            assert((s + c).first() == s.first());
        } else {
            lemma_interleaving_extend_first(s.drop_first(), a, b.drop_first(), c);
            assert((s + c).first() == s.first());
        }
    }
}

/// Appending a chunk to the buffer and to the second stream preserves
/// the interleaving.
proof fn lemma_interleaving_extend_second(s: Seq<u8>, a: Seq<u8>, b: Seq<u8>, c: Seq<u8>)
    requires
        is_interleaving(s, a, b),
    ensures
        is_interleaving(s + c, a, b + c),
    decreases s.len(),
{
    if s.len() == 0 {
        assert(s + c =~= c);
        assert(b + c =~= c);
        lemma_interleave_self_second(c, a);
    } else {
        assert((s + c).drop_first() =~= s.drop_first() + c);
        if a.len() > 0 && s.first() == a.first() && is_interleaving(
            s.drop_first(),
            a.drop_first(),
            b,
        ) {
            lemma_interleaving_extend_second(s.drop_first(), a.drop_first(), b, c);
            assert((s + c).first() == s.first());
        } else {
            lemma_interleaving_extend_second(s.drop_first(), a, b.drop_first(), c);
            assert((b + c).drop_first() =~= b.drop_first() + c);
            assert((b + c).first() == b.first());
            assert((s + c).first() == s.first());
        }
    }
}

/// A stream is an interleaving of nothing and itself.
proof fn lemma_interleave_self_second(c: Seq<u8>, a: Seq<u8>)
    requires
        a.len() == 0,
    ensures
        is_interleaving(c, a, c),
    decreases c.len(),
{
    if c.len() > 0 {
        lemma_interleave_self_second(c.drop_first(), a);
    }
}

/// The chunks of one stream, in order, as one byte sequence.
pub open spec fn flatten_chunks(chunks: Seq<Seq<u8>>) -> Seq<u8>
    decreases chunks.len(),
{
    if chunks.len() == 0 {
        Seq::empty()
    } else {
        flatten_chunks(chunks.drop_last()) + chunks.last()
    }
}

/// How many entries of a schedule pick the first stream.
pub open spec fn count_true(s: Seq<bool>) -> int
    decreases s.len(),
{
    if s.len() == 0 {
        0
    } else {
        count_true(s.drop_last()) + if s.last() {
            1int
        } else {
            0int
        }
    }
}

proof fn lemma_count_true_take(s: Seq<bool>, k: int)
    requires
        0 <= k <= s.len(),
    ensures
        count_true(s.take(k)) <= count_true(s),
        count_true(s) - count_true(s.take(k)) <= s.len() - k,
        0 <= count_true(s.take(k)) <= k,
    decreases s.len() - k,
{
    lemma_count_true_bounds(s.take(k));
    if k == s.len() {
        assert(s.take(k) =~= s);
        lemma_count_true_bounds(s);
    } else {
        assert(s.take(k + 1).drop_last() =~= s.take(k));
        assert(s.take(k + 1).last() == s[k]);
        lemma_count_true_take(s, k + 1);
    }
}

proof fn lemma_count_true_bounds(s: Seq<bool>)
    ensures
        0 <= count_true(s) <= s.len(),
    decreases s.len(),
{
    if s.len() > 0 {
        lemma_count_true_bounds(s.drop_last());
    }
}

/// Replays what the two reader threads jointly do to the shared
/// buffer: `schedule` gives the order in which the readers got the
/// lock — `true` means the reader of the first stream appended its
/// next chunk, `false` the reader of the second. Whatever that order
/// was, the buffer ends up a complete interleaving of the two streams:
/// every byte of both, each stream in order, nothing lost or
/// duplicated.
pub fn drain_streams(a_chunks: &Vec<Vec<u8>>, b_chunks: &Vec<Vec<u8>>, schedule: &Vec<bool>) -> (sink:
    Vec<u8>)
    requires
        count_true(schedule@) == a_chunks@.len(),
        schedule@.len() - count_true(schedule@) == b_chunks@.len(),
    ensures
        is_interleaving(
            sink@,
            flatten_chunks(a_chunks.deep_view()),
            flatten_chunks(b_chunks.deep_view()),
        ),
        sink@.len() == flatten_chunks(a_chunks.deep_view()).len() + flatten_chunks(
            b_chunks.deep_view(),
        ).len(),
{
    let mut sink: Vec<u8> = Vec::new();
    let mut ai: usize = 0;
    let mut bi: usize = 0;
    let mut k: usize = 0;
    proof {
        assert(is_interleaving(
            sink@,
            flatten_chunks(a_chunks.deep_view().take(0)),
            flatten_chunks(b_chunks.deep_view().take(0)),
        ));
    }
    while k < schedule.len()
        invariant
            k <= schedule@.len(),
            ai <= a_chunks@.len(),
            bi <= b_chunks@.len(),
            count_true(schedule@) == a_chunks@.len(),
            schedule@.len() - count_true(schedule@) == b_chunks@.len(),
            a_chunks.deep_view().len() == a_chunks@.len(),
            b_chunks.deep_view().len() == b_chunks@.len(),
            ai == count_true(schedule@.take(k as int)),
            bi == k - ai,
            is_interleaving(
                sink@,
                flatten_chunks(a_chunks.deep_view().take(ai as int)),
                flatten_chunks(b_chunks.deep_view().take(bi as int)),
            ),
        decreases schedule.len() - k,
    {
        proof {
            assert(schedule@.take(k + 1).drop_last() =~= schedule@.take(k as int));
            assert(schedule@.take(k + 1).last() == schedule@[k as int]);
            lemma_count_true_take(schedule@, k + 1);
        }
        if schedule[k] {
            proof {
                assert(count_true(schedule@.take(k + 1)) == ai + 1);
            }
            let chunk = &a_chunks[ai];
            let ghost sink0 = sink@;
            append(&mut sink, chunk.as_slice());
            proof {
                let dv = a_chunks.deep_view();
                assert(dv[ai as int] =~= a_chunks@[ai as int]@);
                assert(dv.take(ai + 1).drop_last() =~= dv.take(ai as int));
                assert(flatten_chunks(dv.take(ai + 1)) == flatten_chunks(dv.take(ai as int))
                    + dv[ai as int]);
                lemma_interleaving_extend_first(
                    sink0,
                    flatten_chunks(dv.take(ai as int)),
                    flatten_chunks(b_chunks.deep_view().take(bi as int)),
                    dv[ai as int],
                );
            }
            ai = ai + 1;
        } else {
            proof {
                assert(count_true(schedule@.take(k + 1)) == ai);
            }
            let chunk = &b_chunks[bi];
            let ghost sink0 = sink@;
            append(&mut sink, chunk.as_slice());
            proof {
                let dv = b_chunks.deep_view();
                assert(dv[bi as int] =~= b_chunks@[bi as int]@);
                assert(dv.take(bi + 1).drop_last() =~= dv.take(bi as int));
                assert(flatten_chunks(dv.take(bi + 1)) == flatten_chunks(dv.take(bi as int))
                    + dv[bi as int]);
                lemma_interleaving_extend_second(
                    sink0,
                    flatten_chunks(a_chunks.deep_view().take(ai as int)),
                    flatten_chunks(dv.take(bi as int)),
                    dv[bi as int],
                );
            }
            bi = bi + 1;
        }
        k = k + 1;
    }
    proof {
        lemma_count_true_take(schedule@, schedule@.len() as int);
        assert(schedule@.take(schedule@.len() as int) =~= schedule@);
        assert(ai == a_chunks@.len() && bi == b_chunks@.len());
        assert(a_chunks.deep_view().take(ai as int) =~= a_chunks.deep_view());
        assert(b_chunks.deep_view().take(bi as int) =~= b_chunks.deep_view());
        lemma_interleaving_len(
            sink@,
            flatten_chunks(a_chunks.deep_view()),
            flatten_chunks(b_chunks.deep_view()),
        );
    }
    sink
}

} // verus!
