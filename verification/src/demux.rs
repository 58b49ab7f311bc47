//! Incremental frame demuxer.
//!
//! The decoder process emits still-image frames back to back on its output
//! stream. Each complete frame begins with the two-byte start marker
//! `ff d8` and ends with the first following end marker `ff d9`. The reader
//! loop appends whatever bytes it managed to read to an accumulator and calls
//! [`extract`], which removes every complete frame (together with any garbage
//! in front of it) and leaves partial trailing data for the next call.
//! Correctness does not depend on read chunk size or alignment.

use vstd::prelude::*;

verus! {

/// First byte of both frame markers.
pub const MARKER_LEAD: u8 = 0xff;
/// Second byte of the start-of-frame marker.
pub const START_MARKER_TAIL: u8 = 0xd8;
/// Second byte of the end-of-frame marker.
pub const END_MARKER_TAIL: u8 = 0xd9;

/// The two-byte marker `(MARKER_LEAD, tail)` stands at position `i` of `s`.
pub open spec fn marker_at(s: Seq<u8>, tail: u8, i: int) -> bool {
    &&& 0 <= i
    &&& i + 2 <= s.len()
    &&& s[i] == MARKER_LEAD
    &&& s[i + 1] == tail
}

/// Least position at or after `from` where the marker `(MARKER_LEAD, tail)`
/// stands in `s`, if any.
pub open spec fn find_marker(s: Seq<u8>, tail: u8, from: int) -> Option<int>
    decreases s.len() - from,
{
    if from + 2 > s.len() {
        None
    } else if marker_at(s, tail, from) {
        Some(from)
    } else {
        find_marker(s, tail, from + 1)
    }
}

/// `find_marker` returns the least marker position at or after `from`,
/// and `None` exactly when no such position exists.
pub proof fn lemma_find_marker(s: Seq<u8>, tail: u8, from: int)
    requires
        0 <= from,
    ensures
        match find_marker(s, tail, from) {
            Some(i) => from <= i && marker_at(s, tail, i) && (forall|k: int|
                from <= k < i ==> !marker_at(s, tail, k)),
            None => forall|k: int| from <= k ==> !marker_at(s, tail, k),
        },
    decreases s.len() - from,
{
    if from + 2 > s.len() {
    } else if marker_at(s, tail, from) {
    } else {
        lemma_find_marker(s, tail, from + 1);
        match find_marker(s, tail, from + 1) {
            Some(i) => {
                assert forall|k: int| from <= k < i implies !marker_at(s, tail, k) by {
                    if k != from {
                        assert(from + 1 <= k < i);
                    }
                }
            },
            None => {},
        }
    }
}

/// The complete frames that the demuxer extracts from `s`, in stream order.
/// Each frame runs from a start marker through the first end marker after it.
pub open spec fn demux_frames(s: Seq<u8>) -> Seq<Seq<u8>>
    decreases s.len(),
    via demux_frames_decreases
{
    match find_marker(s, START_MARKER_TAIL, 0) {
        None => Seq::empty(),
        Some(i) => match find_marker(s, END_MARKER_TAIL, i + 2) {
            None => Seq::empty(),
            Some(j) => seq![s.subrange(i, j + 2)] + demux_frames(s.skip(j + 2)),
        },
    }
}

#[via_fn]
proof fn demux_frames_decreases(s: Seq<u8>) {
    lemma_find_marker(s, START_MARKER_TAIL, 0);
    match find_marker(s, START_MARKER_TAIL, 0) {
        Some(i) => {
            lemma_find_marker(s, END_MARKER_TAIL, i + 2);
        },
        None => {},
    }
}

/// What the accumulator holds after the demuxer has drained `s`: the bytes
/// after the last complete frame, trimmed to the final byte when they hold
/// no start marker (a start marker may still begin there), and left whole
/// while a started frame awaits its end marker.
pub open spec fn demux_rest(s: Seq<u8>) -> Seq<u8>
    decreases s.len(),
    via demux_rest_decreases
{
    match find_marker(s, START_MARKER_TAIL, 0) {
        None => if s.len() == 0 {
            s
        } else {
            s.skip(s.len() - 1)
        },
        Some(i) => match find_marker(s, END_MARKER_TAIL, i + 2) {
            None => s,
            Some(j) => demux_rest(s.skip(j + 2)),
        },
    }
}

#[via_fn]
proof fn demux_rest_decreases(s: Seq<u8>) {
    lemma_find_marker(s, START_MARKER_TAIL, 0);
    match find_marker(s, START_MARKER_TAIL, 0) {
        Some(i) => {
            lemma_find_marker(s, END_MARKER_TAIL, i + 2);
        },
        None => {},
    }
}

/// The views of a sequence of byte vectors.
pub open spec fn views_of(frames: Seq<Vec<u8>>) -> Seq<Seq<u8>> {
    frames.map_values(|f: Vec<u8>| f@)
}

/// A marker position below `from` that no earlier position matches pins
/// `find_marker` down exactly.
proof fn lemma_find_marker_unique(s: Seq<u8>, tail: u8, from: int, i: int)
    requires
        0 <= from <= i,
        marker_at(s, tail, i),
        forall|k: int| from <= k < i ==> !marker_at(s, tail, k),
    ensures
        find_marker(s, tail, from) == Some(i),
{
    lemma_find_marker(s, tail, from);
    match find_marker(s, tail, from) {
        Some(m) => {
            if m < i {
                assert(!marker_at(s, tail, m));
            } else if m > i {
                assert(!marker_at(s, tail, i));
            }
        },
        None => {
            assert(!marker_at(s, tail, i));
        },
    }
}

/// Once drained, draining again yields nothing: the leftover holds no
/// complete frame, and a second pass leaves it unchanged. A frame, once
/// emitted, is gone from the accumulator and can never be emitted again.
pub proof fn lemma_demux_idempotent(s: Seq<u8>)
    ensures
        demux_frames(demux_rest(s)) == Seq::<Seq<u8>>::empty(),
        demux_rest(demux_rest(s)) == demux_rest(s),
    decreases s.len(),
{
    match find_marker(s, START_MARKER_TAIL, 0) {
        None => {
            if s.len() == 0 {
                assert(demux_frames(s) =~= Seq::<Seq<u8>>::empty());
            } else {
                let r = s.skip(s.len() - 1);
                assert(r.len() == 1);
                assert(demux_rest(r) =~= r.skip(0));
                assert(r.skip(0) =~= r);
            }
        },
        Some(i) => {
            lemma_find_marker(s, START_MARKER_TAIL, 0);
            match find_marker(s, END_MARKER_TAIL, i + 2) {
                None => {},
                Some(j) => {
                    lemma_find_marker(s, END_MARKER_TAIL, i + 2);
                    lemma_demux_idempotent(s.skip(j + 2));
                },
            }
        },
    }
}

/// A frame as the demuxer cuts it: bracketed by the two markers, with no end
/// marker anywhere between the start marker and the final one.
pub open spec fn wf_frame(f: Seq<u8>) -> bool {
    &&& f.len() >= 4
    &&& f[0] == MARKER_LEAD
    &&& f[1] == START_MARKER_TAIL
    &&& f[f.len() - 2] == MARKER_LEAD
    &&& f[f.len() - 1] == END_MARKER_TAIL
    &&& forall|k: int| 2 <= k < f.len() - 2 ==> !marker_at(f, END_MARKER_TAIL, k)
}

/// Every emitted frame is contiguous, begins at a start marker and ends
/// immediately after the first end marker following it.
pub proof fn lemma_demux_frames_wellformed(s: Seq<u8>)
    ensures
        forall|k: int| 0 <= k < demux_frames(s).len() ==> wf_frame(#[trigger] demux_frames(s)[k]),
    decreases s.len(),
{
    match find_marker(s, START_MARKER_TAIL, 0) {
        None => {},
        Some(i) => {
            lemma_find_marker(s, START_MARKER_TAIL, 0);
            match find_marker(s, END_MARKER_TAIL, i + 2) {
                None => {},
                Some(j) => {
                    lemma_find_marker(s, END_MARKER_TAIL, i + 2);
                    let f = s.subrange(i, j + 2);
                    assert(wf_frame(f)) by {
                        assert forall|k: int| 2 <= k < f.len() - 2 implies !marker_at(
                            f,
                            END_MARKER_TAIL,
                            k,
                        ) by {
                            if marker_at(f, END_MARKER_TAIL, k) {
                                assert(f[k] == s[i + k]);
                                assert(f[k + 1] == s[i + k + 1]);
                                assert(marker_at(s, END_MARKER_TAIL, i + k));
                                assert(!marker_at(s, END_MARKER_TAIL, i + k));
                            }
                        }
                    }
                    lemma_demux_frames_wellformed(s.skip(j + 2));
                    assert forall|k: int| 0 <= k < demux_frames(s).len() implies wf_frame(
                        #[trigger] demux_frames(s)[k],
                    ) by {
                        if k == 0 {
                            assert(demux_frames(s)[0] == f);
                        } else {
                            assert(demux_frames(s)[k] == demux_frames(s.skip(j + 2))[k - 1]);
                        }
                    }
                },
            }
        },
    }
}

/// A clean stream: complete frames stand back to back from the first byte,
/// and whatever trails them either begins a new frame or is at most one
/// byte long. This is the shape a healthy decoder emits; it gives the
/// demuxer no garbage to drop.
pub open spec fn clean_stream(s: Seq<u8>) -> bool
    decreases s.len(),
    via clean_stream_decreases
{
    match find_marker(s, START_MARKER_TAIL, 0) {
        None => s.len() <= 1,
        Some(i) => i == 0 && (match find_marker(s, END_MARKER_TAIL, 2) {
            None => true,
            Some(j) => clean_stream(s.skip(j + 2)),
        }),
    }
}

#[via_fn]
proof fn clean_stream_decreases(s: Seq<u8>) {
    match find_marker(s, END_MARKER_TAIL, 2) {
        Some(j) => {
            lemma_find_marker(s, END_MARKER_TAIL, 2);
        },
        None => {},
    }
}

/// Completeness on a clean stream: the extracted frames and the leftover
/// accumulator reassemble the input exactly. Nothing is lost and nothing is
/// invented.
pub proof fn lemma_demux_reconstruct(s: Seq<u8>)
    requires
        clean_stream(s),
    ensures
        demux_frames(s).flatten() + demux_rest(s) == s,
    decreases s.len(),
{
    match find_marker(s, START_MARKER_TAIL, 0) {
        None => {
            assert(demux_frames(s).flatten() =~= Seq::<u8>::empty());
            if s.len() == 0 {
                assert(demux_frames(s).flatten() + demux_rest(s) =~= s);
            } else {
                assert(demux_rest(s) =~= s.skip(0));
                assert(s.skip(0) =~= s);
                assert(demux_frames(s).flatten() + demux_rest(s) =~= s);
            }
        },
        Some(i) => {
            lemma_find_marker(s, START_MARKER_TAIL, 0);
            match find_marker(s, END_MARKER_TAIL, 2) {
                None => {
                    assert(demux_frames(s).flatten() =~= Seq::<u8>::empty());
                    assert(demux_frames(s).flatten() + demux_rest(s) =~= s);
                },
                Some(j) => {
                    lemma_find_marker(s, END_MARKER_TAIL, 2);
                    let f = s.subrange(0, j + 2);
                    let tail_frames = demux_frames(s.skip(j + 2));
                    lemma_demux_reconstruct(s.skip(j + 2));
                    assert((seq![f] + tail_frames).drop_first() =~= tail_frames);
                    assert((seq![f] + tail_frames).first() == f);
                    assert(demux_frames(s).flatten() == f + tail_frames.flatten());
                    assert(f + (tail_frames.flatten() + demux_rest(s.skip(j + 2))) =~= (f
                        + tail_frames.flatten()) + demux_rest(s.skip(j + 2)));
                    assert(f + s.skip(j + 2) =~= s);
                },
            }
        },
    }
}

/// Garbage in front of the first start marker changes no emitted frame:
/// the demuxer drops it and extracts the same frames as it would from the
/// stream with that prefix already gone.
pub proof fn lemma_demux_frames_skip_garbage(s: Seq<u8>, c: int)
    requires
        0 <= c <= s.len(),
        forall|k: int| 0 <= k < c ==> !marker_at(s, START_MARKER_TAIL, k),
    ensures
        demux_frames(s) == demux_frames(s.skip(c)),
{
    let t = s.skip(c);
    lemma_find_marker(s, START_MARKER_TAIL, 0);
    match find_marker(s, START_MARKER_TAIL, 0) {
        None => {
            lemma_find_marker(t, START_MARKER_TAIL, 0);
            match find_marker(t, START_MARKER_TAIL, 0) {
                Some(m) => {
                    assert(marker_at(s, START_MARKER_TAIL, c + m));
                },
                None => {},
            }
        },
        Some(i) => {
            assert(i >= c);
            assert(marker_at(t, START_MARKER_TAIL, i - c)) by {
                assert(t[i - c] == s[i]);
                assert(t[i - c + 1] == s[i + 1]);
            }
            assert forall|k: int| 0 <= k < i - c implies !marker_at(t, START_MARKER_TAIL, k) by {
                if marker_at(t, START_MARKER_TAIL, k) {
                    assert(t[k] == s[c + k]);
                    assert(t[k + 1] == s[c + k + 1]);
                    assert(marker_at(s, START_MARKER_TAIL, c + k));
                }
            }
            lemma_find_marker_unique(t, START_MARKER_TAIL, 0, i - c);
            lemma_find_marker(s, END_MARKER_TAIL, i + 2);
            match find_marker(s, END_MARKER_TAIL, i + 2) {
                None => {
                    lemma_find_marker(t, END_MARKER_TAIL, i - c + 2);
                    match find_marker(t, END_MARKER_TAIL, i - c + 2) {
                        Some(m) => {
                            assert(t[m] == s[c + m]);
                            assert(t[m + 1] == s[c + m + 1]);
                            assert(marker_at(s, END_MARKER_TAIL, c + m));
                        },
                        None => {},
                    }
                },
                Some(j) => {
                    assert(marker_at(t, END_MARKER_TAIL, j - c)) by {
                        assert(t[j - c] == s[j]);
                        assert(t[j - c + 1] == s[j + 1]);
                    }
                    assert forall|k: int| i - c + 2 <= k < j - c implies !marker_at(
                        t,
                        END_MARKER_TAIL,
                        k,
                    ) by {
                        if marker_at(t, END_MARKER_TAIL, k) {
                            assert(t[k] == s[c + k]);
                            assert(t[k + 1] == s[c + k + 1]);
                            assert(marker_at(s, END_MARKER_TAIL, c + k));
                        }
                    }
                    lemma_find_marker_unique(t, END_MARKER_TAIL, i - c + 2, j - c);
                    assert(s.subrange(i, j + 2) =~= t.subrange(i - c, j - c + 2));
                    assert(s.skip(j + 2) =~= t.skip(j - c + 2));
                },
            }
        },
    }
}

/// Chunk boundaries do not matter: demuxing a first part and then feeding
/// the leftover together with a second part emits exactly the frames of the
/// concatenated stream. Feeding bytes in arbitrarily small reads therefore
/// loses no frame and duplicates none.
pub proof fn lemma_demux_chunked(s1: Seq<u8>, s2: Seq<u8>)
    ensures
        demux_frames(s1 + s2) == demux_frames(s1) + demux_frames(demux_rest(s1) + s2),
    decreases s1.len(),
{
    let s = s1 + s2;
    lemma_find_marker(s1, START_MARKER_TAIL, 0);
    match find_marker(s1, START_MARKER_TAIL, 0) {
        None => {
            if s1.len() == 0 {
                assert(s =~= s2);
                assert(demux_rest(s1) + s2 =~= s2);
                assert(demux_frames(s1) + demux_frames(s2) =~= demux_frames(s2));
            } else {
                let c = s1.len() - 1;
                assert forall|k: int| 0 <= k < c implies !marker_at(s, START_MARKER_TAIL, k) by {
                    if marker_at(s, START_MARKER_TAIL, k) {
                        assert(s[k] == s1[k]);
                        assert(s[k + 1] == s1[k + 1]);
                        assert(marker_at(s1, START_MARKER_TAIL, k));
                    }
                }
                lemma_demux_frames_skip_garbage(s, c);
                assert(s.skip(c) =~= demux_rest(s1) + s2) by {
                    assert(demux_rest(s1) =~= s1.skip(c));
                }
                assert(demux_frames(s1) + demux_frames(demux_rest(s1) + s2) =~= demux_frames(
                    demux_rest(s1) + s2,
                ));
            }
        },
        Some(i) => {
            assert(marker_at(s, START_MARKER_TAIL, i)) by {
                assert(s[i] == s1[i]);
                assert(s[i + 1] == s1[i + 1]);
            }
            assert forall|k: int| 0 <= k < i implies !marker_at(s, START_MARKER_TAIL, k) by {
                if marker_at(s, START_MARKER_TAIL, k) {
                    assert(s[k] == s1[k]);
                    assert(s[k + 1] == s1[k + 1]);
                    assert(marker_at(s1, START_MARKER_TAIL, k));
                }
            }
            lemma_find_marker_unique(s, START_MARKER_TAIL, 0, i);
            lemma_find_marker(s1, END_MARKER_TAIL, i + 2);
            match find_marker(s1, END_MARKER_TAIL, i + 2) {
                None => {
                    // The first chunk stays untouched: everything is decided
                    // on the concatenation.
                    assert(demux_rest(s1) + s2 =~= s);
                    assert(demux_frames(s1) + demux_frames(s) =~= demux_frames(s));
                },
                Some(j) => {
                    assert(marker_at(s, END_MARKER_TAIL, j)) by {
                        assert(s[j] == s1[j]);
                        assert(s[j + 1] == s1[j + 1]);
                    }
                    assert forall|k: int| i + 2 <= k < j implies !marker_at(
                        s,
                        END_MARKER_TAIL,
                        k,
                    ) by {
                        if marker_at(s, END_MARKER_TAIL, k) {
                            assert(s[k] == s1[k]);
                            assert(s[k + 1] == s1[k + 1]);
                            assert(marker_at(s1, END_MARKER_TAIL, k));
                        }
                    }
                    lemma_find_marker_unique(s, END_MARKER_TAIL, i + 2, j);
                    let f = s.subrange(i, j + 2);
                    assert(f =~= s1.subrange(i, j + 2));
                    assert(s.skip(j + 2) =~= s1.skip(j + 2) + s2);
                    lemma_demux_chunked(s1.skip(j + 2), s2);
                    assert(demux_frames(s) == seq![f] + demux_frames(s1.skip(j + 2) + s2));
                    assert(demux_frames(s1) + demux_frames(demux_rest(s1) + s2) =~= seq![f] + (
                    demux_frames(s1.skip(j + 2)) + demux_frames(
                        demux_rest(s1.skip(j + 2)) + s2,
                    )));
                },
            }
        },
    }
}

/// The frames emitted over a whole feeding session that starts from the
/// accumulator `acc`: each chunk is appended to whatever the previous call
/// left behind, and every complete frame is drained.
pub open spec fn feed_frames(chunks: Seq<Seq<u8>>, acc: Seq<u8>) -> Seq<Seq<u8>>
    decreases chunks.len(),
{
    if chunks.len() == 0 {
        Seq::empty()
    } else {
        demux_frames(acc + chunks[0]) + feed_frames(
            chunks.skip(1),
            demux_rest(acc + chunks[0]),
        )
    }
}

/// Feeding a byte stream in chunks of any size, starting from a drained
/// accumulator, emits exactly the frames of the concatenated stream: no
/// split across read boundaries loses or duplicates a frame.
pub proof fn lemma_feed_frames_complete(chunks: Seq<Seq<u8>>, acc: Seq<u8>)
    requires
        demux_frames(acc) == Seq::<Seq<u8>>::empty(),
    ensures
        feed_frames(chunks, acc) == demux_frames(acc + chunks.flatten()),
    decreases chunks.len(),
{
    if chunks.len() == 0 {
        assert(acc + chunks.flatten() =~= acc);
    } else {
        let c0 = chunks[0];
        let rest_chunks = chunks.skip(1);
        let r = demux_rest(acc + c0);
        lemma_demux_idempotent(acc + c0);
        lemma_feed_frames_complete(rest_chunks, r);
        lemma_demux_chunked(acc + c0, rest_chunks.flatten());
        assert(chunks.drop_first() =~= rest_chunks);
        assert(acc + chunks.flatten() =~= (acc + c0) + rest_chunks.flatten());
    }
}

/// When the first part begins with a complete frame, the concatenation
/// begins with the very same frame.
proof fn lemma_concat_leading_frame(s1: Seq<u8>, s2: Seq<u8>, j: int)
    requires
        marker_at(s1, START_MARKER_TAIL, 0),
        find_marker(s1, END_MARKER_TAIL, 2) == Some(j),
    ensures
        find_marker(s1 + s2, START_MARKER_TAIL, 0) == Some(0int),
        find_marker(s1 + s2, END_MARKER_TAIL, 2) == Some(j),
        (s1 + s2).skip(j + 2) == s1.skip(j + 2) + s2,
{
    let s = s1 + s2;
    lemma_find_marker(s1, END_MARKER_TAIL, 2);
    assert(marker_at(s, START_MARKER_TAIL, 0)) by {
        assert(s[0] == s1[0]);
        assert(s[1] == s1[1]);
    }
    lemma_find_marker_unique(s, START_MARKER_TAIL, 0, 0);
    assert(marker_at(s, END_MARKER_TAIL, j)) by {
        assert(s[j] == s1[j]);
        assert(s[j + 1] == s1[j + 1]);
    }
    assert forall|k: int| 2 <= k < j implies !marker_at(s, END_MARKER_TAIL, k) by {
        if marker_at(s, END_MARKER_TAIL, k) {
            assert(s[k] == s1[k]);
            assert(s[k + 1] == s1[k + 1]);
            assert(marker_at(s1, END_MARKER_TAIL, k));
        }
    }
    lemma_find_marker_unique(s, END_MARKER_TAIL, 2, j);
    assert((s1 + s2).skip(j + 2) =~= s1.skip(j + 2) + s2);
}

/// A prefix of a clean stream is clean: a clean stream cut off at any point
/// still gives the demuxer nothing to drop.
pub proof fn lemma_clean_prefix(s: Seq<u8>, n: int)
    requires
        clean_stream(s),
        0 <= n <= s.len(),
    ensures
        clean_stream(s.take(n)),
    decreases s.len(),
{
    let t = s.take(n);
    if n <= 1 {
    } else {
        lemma_find_marker(s, START_MARKER_TAIL, 0);
        match find_marker(s, START_MARKER_TAIL, 0) {
            None => {
                // A clean stream without a start marker has at most one
                // byte, but n >= 2 bytes exist: impossible.
                assert(s.len() <= 1);
            },
            Some(i) => {
                assert(i == 0);
                assert(marker_at(t, START_MARKER_TAIL, 0)) by {
                    assert(t[0] == s[0]);
                    assert(t[1] == s[1]);
                }
                lemma_find_marker_unique(t, START_MARKER_TAIL, 0, 0);
                lemma_find_marker(s, END_MARKER_TAIL, 2);
                match find_marker(s, END_MARKER_TAIL, 2) {
                    None => {
                        lemma_find_marker(t, END_MARKER_TAIL, 2);
                        match find_marker(t, END_MARKER_TAIL, 2) {
                            Some(m) => {
                                assert(marker_at(s, END_MARKER_TAIL, m)) by {
                                    assert(t[m] == s[m]);
                                    assert(t[m + 1] == s[m + 1]);
                                }
                            },
                            None => {},
                        }
                    },
                    Some(j) => {
                        if n >= j + 2 {
                            assert(marker_at(t, END_MARKER_TAIL, j)) by {
                                assert(t[j] == s[j]);
                                assert(t[j + 1] == s[j + 1]);
                            }
                            assert forall|k: int| 2 <= k < j implies !marker_at(
                                t,
                                END_MARKER_TAIL,
                                k,
                            ) by {
                                if marker_at(t, END_MARKER_TAIL, k) {
                                    assert(t[k] == s[k]);
                                    assert(t[k + 1] == s[k + 1]);
                                    assert(marker_at(s, END_MARKER_TAIL, k));
                                }
                            }
                            lemma_find_marker_unique(t, END_MARKER_TAIL, 2, j);
                            lemma_clean_prefix(s.skip(j + 2), n - (j + 2));
                            assert(t.skip(j + 2) =~= s.skip(j + 2).take(n - (j + 2)));
                        } else {
                            // The cut falls inside the first frame: no end
                            // marker fits in the prefix, which is a clean
                            // pending frame.
                            lemma_find_marker(t, END_MARKER_TAIL, 2);
                            match find_marker(t, END_MARKER_TAIL, 2) {
                                Some(m) => {
                                    assert(marker_at(s, END_MARKER_TAIL, m)) by {
                                        assert(t[m] == s[m]);
                                        assert(t[m + 1] == s[m + 1]);
                                    }
                                    assert(2 <= m < j);
                                },
                                None => {},
                            }
                        }
                    },
                }
            },
        }
    }
}

/// On a clean first part, appending more bytes to its leftover leads to
/// the same leftover as demuxing the concatenation whole.
pub proof fn lemma_demux_rest_chunked(s1: Seq<u8>, s2: Seq<u8>)
    requires
        clean_stream(s1),
    ensures
        demux_rest(s1 + s2) == demux_rest(demux_rest(s1) + s2),
    decreases s1.len(),
{
    lemma_find_marker(s1, START_MARKER_TAIL, 0);
    match find_marker(s1, START_MARKER_TAIL, 0) {
        None => {
            // Clean: at most one byte, so nothing is trimmed.
            if s1.len() == 1 {
                assert(demux_rest(s1) =~= s1);
            }
        },
        Some(i) => {
            assert(i == 0);
            match find_marker(s1, END_MARKER_TAIL, 2) {
                None => {
                    // Pending frame: the first part stays whole.
                },
                Some(j) => {
                    lemma_find_marker(s1, END_MARKER_TAIL, 2);
                    lemma_concat_leading_frame(s1, s2, j);
                    lemma_demux_rest_chunked(s1.skip(j + 2), s2);
                },
            }
        },
    }
}

/// The leftover of a clean first part feeds forward cleanly: with the
/// second part appended it is clean again.
pub proof fn lemma_clean_rest_step(s1: Seq<u8>, s2: Seq<u8>)
    requires
        clean_stream(s1),
        clean_stream(s1 + s2),
    ensures
        clean_stream(demux_rest(s1) + s2),
    decreases s1.len(),
{
    lemma_find_marker(s1, START_MARKER_TAIL, 0);
    match find_marker(s1, START_MARKER_TAIL, 0) {
        None => {
            if s1.len() == 1 {
                assert(demux_rest(s1) =~= s1);
            }
        },
        Some(i) => {
            assert(i == 0);
            match find_marker(s1, END_MARKER_TAIL, 2) {
                None => {},
                Some(j) => {
                    lemma_find_marker(s1, END_MARKER_TAIL, 2);
                    lemma_concat_leading_frame(s1, s2, j);
                    assert(clean_stream(s1.skip(j + 2) + s2));
                    lemma_clean_rest_step(s1.skip(j + 2), s2);
                },
            }
        },
    }
}

/// The accumulator left behind by a whole feeding session that starts
/// from `acc`.
pub open spec fn feed_rest(chunks: Seq<Seq<u8>>, acc: Seq<u8>) -> Seq<u8>
    decreases chunks.len(),
{
    if chunks.len() == 0 {
        acc
    } else {
        feed_rest(chunks.skip(1), demux_rest(acc + chunks[0]))
    }
}

/// Feeding a clean stream in chunks of any size leaves exactly the
/// leftover of the whole stream in the accumulator.
pub proof fn lemma_feed_rest_complete(chunks: Seq<Seq<u8>>, acc: Seq<u8>)
    requires
        demux_rest(acc) == acc,
        clean_stream(acc + chunks.flatten()),
    ensures
        feed_rest(chunks, acc) == demux_rest(acc + chunks.flatten()),
    decreases chunks.len(),
{
    if chunks.len() == 0 {
        assert(acc + chunks.flatten() =~= acc);
    } else {
        let c0 = chunks[0];
        let rest_chunks = chunks.skip(1);
        let s1 = acc + c0;
        let s2 = rest_chunks.flatten();
        let total = acc + chunks.flatten();
        assert(chunks.drop_first() =~= rest_chunks);
        assert(total =~= s1 + s2);
        lemma_clean_prefix(total, s1.len() as int);
        assert(total.take(s1.len() as int) =~= s1);
        lemma_clean_rest_step(s1, s2);
        lemma_demux_idempotent(s1);
        lemma_feed_rest_complete(rest_chunks, demux_rest(s1));
        lemma_demux_rest_chunked(s1, s2);
    }
}

/// Demuxer completeness over a whole session: feeding a clean byte stream
/// in arbitrarily small chunks, the extracted frames concatenated in order
/// and followed by the final accumulator contents reconstruct exactly the
/// bytes fed in. Nothing is lost to read-boundary splits and nothing is
/// invented.
pub proof fn lemma_feed_complete(chunks: Seq<Seq<u8>>)
    requires
        clean_stream(chunks.flatten()),
    ensures
        feed_frames(chunks, Seq::empty()).flatten() + feed_rest(chunks, Seq::empty())
            == chunks.flatten(),
{
    let empty = Seq::<u8>::empty();
    let total = chunks.flatten();
    assert(demux_frames(empty) =~= Seq::<Seq<u8>>::empty());
    assert(empty + total =~= total);
    lemma_feed_frames_complete(chunks, empty);
    lemma_feed_rest_complete(chunks, empty);
    lemma_demux_reconstruct(total);
}

/// Least position at or after `from` where the marker `(MARKER_LEAD, tail)`
/// stands in `v`, if any.
fn find_marker_in(v: &Vec<u8>, tail: u8, from: usize) -> (r: Option<usize>)
    ensures
        match r {
            Some(i) => find_marker(v@, tail, from as int) == Some(i as int),
            None => find_marker(v@, tail, from as int) is None,
        },
{
    let mut i = from;
    while i < v.len() && i + 1 < v.len()
        invariant
            from <= i,
            forall|k: int| from <= k < i ==> !marker_at(v@, tail, k),
        decreases v@.len() - i,
    {
        if v[i] == MARKER_LEAD && v[i + 1] == tail {
            proof {
                lemma_find_marker(v@, tail, from as int);
                assert(marker_at(v@, tail, i as int));
            }
            return Some(i);
        }
        i = i + 1;
    }
    proof {
        lemma_find_marker(v@, tail, from as int);
        assert forall|k: int| from <= k implies !marker_at(v@, tail, k) by {
            if k < i {
            } else {
                assert(k + 2 > v@.len());
            }
        }
    }
    None
}

/// Extracts every complete frame from the accumulator, in stream order.
///
/// Removes each extracted frame together with the garbage in front of it.
/// When no start marker remains, all but the final byte is discarded (a start
/// marker may begin there), so garbage input cannot grow the accumulator
/// without bound. A started but unfinished frame leaves the accumulator
/// untouched, awaiting more bytes.
pub fn extract(acc: &mut Vec<u8>) -> (frames: Vec<Vec<u8>>)
    ensures
        views_of(frames@) == demux_frames(old(acc)@),
        final(acc)@ == demux_rest(old(acc)@),
{
    let mut frames: Vec<Vec<u8>> = Vec::new();
    proof {
        assert(views_of(frames@) + demux_frames(acc@) =~= demux_frames(acc@));
    }
    loop
        invariant
            views_of(frames@) + demux_frames(acc@) == demux_frames(old(acc)@),
            demux_rest(acc@) == demux_rest(old(acc)@),
        decreases acc@.len(),
    {
        let ghost prev = acc@;
        let n = acc.len();
        let start = match find_marker_in(acc, START_MARKER_TAIL, 0) {
            None => {
                // No start marker anywhere: keep only the final byte.
                if acc.len() > 1 {
                    let last = acc[acc.len() - 1];
                    acc.clear();
                    acc.push(last);
                    proof {
                        assert(acc@ =~= prev.skip(prev.len() - 1));
                    }
                }
                proof {
                    assert(demux_frames(prev) =~= Seq::<Seq<u8>>::empty());
                    assert(views_of(frames@) + demux_frames(prev) =~= views_of(frames@));
                    if prev.len() == 1 {
                        assert(acc@ =~= prev.skip(prev.len() - 1));
                    }
                }
                return frames;
            },
            Some(i) => i,
        };
        proof {
            lemma_find_marker(acc@, START_MARKER_TAIL, 0);
        }
        let end = match find_marker_in(acc, END_MARKER_TAIL, start + 2) {
            None => {
                // Frame started but not finished: wait for more bytes.
                return frames;
            },
            Some(j) => j,
        };
        proof {
            lemma_find_marker(acc@, END_MARKER_TAIL, start as int + 2);
        }
        // The complete frame spans the start marker through the end marker.
        let mut frame: Vec<u8> = Vec::new();
        let mut k = start;
        while k < end + 2
            invariant
                start <= k <= end + 2 <= acc@.len(),
                acc@ == prev,
                prev.len() == n as int,
                frame@ == prev.subrange(start as int, k as int),
            decreases end + 2 - k,
        {
            frame.push(acc[k]);
            k = k + 1;
        }
        // Drop everything up to and including the end marker.
        let mut rest: Vec<u8> = Vec::new();
        let mut m = end + 2;
        while m < acc.len()
            invariant
                end + 2 <= m <= acc@.len(),
                acc@ == prev,
                prev.len() == n as int,
                rest@ == prev.subrange(end as int + 2, m as int),
            decreases acc@.len() - m,
        {
            rest.push(acc[m]);
            m = m + 1;
        }
        proof {
            assert(rest@ =~= prev.skip(end as int + 2));
            assert(demux_frames(prev) == seq![prev.subrange(start as int, end as int + 2)]
                + demux_frames(prev.skip(end as int + 2)));
            assert(demux_rest(prev) == demux_rest(prev.skip(end as int + 2)));
            assert(views_of(frames@.push(frame)) =~= views_of(frames@).push(frame@));
            assert(views_of(frames@).push(frame@) + demux_frames(prev.skip(end as int + 2))
                =~= views_of(frames@) + demux_frames(prev));
        }
        *acc = rest;
        frames.push(frame);
    }
}

} // verus!
