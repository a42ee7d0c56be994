use vstd::prelude::*;

use crate::addr::{Endpoint, IpAddress};
use crate::plan::{Platform, SocketOp, join_count, listen_ops};
use crate::relay::{LINE_FEED, ReadDecision, Sink, SourceKind, Termination, decide, ended, fan_out, relayed};

verus! {

/// The payloads of `ds` that go to `sink`, in order.
pub open spec fn writes_to(ds: Seq<(Sink, Seq<u8>)>, sink: Sink) -> Seq<Seq<u8>>
    decreases ds.len(),
{
    if ds.len() == 0 {
        Seq::empty()
    } else {
        writes_to(ds.drop_last(), sink) + if ds.last().0 == sink {
            seq![ds.last().1]
        } else {
            Seq::empty()
        }
    }
}

/// Everything a loop with these sinks writes to `sink` while it forwards
/// `chunks`, one entry per write.
pub open spec fn stream_to(
    targets: nat,
    output: bool,
    tee: bool,
    chunks: Seq<Seq<u8>>,
    sink: Sink,
) -> Seq<Seq<u8>>
    decreases chunks.len(),
{
    if chunks.len() == 0 {
        Seq::empty()
    } else {
        stream_to(targets, output, tee, chunks.drop_last(), sink) + writes_to(
            fan_out(targets, output, tee, chunks.last()),
            sink,
        )
    }
}

/// Whether a loop with these sinks writes to `sink` at all.
pub open spec fn has_sink(targets: nat, output: bool, tee: bool, sink: Sink) -> bool {
    match sink {
        Sink::Target(i) => i < targets,
        Sink::Output => output,
        Sink::Tee => tee,
    }
}

proof fn lemma_writes_to_concat(a: Seq<(Sink, Seq<u8>)>, b: Seq<(Sink, Seq<u8>)>, sink: Sink)
    ensures
        writes_to(a + b, sink) == writes_to(a, sink) + writes_to(b, sink),
    decreases b.len(),
{
    if b.len() == 0 {
        assert(a + b =~= a);
        assert(writes_to(a, sink) + writes_to(b, sink) =~= writes_to(a, sink));
    } else {
        lemma_writes_to_concat(a, b.drop_last(), sink);
        assert((a + b).drop_last() =~= a + b.drop_last());
        assert((a + b).last() == b.last());
        let tail = if b.last().0 == sink {
            seq![b.last().1]
        } else {
            Seq::<Seq<u8>>::empty()
        };
        assert(writes_to(a, sink) + writes_to(b.drop_last(), sink) + tail =~= writes_to(a, sink) + (
        writes_to(b.drop_last(), sink) + tail));
    }
}

proof fn lemma_writes_to_single(d: (Sink, Seq<u8>), sink: Sink)
    ensures
        writes_to(seq![d], sink) == if d.0 == sink {
            seq![d.1]
        } else {
            Seq::<Seq<u8>>::empty()
        },
{
    assert(seq![d].drop_last() =~= Seq::<(Sink, Seq<u8>)>::empty());
    assert(writes_to(Seq::<(Sink, Seq<u8>)>::empty(), sink) == Seq::<Seq<u8>>::empty());
    assert(Seq::<Seq<u8>>::empty() + seq![d.1] =~= seq![d.1]);
    assert(Seq::<Seq<u8>>::empty() + Seq::<Seq<u8>>::empty() =~= Seq::<Seq<u8>>::empty());
}

proof fn lemma_writes_to_targets(n: nat, chunk: Seq<u8>, sink: Sink)
    requires
        n <= usize::MAX + 1,
    ensures
        writes_to(Seq::new(n, |i: int| (Sink::Target(i as usize), chunk)), sink) == if has_sink(
            n,
            false,
            false,
            sink,
        ) {
            seq![chunk]
        } else {
            Seq::<Seq<u8>>::empty()
        },
    decreases n,
{
    let s = Seq::new(n, |i: int| (Sink::Target(i as usize), chunk));
    if n > 0 {
        let m = (n - 1) as nat;
        assert(s.drop_last() =~= Seq::new(m, |i: int| (Sink::Target(i as usize), chunk)));
        lemma_writes_to_targets(m, chunk, sink);
        assert(s.last() == (Sink::Target(m as usize), chunk));
        if let Sink::Target(j) = sink {
            if j < m {
                assert(m as usize != j);
                assert(seq![chunk] + Seq::<Seq<u8>>::empty() =~= seq![chunk]);
            } else if j == m {
                assert(Seq::<Seq<u8>>::empty() + seq![chunk] =~= seq![chunk]);
            } else {
                assert(m as usize != j);
                assert(Seq::<Seq<u8>>::empty() + Seq::<Seq<u8>>::empty() =~= Seq::<Seq<u8>>::empty());
            }
        } else {
            assert(Seq::<Seq<u8>>::empty() + Seq::<Seq<u8>>::empty() =~= Seq::<Seq<u8>>::empty());
        }
    } else {
        assert(s =~= Seq::<(Sink, Seq<u8>)>::empty());
    }
}

/// Each sink of a loop gets one write of a forwarded chunk, and any other
/// sink none.
proof fn lemma_fan_out_writes(targets: nat, output: bool, tee: bool, chunk: Seq<u8>, sink: Sink)
    requires
        targets <= usize::MAX,
    ensures
        writes_to(fan_out(targets, output, tee, chunk), sink) == if has_sink(
            targets,
            output,
            tee,
            sink,
        ) {
            seq![chunk]
        } else {
            Seq::<Seq<u8>>::empty()
        },
{
    let a = Seq::new(targets, |i: int| (Sink::Target(i as usize), chunk));
    let b = if output {
        seq![(Sink::Output, chunk)]
    } else {
        Seq::empty()
    };
    let c = if tee {
        seq![(Sink::Tee, chunk)]
    } else {
        Seq::empty()
    };
    assert(fan_out(targets, output, tee, chunk) == a + b + c);
    lemma_writes_to_concat(a + b, c, sink);
    lemma_writes_to_concat(a, b, sink);
    lemma_writes_to_targets(targets, chunk, sink);
    if output {
        lemma_writes_to_single((Sink::Output, chunk), sink);
    }
    if tee {
        lemma_writes_to_single((Sink::Tee, chunk), sink);
    }
    let e = Seq::<Seq<u8>>::empty();
    assert(e + e + e =~= e);
    assert(seq![chunk] + e + e =~= seq![chunk]);
    assert(e + seq![chunk] + e =~= seq![chunk]);
    assert(e + e + seq![chunk] =~= seq![chunk]);
}

proof fn lemma_stream_to(targets: nat, output: bool, tee: bool, chunks: Seq<Seq<u8>>, sink: Sink)
    requires
        targets <= usize::MAX,
    ensures
        stream_to(targets, output, tee, chunks, sink) == if has_sink(targets, output, tee, sink) {
            chunks
        } else {
            Seq::<Seq<u8>>::empty()
        },
    decreases chunks.len(),
{
    if chunks.len() > 0 {
        lemma_stream_to(targets, output, tee, chunks.drop_last(), sink);
        lemma_fan_out_writes(targets, output, tee, chunks.last(), sink);
        if has_sink(targets, output, tee, sink) {
            assert(chunks.drop_last() + seq![chunks.last()] =~= chunks);
        } else {
            assert(Seq::<Seq<u8>>::empty() + Seq::<Seq<u8>>::empty() =~= Seq::<Seq<u8>>::empty());
        }
    }
}

/// A loop with `targets` targets that forwards a chunk writes it exactly
/// once to each target, in pool order, and to no position past the pool.
pub proof fn each_target_written_once(targets: nat, output: bool, tee: bool, chunk: Seq<u8>)
    requires
        targets <= usize::MAX,
    ensures
        fan_out(targets, output, tee, chunk).len() >= targets,
        forall|i: int|
            0 <= i < targets ==> #[trigger] fan_out(targets, output, tee, chunk)[i] == (
            Sink::Target(i as usize),
            chunk,
        ),
        forall|i: int|
            targets <= i < fan_out(targets, output, tee, chunk).len() ==> !(#[trigger] fan_out(
                targets,
                output,
                tee,
                chunk,
            )[i].0 is Target),
        forall|i: nat| i < targets ==> #[trigger] writes_to(
            fan_out(targets, output, tee, chunk),
            Sink::Target(i as usize),
        ) == seq![chunk],
{
    assert forall|i: nat| i < targets implies #[trigger] writes_to(
        fan_out(targets, output, tee, chunk),
        Sink::Target(i as usize),
    ) == seq![chunk] by {
        lemma_fan_out_writes(targets, output, tee, chunk, Sink::Target(i as usize));
    }
}

/// Over any run of forwarded chunks, the tee receives the same chunks, in
/// the same order, as every target and the output.
pub proof fn tee_matches_targets(targets: nat, output: bool, chunks: Seq<Seq<u8>>)
    requires
        targets <= usize::MAX,
    ensures
        stream_to(targets, output, true, chunks, Sink::Tee) == chunks,
        forall|i: nat| i < targets ==> #[trigger] stream_to(
            targets,
            output,
            true,
            chunks,
            Sink::Target(i as usize),
        ) == stream_to(targets, output, true, chunks, Sink::Tee),
        output ==> stream_to(targets, output, true, chunks, Sink::Output) == stream_to(
            targets,
            output,
            true,
            chunks,
            Sink::Tee,
        ),
{
    lemma_stream_to(targets, output, true, chunks, Sink::Tee);
    lemma_stream_to(targets, output, true, chunks, Sink::Output);
    assert forall|i: nat| i < targets implies #[trigger] stream_to(
        targets,
        output,
        true,
        chunks,
        Sink::Target(i as usize),
    ) == stream_to(targets, output, true, chunks, Sink::Tee) by {
        lemma_stream_to(targets, output, true, chunks, Sink::Target(i as usize));
    }
}

/// Once some read has stopped a loop, later reads change nothing.
proof fn lemma_after_end(source: SourceKind, reads: Seq<Seq<u8>>, rest: Seq<Seq<u8>>)
    requires
        ended(source, reads),
    ensures
        ended(source, reads + rest),
        relayed(source, reads + rest) == relayed(source, reads),
    decreases rest.len(),
{
    if rest.len() == 0 {
        assert(reads + rest =~= reads);
    } else {
        lemma_after_end(source, reads, rest.drop_last());
        assert((reads + rest).drop_last() =~= reads + rest.drop_last());
    }
}

/// Two read histories that have forwarded the same and agree on having
/// ended stay in step under the same further reads.
proof fn lemma_same_history(
    source: SourceKind,
    a: Seq<Seq<u8>>,
    b: Seq<Seq<u8>>,
    rest: Seq<Seq<u8>>,
)
    requires
        relayed(source, a) == relayed(source, b),
        ended(source, a) == ended(source, b),
    ensures
        relayed(source, a + rest) == relayed(source, b + rest),
        ended(source, a + rest) == ended(source, b + rest),
    decreases rest.len(),
{
    if rest.len() == 0 {
        assert(a + rest =~= a);
        assert(b + rest =~= b);
    } else {
        lemma_same_history(source, a, b, rest.drop_last());
        assert((a + rest).drop_last() =~= a + rest.drop_last());
        assert((b + rest).drop_last() =~= b + rest.drop_last());
        assert((a + rest).last() == rest.last());
        assert((b + rest).last() == rest.last());
    }
}

/// An empty read of a file-backed source stops its loop without a fault,
/// and nothing read after it is ever forwarded.
pub proof fn empty_read_ends_file_input(reads: Seq<Seq<u8>>, rest: Seq<Seq<u8>>)
    ensures
        decide(SourceKind::File, Seq::empty()) == ReadDecision::Stop(Termination::EndOfInput),
        !Termination::EndOfInput.is_fault(),
        ended(SourceKind::File, reads.push(Seq::empty()) + rest),
        relayed(SourceKind::File, reads.push(Seq::empty()) + rest) == relayed(SourceKind::File, reads),
{
    let stopped = reads.push(Seq::empty());
    assert(stopped.drop_last() =~= reads);
    lemma_after_end(SourceKind::File, stopped, rest);
}

/// A read of a file-backed source that is exactly one line feed is not
/// forwarded: the loop goes on as if it had not been read.
pub proof fn lone_line_feed_skipped(before: Seq<Seq<u8>>, after: Seq<Seq<u8>>)
    ensures
        decide(SourceKind::File, seq![LINE_FEED]) == ReadDecision::Skip,
        relayed(SourceKind::File, before.push(seq![LINE_FEED]) + after) == relayed(
            SourceKind::File,
            before + after,
        ),
{
    let with_line = before.push(seq![LINE_FEED]);
    assert(with_line.drop_last() =~= before);
    lemma_same_history(SourceKind::File, with_line, before, after);
}

/// A loop forwards every read it decides to forward when no read stops it.
proof fn lemma_all_forwarded(source: SourceKind, reads: Seq<Seq<u8>>)
    requires
        forall|i: int| 0 <= i < reads.len() ==> decide(source, #[trigger] reads[i]) is Forward,
    ensures
        relayed(source, reads) == reads,
        !ended(source, reads),
    decreases reads.len(),
{
    if reads.len() > 0 {
        lemma_all_forwarded(source, reads.drop_last());
        assert(reads.drop_last().push(reads.last()) =~= reads);
    }
}

/// When a file is read in chunks none of which is empty or a lone line
/// feed, the client sends every chunk once, in order, to its target; a listener that receives those datagrams forwards each of them,
/// and the bytes its log receives are exactly the file's bytes.
pub proof fn file_bytes_reach_listener_log(chunks: Seq<Seq<u8>>, tee: bool)
    requires
        forall|i: int|
            0 <= i < chunks.len() ==> (#[trigger] chunks[i]).len() > 0 && chunks[i] != seq![
                LINE_FEED,
            ],
    ensures
        relayed(SourceKind::File, chunks) == chunks,
        stream_to(1, false, tee, relayed(SourceKind::File, chunks), Sink::Target(0)) == chunks,
        relayed(SourceKind::Datagram, chunks) == chunks,
        stream_to(0, true, tee, relayed(SourceKind::Datagram, chunks), Sink::Output).flatten()
            == chunks.flatten(),
{
    lemma_all_forwarded(SourceKind::File, chunks);
    lemma_all_forwarded(SourceKind::Datagram, chunks);
    lemma_stream_to(1, false, tee, chunks, Sink::Target(0));
    lemma_stream_to(0, true, tee, chunks, Sink::Output);
}

/// A listen handle joins at most one multicast group: the group of its
/// address when that is a multicast address, and none otherwise.
pub proof fn listen_plan_joins_once(addr: Endpoint, platform: Platform, interface: u32)
    ensures
        join_count(listen_ops(addr, platform, interface)) == if addr.multicast() {
            1nat
        } else {
            0nat
        },
        addr.multicast() ==> match addr.ip {
            IpAddress::V4(group) => listen_ops(addr, platform, interface).contains(
                SocketOp::JoinV4(group),
            ),
            IpAddress::V6(group) => listen_ops(addr, platform, interface).contains(
                SocketOp::JoinV6(group, interface),
            ),
        },
{
    let ops = listen_ops(addr, platform, interface);
    reveal_with_fuel(join_count, 8);
    if addr.multicast() {
        match addr.ip {
            IpAddress::V4(group) => {
                assert(ops[3] == SocketOp::JoinV4(group));
            },
            IpAddress::V6(group) => {
                assert(ops[4] == SocketOp::JoinV6(group, interface));
                assert(ops.drop_last().drop_last() =~= ops.take(ops.len() - 2));
            },
        }
    }
}

} // verus!
