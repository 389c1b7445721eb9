//! Mirror mode: after a successful transfer every byte the target sends is
//! echoed to the operator, in arrival order. A failed read means "no data
//! yet" and forwards nothing; it neither ends the mirror nor disturbs the
//! bytes around it. The mirror never ends on its own: it runs until the
//! process is terminated from outside.

use vstd::prelude::*;

verus! {

/// One attempt to read a byte from the target while mirroring.
#[derive(Clone, Copy, PartialEq, Eq, Debug)]
pub enum MirrorEvent {
    /// A byte arrived.
    Byte { value: u8 },
    /// The read failed or timed out: no data yet.
    NoData,
}

/// The bytes the mirror forwards for a finite sequence of read attempts:
/// every arrived byte exactly once, in arrival order, and nothing for a
/// failed read.
pub open spec fn forwarded(events: Seq<MirrorEvent>) -> Seq<u8>
    decreases events.len(),
{
    if events.len() == 0 {
        Seq::empty()
    } else {
        let rest = forwarded(events.drop_last());
        match events.last() {
            MirrorEvent::Byte { value } => rest.push(value),
            MirrorEvent::NoData => rest,
        }
    }
}

/// What one read attempt forwards: the byte that arrived, or nothing.
pub fn mirror_forward(e: MirrorEvent) -> (r: Option<u8>)
    ensures
        r == match e {
            MirrorEvent::Byte { value } => Some(value),
            MirrorEvent::NoData => None::<u8>,
        },
{
    match e {
        MirrorEvent::Byte { value } => Some(value),
        MirrorEvent::NoData => None,
    }
}

/// Forwards a finite sequence of read attempts in order.
pub fn mirror_collect(events: &Vec<MirrorEvent>) -> (out: Vec<u8>)
    ensures
        out@ == forwarded(events@),
{
    let mut out: Vec<u8> = Vec::new();
    let mut i: usize = 0;
    while i < events.len()
        invariant
            0 <= i <= events@.len(),
            out@ == forwarded(events@.take(i as int)),
        decreases events@.len() - i,
    {
        proof {
            assert(events@.take(i as int + 1).drop_last() =~= events@.take(i as int));
            assert(events@.take(i as int + 1).last() == events@[i as int]);
        }
        match mirror_forward(events[i]) {
            Some(b) => out.push(b),
            None => (),
        }
        i = i + 1;
    }
    proof {
        assert(events@.take(events@.len() as int) =~= events@);
    }
    out
}

/// Forwarding splits over concatenation: what two stretches of arrivals
/// forward together is what each forwards, in order.
pub proof fn lemma_forwarded_concat(a: Seq<MirrorEvent>, b: Seq<MirrorEvent>)
    ensures
        forwarded(a + b) == forwarded(a) + forwarded(b),
    decreases b.len(),
{
    if b.len() == 0 {
        assert(a + b =~= a);
        assert(forwarded(a) + forwarded(b) =~= forwarded(a));
    } else {
        lemma_forwarded_concat(a, b.drop_last());
        assert((a + b).drop_last() =~= a + b.drop_last());
        assert((a + b).last() == b.last());
        match b.last() {
            MirrorEvent::Byte { value } => {
                assert(forwarded(a) + forwarded(b) =~= (forwarded(a) + forwarded(
                    b.drop_last(),
                )).push(value));
            },
            MirrorEvent::NoData => {},
        }
    }
}

/// A failed read between two stretches of arrivals drops nothing and
/// duplicates nothing: the mirror forwards exactly the bytes it would have
/// forwarded had the failed read never happened.
pub proof fn lemma_mirror_error_transparent(pre: Seq<MirrorEvent>, post: Seq<MirrorEvent>)
    ensures
        forwarded(pre + seq![MirrorEvent::NoData] + post) == forwarded(pre + post),
{
    lemma_forwarded_concat(pre + seq![MirrorEvent::NoData], post);
    lemma_forwarded_concat(pre, seq![MirrorEvent::NoData]);
    lemma_forwarded_concat(pre, post);
    assert(seq![MirrorEvent::NoData].drop_last() =~= Seq::<MirrorEvent>::empty());
    assert(forwarded(Seq::<MirrorEvent>::empty()) =~= Seq::<u8>::empty());
    assert(forwarded(seq![MirrorEvent::NoData]) == forwarded(
        seq![MirrorEvent::NoData].drop_last(),
    ));
    assert(forwarded(seq![MirrorEvent::NoData]) =~= Seq::<u8>::empty());
    assert(forwarded(pre) + forwarded(seq![MirrorEvent::NoData]) =~= forwarded(pre));
}

} // verus!
