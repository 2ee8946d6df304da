//! What each step does to a port: what becomes of either direction, which kinds of readiness
//! come and go, and what is to be done next.
//!
//! Each law below speaks of every port, whatever else is going on: what it does not say to
//! change stays as it was.

use vstd::prelude::*;

#[allow(unused_imports)]
use crate::binding::{listened_to, told, BindingView};
#[allow(unused_imports)]
use crate::error::{ErrorKind, IoError};
#[allow(unused_imports)]
use crate::ready::{HUP, READABLE, WRITABLE};
#[allow(unused_imports)]
use crate::windows::block::{released, with_inner, IoView};
#[allow(unused_imports)]
use crate::windows::inner::{
    contents, total, ReadvJob, ReadvStep, RegisterStep, SerialInner, SerialInnerView, State,
    WriteJob, WriteStep, WriteStepView, WritevStep,
};
#[allow(unused_imports)]
use crate::windows::{after_read_issued, after_write_issued};

verus! {

/// Whether nothing of the writing direction has changed, nor how completions are reported.
pub open spec fn same_but_reading(before: SerialInnerView, after: SerialInnerView) -> bool {
    after.write == before.write && after.instant_notify == before.instant_notify
}

/// Whether nothing of the reading direction has changed, nor how completions are reported.
pub open spec fn same_but_writing(before: SerialInnerView, after: SerialInnerView) -> bool {
    after.read == before.read && after.instant_notify == before.instant_notify
}

/// Whether neither direction has changed, nor how completions are reported.
pub open spec fn same_but_shown(before: SerialInnerView, after: SerialInnerView) -> bool {
    same_but_reading(before, after) && same_but_writing(before, after)
}

/// Whether the event loop was told that `kind` is ready, and nothing else.
pub open spec fn comes(before: SerialInnerView, after: SerialInnerView, kind: u8) -> bool {
    told(before.iocp, after.iocp, set![kind], Set::empty())
}

/// Whether the event loop was told that `kind` is not ready any more, and nothing else.
pub open spec fn goes(before: SerialInnerView, after: SerialInnerView, kind: u8) -> bool {
    told(before.iocp, after.iocp, Set::empty(), set![kind])
}

/// Whether the error is the one that tells a caller to come back later.
pub open spec fn tells_to_wait(e: IoError) -> bool {
    &&& e.kind == ErrorKind::WouldBlock
    &&& e.raw_os_error is None
    &&& e.message == Some("operation would block")
    &&& e.source is None
}

/// A port stands for the states of its two directions, byte by byte.
pub proof fn law_port_stands_for(me: SerialInner)
    ensures
        me@.iocp == me.iocp@,
        me@.read == me.read,
        me@.instant_notify == me.instant_notify,
        me.write is Empty <==> me@.write is Empty,
        me.write matches State::Pending((buf, pos)) ==> {
            me@.write matches State::Pending((bytes, at)) && bytes == buf@ && at == pos
        },
        me.write matches State::Ready((buf, pos)) ==> {
            me@.write matches State::Ready((bytes, at)) && bytes == buf@ && at == pos
        },
        me.write matches State::Error(e) ==> {
            me@.write matches State::Error(kept) && kept == e
        },
{
}

/// A step of a write stands for the bytes that are to be issued, or that may be used again.
pub proof fn law_step_stands_for(step: WriteStep)
    ensures
        step is Pending <==> step@ is Pending,
        step is Done <==> step@ is Done,
        step matches WriteStep::Issue(job) ==> {
            step@ matches WriteStepView::Issue(buf, pos) && buf == job.buf@ && pos == job.pos
        },
        step matches WriteStep::Failed(buf) ==> {
            step@ matches WriteStepView::Failed(bytes) && bytes == buf@
        },
{
}

/// A new port does nothing and shows nothing.
pub proof fn law_new_port_is_idle()
    ensures
        ({
            let new = SerialInnerView::initial();
            &&& new.read is Empty
            &&& new.write is Empty
            &&& !new.instant_notify
            &&& new.iocp.readiness is None
            &&& new.iocp.published.len() == 0
            &&& !new.iocp.closed
        }),
{
}

/// Adding and removing readiness, closing, and handing over change what is shown, published
/// and heard, and leave both directions alone.
pub proof fn law_showing_leaves_directions_alone(inner: SerialInnerView, set: Set<u8>)
    ensures
        same_but_shown(inner, inner.raise(set)),
        told(inner.iocp, inner.raise(set).iocp, set, Set::empty()),
        same_but_shown(inner, inner.clear(set)),
        told(inner.iocp, inner.clear(set).iocp, Set::empty(), set),
        same_but_shown(inner, inner.close()),
        !listened_to(inner.close().iocp),
        inner.close().iocp.readiness == inner.iocp.readiness,
        inner.close().iocp.published == inner.iocp.published,
        same_but_shown(inner, inner.handed_over()),
        inner.handed_over().iocp.published.len() == 0,
        inner.handed_over().iocp.readiness == inner.iocp.readiness,
        inner.handed_over().iocp.closed == inner.iocp.closed,
{
}

/// The states of the two directions are set apart from each other, and from what is shown.
pub proof fn law_directions_are_apart(
    inner: SerialInnerView,
    read: State<(), ()>,
    write: State<(Seq<u8>, nat), (Seq<u8>, nat)>,
)
    ensures
        inner.with_read(read).read == read,
        same_but_reading(inner, inner.with_read(read)),
        inner.with_read(read).iocp == inner.iocp,
        inner.with_write(write).write == write,
        same_but_writing(inner, inner.with_write(write)),
        inner.with_write(write).iocp == inner.iocp,
{
}

// ---------------------------------------------------------------------------------------
// Reading
// ---------------------------------------------------------------------------------------

/// Scheduling a read: one is due exactly where none is in progress and none has ended unseen,
/// and then readable readiness goes, and nothing else. A read that has ended is shown again;
/// one in progress is left alone. What is being written makes no difference.
pub proof fn law_scheduling_a_read(inner: SerialInnerView)
    ensures
        same_but_shown(inner, inner.read_scheduled()),
        inner.read_is_due() <==> !(inner.read is Pending || inner.read is Ready
            || inner.read is Error),
        inner.read is Empty ==> goes(inner, inner.read_scheduled(), READABLE),
        inner.read is Pending ==> inner.read_scheduled().iocp == inner.iocp,
        inner.read is Ready || inner.read is Error ==> comes(
            inner,
            inner.read_scheduled(),
            READABLE,
        ),
{
}

/// An issued read. Where it has ended at once and is not reported again, there is something to
/// be read, and the event loop is told so; a failed one is kept and shown, with a hang-up
/// exactly where the other end was found gone; any other is in progress, and nothing is shown.
/// What is being written makes no difference, and does not change.
pub proof fn law_issued_read(inner: SerialInnerView, res: Result<Option<usize>, IoError>)
    ensures
        same_but_reading(inner, inner.read_issued(res)),
        res is Ok && res->Ok_0 is Some && inner.instant_notify ==> {
            &&& inner.read_issued(res).read is Ready
            &&& comes(inner, inner.read_issued(res), READABLE)
        },
        res is Ok && !(res->Ok_0 is Some && inner.instant_notify) ==> {
            &&& inner.read_issued(res).read is Pending
            &&& inner.read_issued(res).iocp == inner.iocp
        },
        res is Err ==> {
            &&& inner.read_issued(res).read matches State::Error(kept) && kept == res->Err_0
            &&& res->Err_0.raw_os_error == Some(10054i32) ==> told(
                inner.iocp,
                inner.read_issued(res).iocp,
                set![READABLE, HUP],
                Set::empty(),
            )
            &&& res->Err_0.raw_os_error != Some(10054i32) ==> comes(
                inner,
                inner.read_issued(res),
                READABLE,
            )
        },
{
}

/// A read that completes: there is something to be read, and the event loop is told so and
/// nothing else.
pub proof fn law_completed_read(inner: SerialInnerView)
    ensures
        ({
            let after = inner.with_read(State::Ready(())).raise(set![READABLE]);
            &&& after.read is Ready
            &&& comes(inner, after, READABLE)
            &&& same_but_reading(inner, after)
        }),
{
}

/// A read that was scheduled and issued leaves no trace of readable readiness while it is in
/// progress, and shows it when it has ended, whichever way, where anybody listens. No other
/// kind comes or goes but the hang-up.
pub proof fn law_read_is_shown_when_it_ends(
    inner: SerialInnerView,
    res: Result<Option<usize>, IoError>,
    kind: u8,
)
    requires
        inner.read is Empty,
        listened_to(inner.iocp),
    ensures
        ({
            let after = inner.read_scheduled().read_issued(res);
            &&& !(after.read is Empty)
            &&& after.iocp.readiness->0.contains(READABLE) <==> !(after.read is Pending)
            &&& kind != READABLE && kind != HUP ==> (after.iocp.readiness->0.contains(kind)
                <==> inner.iocp.readiness->0.contains(kind))
            &&& after.iocp.readiness->0.contains(HUP) <==> (inner.iocp.readiness->0.contains(HUP)
                || (res is Err && res->Err_0.raw_os_error == Some(10054i32)))
        }),
{
}

/// The beginning of a vectored read. With nothing known to be there the caller is told to
/// come back; a kept error is returned, once, and a read scheduled; else the first buffer is
/// to be filled, if there is one. What is being written makes no difference.
pub proof fn law_begun_readv(inner: SerialInnerView, lens: Seq<usize>)
    ensures
        ({
            let (after, step) = inner.readv(lens);
            &&& same_but_reading(inner, after)
            &&& inner.read is Empty || inner.read is Pending ==> {
                &&& after == inner
                &&& step matches ReadvStep::Return(Err(e)) && tells_to_wait(e)
            }
            &&& inner.read matches State::Error(e) ==> {
                &&& step matches ReadvStep::Schedule(Err(returned)) && returned == e
                &&& after.read is Empty
                &&& goes(inner, after, READABLE)
            }
            &&& inner.read is Ready ==> {
                &&& after == inner
                &&& lens.len() == 0 ==> {
                    step matches ReadvStep::Return(Ok(n)) && n == 0
                }
                &&& lens.len() > 0 ==> {
                    step matches ReadvStep::Read(job) && job.index == 0 && job.amt == 0
                }
            }
        }),
{
}

/// What follows the read into a buffer. A full buffer leads to the next one, if there is one;
/// a short one, or the last one, ends the read, with the number of all the bytes. An error
/// that comes before any byte is returned. One that comes after some is kept for the next
/// time, unless it says to come back later; the bytes are returned. Where no error is kept, a
/// read is scheduled. What is being written makes no difference.
pub proof fn law_continued_readv(
    inner: SerialInnerView,
    lens: Seq<usize>,
    job: ReadvJob,
    res: Result<usize, IoError>,
)
    requires
        job.index < lens.len() <= usize::MAX,
        res matches Ok(n) ==> job.amt + n <= usize::MAX,
    ensures
        ({
            let (after, step) = inner.readv_read(lens, job, res);
            &&& same_but_reading(inner, after)
            &&& res matches Ok(n) ==> {
                &&& after == inner
                &&& n >= lens[job.index as int] && job.index + 1 < lens.len() ==> {
                    step matches ReadvStep::Read(next) && next.index == job.index + 1 && next.amt
                        == job.amt + n
                }
                &&& n < lens[job.index as int] || job.index + 1 >= lens.len() ==> {
                    step matches ReadvStep::Return(Ok(all)) && all == job.amt + n
                }
            }
            &&& res matches Err(e) ==> {
                &&& job.amt == 0 ==> {
                    &&& step matches ReadvStep::Schedule(Err(returned)) && returned == e
                    &&& after.read is Empty
                    &&& goes(inner, after, READABLE)
                }
                &&& job.amt > 0 && e.kind == ErrorKind::WouldBlock ==> {
                    &&& step matches ReadvStep::Schedule(Ok(all)) && all == job.amt
                    &&& after.read is Empty
                    &&& goes(inner, after, READABLE)
                }
                &&& job.amt > 0 && e.kind != ErrorKind::WouldBlock ==> {
                    &&& step matches ReadvStep::Return(Ok(all)) && all == job.amt
                    &&& after.read matches State::Error(kept) && kept == e
                    &&& after.iocp == inner.iocp
                }
            }
        }),
{
}

// ---------------------------------------------------------------------------------------
// Writing
// ---------------------------------------------------------------------------------------

/// The buffers of a write are its slices, byte by byte and in order.
pub proof fn law_contents_are_the_slices(bufs: Seq<&[u8]>, i: int)
    requires
        0 <= i < bufs.len(),
    ensures
        contents(bufs).len() == bufs.len(),
        contents(bufs)[i] == bufs[i]@,
{
}

/// The number of bytes to be written: none for no buffers, and with one more buffer, so many
/// more, wherever it stands.
pub proof fn law_total_adds_up(first: Seq<Seq<u8>>, second: Seq<Seq<u8>>, buf: Seq<u8>)
    ensures
        total(Seq::empty()) == 0,
        total(seq![buf]) == buf.len(),
        total(first + second) == total(first) + total(second),
    decreases second.len(),
{
    assert(seq![buf].drop_last() =~= Seq::empty());
    if second.len() == 0 {
        assert(first + second =~= first);
    } else {
        law_total_adds_up(first, second.drop_last(), buf);
        assert((first + second).drop_last() =~= first + second.drop_last());
    }
}

/// The decision about a write. It is refused, and the caller told to come back, exactly where
/// another has not been finished with or the port is not registered; one of no buffers is
/// over at once; any other is taken, with all of its bytes. What is being read makes no
/// difference.
pub proof fn law_decided_writev(inner: SerialInnerView, bufs: Seq<Seq<u8>>)
    requires
        total(bufs) <= usize::MAX,
    ensures
        inner.write is Pending || inner.write is Ready || inner.write is Error
            || inner.iocp.readiness is None ==> {
            inner.writev(bufs) matches WritevStep::Return(Err(e)) && tells_to_wait(e)
        },
        inner.write is Empty && inner.iocp.readiness is Some && bufs.len() == 0 ==> {
            inner.writev(bufs) matches WritevStep::Return(Ok(n)) && n == 0
        },
        inner.write is Empty && inner.iocp.readiness is Some && bufs.len() > 0 ==> {
            inner.writev(bufs) matches WritevStep::Gather(len) && len == total(bufs)
        },
{
}

/// Scheduling a write takes writable readiness away, and no other kind: whoever waits for
/// something to read goes on hearing of it.
pub proof fn law_scheduling_a_write(inner: SerialInnerView, kind: u8)
    ensures
        goes(inner, inner.clear(set![WRITABLE]), WRITABLE),
        same_but_shown(inner, inner.clear(set![WRITABLE])),
        listened_to(inner.iocp) ==> {
            &&& !inner.clear(set![WRITABLE]).iocp.readiness->0.contains(WRITABLE)
            &&& kind != WRITABLE ==> (inner.clear(set![WRITABLE]).iocp.readiness->0.contains(kind)
                <==> inner.iocp.readiness->0.contains(kind))
        },
{
}

/// An issued write of `buf` from `pos` on. Where it has ended at once and is not reported
/// again, either all is written, the port is idle and writable readiness comes, or exactly the
/// rest is to be issued and nothing changes. A failed one is kept and shown, and its buffer
/// given back. Any other is in progress with just these bytes, and nothing is shown. What is
/// being read makes no difference, and does not change.
pub proof fn law_issued_write(
    inner: SerialInnerView,
    buf: Seq<u8>,
    pos: nat,
    res: Result<Option<usize>, IoError>,
)
    requires
        pos <= buf.len(),
    ensures
        ({
            let (after, step) = inner.write_issued(buf, pos, res);
            let ended = res is Ok && res->Ok_0 is Some && inner.instant_notify;
            let n = res->Ok_0->0;
            &&& same_but_writing(inner, after)
            &&& ended && pos + n == buf.len() ==> {
                &&& step is Done
                &&& after.write is Empty
                &&& comes(inner, after, WRITABLE)
            }
            &&& ended && pos + n != buf.len() ==> {
                &&& step matches WriteStepView::Issue(bytes, at) && bytes == buf && at == pos + n
                &&& after == inner
            }
            &&& res is Ok && !ended ==> {
                &&& step is Pending
                &&& after.write matches State::Pending((bytes, at)) && bytes == buf && at == pos
                &&& after.iocp == inner.iocp
            }
            &&& res matches Err(e) ==> {
                &&& step matches WriteStepView::Failed(bytes) && bytes == buf
                &&& after.write matches State::Error(kept) && kept == e
                &&& comes(inner, after, WRITABLE)
            }
        }),
{
}

/// A write that completes with `n` bytes. With them all is written, and writable readiness
/// comes, and no other kind comes or goes; or exactly the rest is to be issued next, and
/// writable readiness does not show meanwhile. Either way no write is in progress until then.
pub proof fn law_completed_write(
    inner: SerialInnerView,
    buf: Seq<u8>,
    pos: nat,
    n: nat,
    kind: u8,
)
    requires
        inner.write matches State::Pending((bytes, at)) && bytes == buf && at == pos,
        pos + n <= buf.len(),
    ensures
        ({
            let (after, next) = inner.write_done(n);
            &&& same_but_writing(inner, after)
            &&& after.write is Empty
            &&& pos + n == buf.len() ==> next is None && comes(inner, after, WRITABLE)
            &&& pos + n < buf.len() ==> {
                &&& next matches Some((bytes, at)) && bytes == buf && at == pos + n
                &&& goes(inner, after, WRITABLE)
            }
            &&& listened_to(inner.iocp) ==> {
                &&& after.iocp.readiness->0.contains(WRITABLE) <==> pos + n == buf.len()
                &&& kind != WRITABLE ==> (after.iocp.readiness->0.contains(kind)
                    <==> inner.iocp.readiness->0.contains(kind))
            }
        }),
{
}

// ---------------------------------------------------------------------------------------
// Registering and connecting
// ---------------------------------------------------------------------------------------

/// Showing that a port can be written to: only where that is of interest and no write is on
/// its way or has failed, and nothing else is shown.
pub proof fn law_showing_writable(inner: SerialInnerView, interest: Set<u8>)
    ensures
        same_but_shown(inner, inner.writable_shown(interest)),
        interest.contains(WRITABLE) && inner.write is Empty ==> comes(
            inner,
            inner.writable_shown(interest),
            WRITABLE,
        ),
        !interest.contains(WRITABLE) || !(inner.write is Empty) ==> inner.writable_shown(interest)
            == inner,
{
}

/// Registering with an interest. Whoever wants to read gets a read issued wherever none is in
/// progress and none has ended unseen, whatever is being written; one that has ended is shown
/// again. Whoever wants to write is told at once where no write is on its way. Nothing is done
/// that was not asked for, and the registration succeeds.
pub proof fn law_registering(inner: SerialInnerView, interest: Set<u8>)
    ensures
        ({
            let (after, step) = inner.post_register(interest);
            let reads = interest.contains(READABLE);
            let writes = interest.contains(WRITABLE) && inner.write is Empty;
            &&& same_but_shown(inner, after)
            &&& step is IssueRead <==> reads && inner.read is Empty
            &&& !(step is IssueRead) ==> step is Done && step->Done_0 is Ok
            &&& reads && inner.read is Empty ==> goes(inner, after, READABLE)
            &&& reads && (inner.read is Ready || inner.read is Error) && !writes ==> comes(
                inner,
                after,
                READABLE,
            )
            &&& reads && (inner.read is Ready || inner.read is Error) && writes ==> {
                exists|between: BindingView|
                    {
                        &&& #[trigger] told(inner.iocp, between, set![READABLE], Set::empty())
                        &&& told(between, after.iocp, set![WRITABLE], Set::empty())
                    }
            }
            &&& (!reads || inner.read is Pending) && writes ==> comes(inner, after, WRITABLE)
            &&& (!reads || inner.read is Pending) && !writes ==> after == inner
        }),
{
    let between = inner.raise(set![READABLE]).iocp;
    assert(told(inner.iocp, between, set![READABLE], Set::empty()));
}

/// Whoever registers to read is served: the read that is asked for is issued, or one is on its
/// way already, or what it has found is shown, where anybody listens; and whoever registers to
/// write as well is told then, unless a write is on its way.
pub proof fn law_interest_is_served(
    inner: SerialInnerView,
    interest: Set<u8>,
    res: Result<Option<usize>, IoError>,
)
    requires
        listened_to(inner.iocp),
        interest.contains(READABLE),
    ensures
        ({
            let (asked, step) = inner.post_register(interest);
            let after = if step is IssueRead {
                asked.read_issued(res).writable_shown(interest)
            } else {
                asked
            };
            &&& !(after.read is Empty)
            &&& after.read is Ready || after.read is Error ==> after.iocp.readiness->0.contains(
                READABLE,
            )
            &&& interest.contains(WRITABLE) && inner.write is Empty
                ==> after.iocp.readiness->0.contains(WRITABLE)
            &&& after.write == inner.write
        }),
{
}

/// A connect that completes. One that has succeeded makes the port writable, and then a read
/// is scheduled; one that has failed is kept as the read's error, and shown both ways. What is
/// being written does not change.
pub proof fn law_completed_connect(inner: SerialInnerView, res: Result<(), IoError>)
    ensures
        same_but_reading(inner, inner.connected(res)),
        res matches Err(e) ==> {
            &&& inner.connected(res).read matches State::Error(kept) && kept == e
            &&& told(
                inner.iocp,
                inner.connected(res).iocp,
                set![READABLE, WRITABLE],
                Set::empty(),
            )
        },
        res is Ok ==> inner.connected(res).read == inner.read,
        res is Ok && inner.read is Pending ==> comes(inner, inner.connected(res), WRITABLE),
        res is Ok && inner.read is Empty ==> {
            exists|between: BindingView|
                {
                    &&& #[trigger] told(inner.iocp, between, set![WRITABLE], Set::empty())
                    &&& told(between, inner.connected(res).iocp, Set::empty(), set![READABLE])
                }
        },
        res is Ok && (inner.read is Ready || inner.read is Error) ==> {
            exists|between: BindingView|
                {
                    &&& #[trigger] told(inner.iocp, between, set![WRITABLE], Set::empty())
                    &&& told(between, inner.connected(res).iocp, set![READABLE], Set::empty())
                }
        },
{
    let between = inner.raise(set![WRITABLE]).iocp;
    assert(told(inner.iocp, between, set![WRITABLE], Set::empty()));
}

// ---------------------------------------------------------------------------------------
// References
// ---------------------------------------------------------------------------------------

/// An issued read changes the state of the one port as it does, takes one reference exactly
/// where it is in progress, and leaves the opened port and all others alone.
pub proof fn law_issued_read_keeps_a_reference<P>(
    ports: Map<usize, IoView<SerialInnerView, P>>,
    addr: usize,
    other: usize,
    res: Result<Option<usize>, IoError>,
)
    requires
        ports.contains_key(addr),
        other != addr,
    ensures
        ({
            let after = after_read_issued(ports, addr, res);
            let pending = res is Ok && !(res->Ok_0 is Some && ports[addr].inner.instant_notify);
            &&& after.contains_key(addr)
            &&& after[addr].inner == ports[addr].inner.read_issued(res)
            &&& after[addr].serial == ports[addr].serial
            &&& pending ==> after[addr].cnt == ports[addr].cnt + 1
            &&& !pending ==> after[addr].cnt == ports[addr].cnt
            &&& after.contains_key(other) <==> ports.contains_key(other)
            &&& ports.contains_key(other) ==> after[other] == ports[other]
        }),
{
}

/// An issued write changes the state of the one port as it does, takes one reference exactly
/// where it is in progress, and leaves the opened port and all others alone.
pub proof fn law_issued_write_keeps_a_reference<P>(
    ports: Map<usize, IoView<SerialInnerView, P>>,
    addr: usize,
    other: usize,
    buf: Seq<u8>,
    pos: nat,
    res: Result<Option<usize>, IoError>,
)
    requires
        ports.contains_key(addr),
        other != addr,
        pos <= buf.len(),
    ensures
        ({
            let after = after_write_issued(ports, addr, buf, pos, res);
            let pending = res is Ok && !(res->Ok_0 is Some && ports[addr].inner.instant_notify);
            &&& after.contains_key(addr)
            &&& after[addr].inner == ports[addr].inner.write_issued(buf, pos, res).0
            &&& after[addr].serial == ports[addr].serial
            &&& pending ==> after[addr].cnt == ports[addr].cnt + 1
            &&& !pending ==> after[addr].cnt == ports[addr].cnt
            &&& after.contains_key(other) <==> ports.contains_key(other)
            &&& ports.contains_key(other) ==> after[other] == ports[other]
        }),
{
}

} // verus!
