//! What holds of a port over more than one event.

use vstd::prelude::*;

#[allow(unused_imports)]
use crate::binding::BindingView;
#[allow(unused_imports)]
use crate::error::{blocked, ErrorKind, IoError, WSAECONNRESET};
#[allow(unused_imports)]
use crate::ready::{HUP, READABLE, WRITABLE};
#[allow(unused_imports)]
use crate::windows::block::{released, with_inner, IoView};
#[allow(unused_imports)]
use crate::windows::inner::{
    total, ReadvJob, ReadvStep, RegisterStep, SerialInnerView, State, WriteStepView, WritevStep,
};
#[allow(unused_imports)]
use crate::windows::{after_read_issued, after_write_issued};

verus! {

// ---------------------------------------------------------------------------------------
// Writing
// ---------------------------------------------------------------------------------------

/// Something that happens to a write on its way.
pub enum WriteEvent {
    /// The write of the rest was issued, and went so.
    Issued(Result<Option<usize>, IoError>),
    /// The write in progress has completed, with so many bytes.
    Completed(nat),
    /// What the port has published was handed to the event loop.
    HandedOver,
    /// The user of the port has closed it.
    Closed,
}

/// A write on its way.
pub struct WriteRun {
    /// The port.
    pub inner: SerialInnerView,
    /// The write that is to be issued next: a buffer, and how much of it has been written.
    pub job: Option<(Seq<u8>, nat)>,
    /// The bytes that the operating system has taken.
    pub taken: Seq<u8>,
}

/// Whether the event can happen to the write: one is issued where it is to be issued, one
/// completes where it is in progress, and no more bytes are taken than were offered. What was
/// published is handed over whenever that may be. The port is closed at most once, and not
/// while a write is being issued.
pub open spec fn can_happen(run: WriteRun, event: WriteEvent) -> bool {
    match event {
        WriteEvent::Issued(res) => {
            &&& run.job matches Some((buf, pos))
            &&& run.inner.instant_notify ==> (res matches Ok(Some(n)) ==> n <= buf.len() - pos)
        },
        WriteEvent::Completed(n) => run.inner.write matches State::Pending((buf, pos)) && pos + n
            <= buf.len(),
        WriteEvent::HandedOver => true,
        WriteEvent::Closed => run.job is None && !run.inner.iocp.closed,
    }
}

/// The write after an event.
pub open spec fn after_event(run: WriteRun, event: WriteEvent) -> WriteRun {
    match event {
        WriteEvent::Issued(res) => {
            let (buf, pos) = run.job->0;
            let (inner, step) = run.inner.write_issued(buf, pos, res);
            WriteRun {
                inner,
                job: match step {
                    WriteStepView::Issue(buf, pos) => Some((buf, pos)),
                    _ => None,
                },
                taken: match res {
                    Ok(Some(n)) if run.inner.instant_notify => run.taken + buf.subrange(
                        pos as int,
                        pos + n,
                    ),
                    _ => run.taken,
                },
            }
        },
        WriteEvent::Completed(n) => {
            let (buf, pos) = run.inner.write->Pending_0;
            let (inner, job) = run.inner.write_done(n);
            WriteRun { inner, job, taken: run.taken + buf.subrange(pos as int, (pos + n) as int) }
        },
        WriteEvent::HandedOver => WriteRun { inner: run.inner.handed_over(), ..run },
        WriteEvent::Closed => WriteRun { inner: run.inner.close(), ..run },
    }
}

/// The write of `buf` from its beginning, once it has been scheduled.
pub open spec fn scheduled(inner: SerialInnerView, buf: Seq<u8>) -> WriteRun {
    WriteRun { inner: inner.clear(set![WRITABLE]), job: Some((buf, 0)), taken: Seq::empty() }
}

/// The write after some events.
pub open spec fn after_events(run: WriteRun, events: Seq<WriteEvent>) -> WriteRun
    decreases events.len(),
{
    if events.len() == 0 {
        run
    } else {
        after_event(after_events(run, events.drop_last()), events.last())
    }
}

/// Whether the events can happen to the write, one after the other.
pub open spec fn can_all_happen(run: WriteRun, events: Seq<WriteEvent>) -> bool
    decreases events.len(),
{
    events.len() > 0 ==> {
        &&& can_all_happen(run, events.drop_last())
        &&& can_happen(after_events(run, events.drop_last()), events.last())
    }
}

/// Whether there is nothing more to be done or to be waited for.
pub open spec fn is_over(run: WriteRun) -> bool {
    run.job is None && !(run.inner.write is Pending)
}

/// A write goes on until all of its bytes have been taken, in order and each once, or until
/// it fails: whichever of the events of a write happen to it, the bytes taken so far are the first ones of the buffer,
/// and exactly the rest is offered next; it is over exactly when all have been taken and the
/// port is idle again, or when an issued write has failed with the error that the port keeps.
/// Closing the port does not stop it. And the port never shows that it is writable before the
/// write is over, and shows it from then on, unless it had been closed by then. No other kind
/// of readiness comes or goes.
pub proof fn law_write_goes_on_until_written(
    inner: SerialInnerView,
    buf: Seq<u8>,
    events: Seq<WriteEvent>,
)
    requires
        inner.write is Empty,
        inner.iocp.heard(),
        can_all_happen(scheduled(inner, buf), events),
    ensures
        ({
            let run = after_events(scheduled(inner, buf), events);
            let shown = run.inner.iocp.current().contains(WRITABLE);
            &&& run.taken.is_prefix_of(buf)
            &&& shown ==> is_over(run)
            &&& is_over(run) ==> shown || events.contains(WriteEvent::Closed)
            &&& run.job matches Some((all, pos)) ==> {
                &&& all == buf
                &&& pos == run.taken.len()
                &&& run.inner.write is Empty
            }
            &&& run.job is None ==> match run.inner.write {
                State::Pending((all, pos)) => all == buf && pos == run.taken.len(),
                State::Empty => run.taken == buf,
                State::Ready(_) => false,
                State::Error(e) => events.contains(WriteEvent::Issued(Err(e))),
            }
            &&& run.inner.read == inner.read
            &&& run.inner.instant_notify == inner.instant_notify
            &&& run.inner.iocp.registered()
            &&& forall|kind: u8|
                kind != WRITABLE ==> (#[trigger] run.inner.iocp.readiness->0.contains(kind)
                    <==> inner.iocp.readiness->0.contains(kind))
            &&& run.inner.iocp.closed <==> events.contains(WriteEvent::Closed)
        }),
    decreases events.len(),
{
    if events.len() > 0 {
        law_write_goes_on_until_written(inner, buf, events.drop_last());
        lemma_contains_grows(events);
        let before = after_events(scheduled(inner, buf), events.drop_last());
        let after = after_events(scheduled(inner, buf), events);
        let taken = before.taken;
        assert(taken =~= buf.take(taken.len() as int));
        match events.last() {
            WriteEvent::Issued(res) => {
                if let Ok(Some(n)) = res {
                    if before.inner.instant_notify {
                        assert(after.taken =~= buf.take(taken.len() + n));
                    }
                }
            },
            WriteEvent::Completed(n) => {
                assert(after.taken =~= buf.take((taken.len() + n) as int));
            },
            WriteEvent::HandedOver | WriteEvent::Closed => {},
        }
        assert(after.taken =~= buf.take(after.taken.len() as int));
    }
}

/// Among events there are those that were there before the last one, and the last one.
proof fn lemma_contains_grows(events: Seq<WriteEvent>)
    requires
        events.len() > 0,
    ensures
        forall|event: WriteEvent|
            #[trigger] events.contains(event) <==> events.drop_last().contains(event) || event
                == events.last(),
{
    assert forall|event: WriteEvent| #[trigger]
        events.contains(event) <==> events.drop_last().contains(event) || event
            == events.last() by {
        assert(events =~= events.drop_last().push(events.last()));
        if events.contains(event) && event != events.last() {
            let i = choose|i: int| 0 <= i < events.len() && events[i] == event;
            assert(events.drop_last()[i] == event);
        }
    }
}

/// For as long as not all bytes of a write have been taken, whatever has happened to it, the
/// port takes no other one: the bytes of two writes are never mixed.
pub proof fn law_unfinished_write_refuses_others(
    inner: SerialInnerView,
    buf: Seq<u8>,
    events: Seq<WriteEvent>,
    bufs: Seq<Seq<u8>>,
)
    requires
        inner.write is Empty,
        inner.iocp.heard(),
        can_all_happen(scheduled(inner, buf), events),
        after_events(scheduled(inner, buf), events).job is None,
        after_events(scheduled(inner, buf), events).taken != buf,
    ensures
        after_events(scheduled(inner, buf), events).inner.writev(bufs) == WritevStep::Return(
            Err(blocked()),
        ),
{
    law_write_goes_on_until_written(inner, buf, events);
}

/// While a write is on its way, and after it has failed, the port takes no other one, and so
/// does a port that is not registered: the caller is told that it would block.
pub proof fn law_busy_port_refuses_writes(inner: SerialInnerView, bufs: Seq<Seq<u8>>)
    requires
        !(inner.write is Empty) || !inner.iocp.registered(),
    ensures
        inner.writev(bufs) == WritevStep::Return(Err(blocked())),
{
}

/// A write that the port takes is one of all the bytes of the buffers, and that is how many
/// the caller is told.
pub proof fn law_write_takes_all_bytes(inner: SerialInnerView, bufs: Seq<Seq<u8>>)
    requires
        inner.write is Empty,
        inner.iocp.registered(),
        bufs.len() > 0,
        total(bufs) <= usize::MAX,
    ensures
        inner.writev(bufs) matches WritevStep::Gather(len) && len == bufs.flatten().len(),
{
    lemma_total_is_flat_length(bufs);
}

/// The buffers hold as many bytes together as one behind the other.
proof fn lemma_total_is_flat_length(bufs: Seq<Seq<u8>>)
    ensures
        total(bufs) == bufs.flatten().len(),
    decreases bufs.len(),
{
    if bufs.len() > 0 {
        lemma_total_is_flat_length(bufs.drop_last());
        bufs.drop_last().lemma_flatten_push(bufs.last());
        assert(bufs.drop_last().push(bufs.last()) =~= bufs);
    }
}

// ---------------------------------------------------------------------------------------
// Reading
// ---------------------------------------------------------------------------------------

/// The port, and what comes next, after a vectored read was begun and the reads it asked for
/// went so, one after the other.
pub open spec fn after_reads(
    inner: SerialInnerView,
    lens: Seq<usize>,
    results: Seq<Result<usize, IoError>>,
) -> (SerialInnerView, ReadvStep)
    decreases results.len(),
{
    if results.len() == 0 {
        inner.readv(lens)
    } else {
        let (before, step) = after_reads(inner, lens, results.drop_last());
        match step {
            ReadvStep::Read(job) => before.readv_read(lens, job, results.last()),
            _ => (before, step),
        }
    }
}

/// Whether each of the reads has filled its buffer.
pub open spec fn all_filled(lens: Seq<usize>, results: Seq<Result<usize, IoError>>) -> bool {
    forall|i: int| 0 <= i < results.len() ==> (#[trigger] results[i] matches Ok(n) && n >= lens[i])
}

/// The number of bytes that the reads gave.
pub open spec fn bytes_read(results: Seq<Result<usize, IoError>>) -> nat
    decreases results.len(),
{
    if results.len() == 0 {
        0
    } else {
        bytes_read(results.drop_last()) + match results.last() {
            Ok(n) => n as nat,
            Err(_) => 0,
        }
    }
}

/// A vectored read goes on to the next buffer for as long as each one is filled, and returns
/// the number of all the bytes read when there is no other buffer. Nothing else changes.
pub proof fn law_readv_fills_buffers_in_order(
    inner: SerialInnerView,
    lens: Seq<usize>,
    results: Seq<Result<usize, IoError>>,
)
    requires
        inner.read is Ready,
        results.len() <= lens.len() <= usize::MAX,
        all_filled(lens, results),
        bytes_read(results) <= usize::MAX,
    ensures
        after_reads(inner, lens, results).0 == inner,
        after_reads(inner, lens, results).1 == if results.len() == lens.len() {
            ReadvStep::Return(Ok(bytes_read(results) as usize))
        } else {
            ReadvStep::Read(
                ReadvJob { index: results.len() as usize, amt: bytes_read(results) as usize },
            )
        },
    decreases results.len(),
{
    if results.len() > 0 {
        let before = results.drop_last();
        assert forall|i: int| 0 <= i < before.len() implies (#[trigger] before[i] matches Ok(n) && n
            >= lens[i]) by {
            assert(before[i] == results[i]);
        }
        law_readv_fills_buffers_in_order(inner, lens, before);
        assert(results[results.len() - 1] is Ok);
    }
}

/// A read that does not fill its buffer ends the vectored read: the caller is told the number
/// of all the bytes read, and nothing else changes.
pub proof fn law_short_read_ends_readv(
    inner: SerialInnerView,
    lens: Seq<usize>,
    results: Seq<Result<usize, IoError>>,
)
    requires
        inner.read is Ready,
        0 < results.len() <= lens.len() <= usize::MAX,
        all_filled(lens, results.drop_last()),
        results.last() matches Ok(n) && n < lens[results.len() - 1],
        bytes_read(results) <= usize::MAX,
    ensures
        after_reads(inner, lens, results) == (
            inner,
            ReadvStep::Return(Ok(bytes_read(results) as usize)),
        ),
{
    law_readv_fills_buffers_in_order(inner, lens, results.drop_last());
}

/// A read that fails ends the vectored read, and neither bytes nor the error are lost. Bytes
/// that were read before it are always returned. An error that is not returned now is kept,
/// and is what the next vectored read returns, unless it only said that there was nothing
/// more to be read. And whenever an error is not kept, another read is scheduled.
pub proof fn law_failed_read_loses_nothing(
    inner: SerialInnerView,
    lens: Seq<usize>,
    results: Seq<Result<usize, IoError>>,
    next: Seq<usize>,
)
    requires
        inner.read is Ready,
        0 < results.len() <= lens.len() <= usize::MAX,
        all_filled(lens, results.drop_last()),
        results.last() is Err,
        bytes_read(results) <= usize::MAX,
    ensures
        ({
            let (after, step) = after_reads(inner, lens, results);
            let amt = bytes_read(results);
            let e = results.last()->Err_0;
            if amt > 0 && e.kind != ErrorKind::WouldBlock {
                &&& step == ReadvStep::Return(Ok(amt as usize))
                &&& after == inner.with_read(State::Error(e))
                &&& after.readv(next) == (
                    after.with_read(State::Empty).read_scheduled(),
                    ReadvStep::Schedule(Err(e)),
                )
            } else {
                &&& step == ReadvStep::Schedule(
                    if amt > 0 {
                        Ok(amt as usize)
                    } else {
                        Err(e)
                    },
                )
                &&& after == inner.with_read(State::Empty).clear(set![READABLE])
            }
        }),
{
    law_readv_fills_buffers_in_order(inner, lens, results.drop_last());
}

/// A vectored read of a port of which nothing is known to be there to be read tells its
/// caller that it would block, and changes nothing.
pub proof fn law_idle_port_refuses_reads(inner: SerialInnerView, lens: Seq<usize>)
    requires
        inner.read is Empty || inner.read is Pending,
    ensures
        inner.readv(lens) == (inner, ReadvStep::Return(Err(blocked()))),
{
}

/// An issued read that fails is shown as readable by a registered port, so that the error is
/// fetched, and as hung up as well exactly where the other end was found gone, or a hang-up
/// was shown before.
pub proof fn law_failed_read_is_shown(inner: SerialInnerView, e: IoError)
    requires
        inner.iocp.heard(),
    ensures
        ({
            let after = inner.read_issued(Err(e));
            &&& after.read == State::<(), ()>::Error(e)
            &&& after.iocp.current().contains(READABLE)
            &&& after.iocp.current().contains(HUP) <==> (e.raw_os_error == Some(WSAECONNRESET)
                || inner.iocp.current().contains(HUP))
        }),
{
}

/// At most one read of no bytes is on its way: none is issued while one is in progress, or
/// while it is not yet known to the user how the last one went.
pub proof fn law_one_read_at_a_time(inner: SerialInnerView, interest: Set<u8>)
    requires
        !(inner.read is Empty),
    ensures
        !inner.read_is_due(),
        inner.read_scheduled().read == inner.read,
        inner.post_register(interest).1 == RegisterStep::Done(Ok(())),
{
}

// ---------------------------------------------------------------------------------------
// Registering
// ---------------------------------------------------------------------------------------

/// A registered port that is asked for writable events and has no write on its way is shown
/// as writable at once, whether or not a read had to be issued before, and however it went.
pub proof fn law_writable_is_shown_at_once(
    inner: SerialInnerView,
    interest: Set<u8>,
    res: Result<Option<usize>, IoError>,
)
    requires
        inner.iocp.heard(),
        inner.write is Empty,
        interest.contains(WRITABLE),
    ensures
        ({
            let (after, step) = inner.post_register(interest);
            match step {
                RegisterStep::Done(ret) => ret is Ok && after.iocp.current().contains(WRITABLE),
                RegisterStep::IssueRead => after.read_issued(res).writable_shown(
                    interest,
                ).iocp.current().contains(WRITABLE),
                RegisterStep::SetModes(_) => false,
            }
        }),
{
}

/// What a registered port shows is what it has published last, until it is closed.
pub proof fn law_shown_is_published(binding: BindingView, set: Set<u8>)
    requires
        binding.heard(),
    ensures
        binding.raise(set).published.last() == binding.raise(set).current(),
        binding.clear(set).published.last() == binding.clear(set).current(),
        binding.raise(set).published.drop_last() == binding.published,
        binding.clear(set).published.drop_last() == binding.published,
        set.subset_of(binding.raise(set).current()),
        binding.clear(set).current().disjoint(set),
{
    assert(binding.raise(set).published.drop_last() =~= binding.published);
    assert(binding.clear(set).published.drop_last() =~= binding.published);
}

/// Readiness that is added to a registered port is shown beside what was shown before, and
/// neither direction changes.
pub proof fn law_readiness_is_added(inner: SerialInnerView, set: Set<u8>)
    requires
        inner.iocp.heard(),
    ensures
        inner.raise(set).iocp.current() == inner.iocp.current().union(set),
        inner.raise(set).iocp.published == inner.iocp.published.push(
            inner.iocp.current().union(set),
        ),
        inner.raise(set).read == inner.read,
        inner.raise(set).write == inner.write,
        inner.raise(set).instant_notify == inner.instant_notify,
{
    assert(set.union(inner.iocp.current()) =~= inner.iocp.current().union(set));
}

/// A port that has been closed is silent: whatever still happens to it, it publishes nothing,
/// and what it has shown last stays as it was.
pub proof fn law_closed_port_is_silent(
    inner: SerialInnerView,
    set: Set<u8>,
    buf: Seq<u8>,
    pos: nat,
    n: nat,
    res: Result<Option<usize>, IoError>,
    connected: Result<(), IoError>,
)
    requires
        inner.iocp.closed,
    ensures
        inner.raise(set) == inner,
        inner.clear(set) == inner,
        inner.with_read(State::Ready(())).raise(set![READABLE]).iocp == inner.iocp,
        inner.read_issued(res).iocp == inner.iocp,
        inner.write_issued(buf, pos, res).0.iocp == inner.iocp,
        inner.write_done(n).0.iocp == inner.iocp,
        inner.connected(connected).iocp == inner.iocp,
{
}

// ---------------------------------------------------------------------------------------
// What every event keeps
// ---------------------------------------------------------------------------------------

/// What holds of a port between events, whatever connects there are: a write in progress has
/// not written more than its buffer, and while a read is in progress the port does not show
/// that it has ended.
pub open spec fn nearly_sound(inner: SerialInnerView) -> bool {
    &&& !(inner.write is Ready)
    &&& inner.write matches State::Pending((buf, pos)) ==> pos <= buf.len()
    &&& inner.read is Pending ==> !inner.iocp.current().contains(READABLE)
}

/// What holds of a port between events, as long as no connect completes during a write: a
/// write in progress has not written more than its buffer, and while an operation is in
/// progress the port does not show that it has ended.
pub open spec fn sound(inner: SerialInnerView) -> bool {
    &&& nearly_sound(inner)
    &&& inner.write is Pending ==> !inner.iocp.current().contains(WRITABLE)
}

/// A new port is sound, and so is a sound one that was registered or closed, or whose
/// published readiness was handed over.
pub proof fn law_new_port_is_sound(inner: SerialInnerView)
    requires
        sound(inner),
    ensures
        sound(SerialInnerView::initial()),
        sound(SerialInnerView { iocp: inner.iocp.bound(), ..inner }),
        sound(SerialInnerView { instant_notify: true, ..inner }),
        sound(inner.close()),
        sound(inner.handed_over()),
{
}

/// Every step of a read keeps a port sound: scheduling one, whatever comes of an issued one,
/// a vectored read, and the completion. No read is issued by the user of a closed port.
pub proof fn law_reading_keeps_port_sound(
    inner: SerialInnerView,
    lens: Seq<usize>,
    job: ReadvJob,
    got: Result<usize, IoError>,
    res: Result<Option<usize>, IoError>,
)
    requires
        sound(inner),
    ensures
        sound(inner.read_scheduled()),
        inner.read is Empty && !inner.iocp.closed ==> sound(
            inner.read_scheduled().read_issued(res),
        ),
        sound(inner.readv(lens).0),
        inner.readv(lens).1 is Schedule && !inner.iocp.closed ==> sound(inner.readv(lens).0.read_issued(res)),
        sound(inner.readv_read(lens, job, got).0),
        inner.readv_read(lens, job, got).1 is Schedule && !inner.iocp.closed ==> sound(
            inner.readv_read(lens, job, got).0.read_issued(res),
        ),
        inner.read is Pending ==> sound(inner.with_read(State::Ready(())).raise(set![READABLE])),
{
}

/// Every step of a write keeps a port sound: scheduling one, whatever comes of an issued one,
/// and the completion.
pub proof fn law_writing_keeps_port_sound(
    inner: SerialInnerView,
    buf: Seq<u8>,
    events: Seq<WriteEvent>,
)
    requires
        sound(inner),
        inner.write is Empty,
        inner.iocp.heard(),
        can_all_happen(scheduled(inner, buf), events),
    ensures
        sound(after_events(scheduled(inner, buf), events).inner),
    decreases events.len(),
{
    law_write_goes_on_until_written(inner, buf, events);
    if events.len() > 0 {
        law_writing_keeps_port_sound(inner, buf, events.drop_last());
        law_write_goes_on_until_written(inner, buf, events.drop_last());
    }
}

/// Every step of a registration keeps a port sound that has not been closed.
pub proof fn law_registering_keeps_port_sound(
    inner: SerialInnerView,
    interest: Set<u8>,
    res: Result<Option<usize>, IoError>,
)
    requires
        sound(inner),
        !inner.iocp.closed,
    ensures
        sound(inner.post_register(interest).0),
        inner.post_register(interest).1 is IssueRead ==> sound(
            inner.post_register(interest).0.read_issued(res).writable_shown(interest),
        ),
{
}

/// A connect that completes keeps a port sound, where no operation is in progress and the
/// port has not been closed. Where a write is in progress, the port shows that it is writable
/// all the same, and nothing else is lost.
pub proof fn law_connecting_keeps_port_sound(
    inner: SerialInnerView,
    connected: Result<(), IoError>,
    res: Result<Option<usize>, IoError>,
)
    requires
        nearly_sound(inner),
        !(inner.read is Pending),
        !inner.iocp.closed,
    ensures
        nearly_sound(inner.connected(connected)),
        connected is Ok && inner.read_is_due() ==> nearly_sound(
            inner.connected(connected).read_issued(res),
        ),
        !(inner.write is Pending) ==> {
            &&& sound(inner.connected(connected))
            &&& connected is Ok && inner.read_is_due() ==> sound(
                inner.connected(connected).read_issued(res),
            )
        },
        inner.connected(connected).write == inner.write,
{
}

// ---------------------------------------------------------------------------------------
// How long a block lives
// ---------------------------------------------------------------------------------------

/// The number of operations in progress.
pub open spec fn in_progress(inner: SerialInnerView) -> nat {
    (if inner.read is Pending {
        1nat
    } else {
        0
    }) + (if inner.write is Pending {
        1nat
    } else {
        0
    })
}

/// Whether the references to the port at `addr` are those that `holders` hold, and one for
/// each operation in progress. Where that makes none, there is no port at `addr`.
pub open spec fn balanced<P>(
    ports: Map<usize, IoView<SerialInnerView, P>>,
    addr: usize,
    holders: nat,
) -> bool {
    if ports.contains_key(addr) {
        &&& ports[addr].cnt >= 1
        &&& ports[addr].cnt == holders + in_progress(ports[addr].inner)
    } else {
        holders == 0
    }
}

/// The block of a port is there for as long as an operation is in progress, whoever else has
/// given up their references: giving up one of the holders' references never frees it then.
pub proof fn law_block_outlives_operations<P>(
    ports: Map<usize, IoView<SerialInnerView, P>>,
    addr: usize,
    holders: nat,
)
    requires
        ports.contains_key(addr),
        balanced(ports, addr, holders),
        holders >= 1,
    ensures
        balanced(released(ports, addr), addr, (holders - 1) as nat),
        in_progress(ports[addr].inner) > 0 ==> {
            &&& released(ports, addr).contains_key(addr)
            &&& released(ports, addr)[addr].inner == ports[addr].inner
            &&& released(ports, addr)[addr].serial == ports[addr].serial
        },
        holders == 1 && in_progress(ports[addr].inner) == 0 ==> !released(
            ports,
            addr,
        ).contains_key(addr),
{
}

/// An operation that is issued takes a reference exactly where it is in progress from then
/// on.
pub proof fn law_issued_operation_takes_reference<P>(
    ports: Map<usize, IoView<SerialInnerView, P>>,
    addr: usize,
    holders: nat,
    buf: Seq<u8>,
    pos: nat,
    res: Result<Option<usize>, IoError>,
)
    requires
        ports.contains_key(addr),
        balanced(ports, addr, holders),
    ensures
        ports[addr].inner.read is Empty ==> balanced(
            after_read_issued(ports, addr, res),
            addr,
            holders,
        ),
        ports[addr].inner.write is Empty ==> balanced(
            after_write_issued(ports, addr, buf, pos, res),
            addr,
            holders,
        ),
{
}

/// A completion takes up the reference that the operation held, as one more holder's, for as
/// long as it is being handled; when it gives that reference up, the holders are those that
/// there were before, and the block is gone exactly where nobody is left.
pub proof fn law_completion_gives_reference_up<P>(
    ports: Map<usize, IoView<SerialInnerView, P>>,
    addr: usize,
    holders: nat,
    n: nat,
)
    requires
        ports.contains_key(addr),
        balanced(ports, addr, holders),
    ensures
        ports[addr].inner.read is Pending ==> {
            let read = with_inner(
                ports,
                addr,
                ports[addr].inner.with_read(State::Ready(())).raise(set![READABLE]),
            );
            &&& balanced(read, addr, holders + 1)
            &&& balanced(released(read, addr), addr, holders)
        },
        ports[addr].inner.write is Pending ==> {
            let written = with_inner(ports, addr, ports[addr].inner.write_done(n).0);
            &&& balanced(written, addr, holders + 1)
            &&& balanced(released(written, addr), addr, holders)
        },
{
}

/// Reading, deciding about a write, registering, and handing over what was published take and
/// give up no references.
pub proof fn law_other_steps_keep_references<P>(
    ports: Map<usize, IoView<SerialInnerView, P>>,
    addr: usize,
    holders: nat,
    lens: Seq<usize>,
    job: ReadvJob,
    got: Result<usize, IoError>,
    interest: Set<u8>,
)
    requires
        ports.contains_key(addr),
        balanced(ports, addr, holders),
    ensures
        balanced(with_inner(ports, addr, ports[addr].inner.readv(lens).0), addr, holders),
        ports[addr].inner.read is Ready ==> balanced(
            with_inner(ports, addr, ports[addr].inner.readv_read(lens, job, got).0),
            addr,
            holders,
        ),
        balanced(with_inner(ports, addr, ports[addr].inner.clear(set![WRITABLE])), addr, holders),
        balanced(
            with_inner(ports, addr, ports[addr].inner.post_register(interest).0),
            addr,
            holders,
        ),
        balanced(with_inner(ports, addr, ports[addr].inner.handed_over()), addr, holders),
{
}

} // verus!
