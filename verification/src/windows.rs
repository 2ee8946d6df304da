//! COM ports that are read and written through vectors of buffers.
//!
//! The state of a port lives in a counted block ([`SerialIo`]), so that an operation in
//! progress can hold on to it. [`Serial`] is what a user of the port owns; [`SerialImp`] is
//! one reference to the block. Each method takes the arena with the blocks, makes one
//! decision, and says which call into the operating system is due and where its outcome is
//! to be reported. The caller keeps the arena locked from the first step of an operation to
//! the last.

use mio::Ready;
use vstd::prelude::*;

#[allow(unused_imports)]
use crate::binding::{listened_to, told};
use crate::error::IoError;
use crate::from_raw_arc::Arena;
#[allow(unused_imports)]
use crate::from_raw_arc::counted;
#[allow(unused_imports)]
use crate::ready::{kinds, READABLE, WRITABLE};

pub use crate::error::would_block;

pub mod block;
pub mod effects;
pub mod inner;
pub mod laws;
pub mod lifetime;
pub mod serial;

use crate::windows::block::{Imp, Io};
#[allow(unused_imports)]
use crate::windows::block::{
    given_back, lendable_at, lent, open_at, ports, released, with_inner, IoView,
};
use crate::windows::inner::{ReadvJob, ReadvStep, RegisterStep, WriteJob, WriteStep, WritevStep};
use crate::windows::inner::{SerialInner, State};
#[allow(unused_imports)]
use crate::windows::inner::{contents, total, SerialInnerView};

verus! {

/// Do not queue a completion packet where an operation succeeds at once.
pub const FILE_SKIP_COMPLETION_PORT_ON_SUCCESS: u8 = 1;

/// Do not signal the handle's event on completion.
pub const FILE_SKIP_SET_EVENT_ON_HANDLE: u8 = 2;

/// The `TRUE` of the operating system's calls.
pub const TRUE: i32 = 1;

/// The block of a port.
pub type SerialIo<P> = Io<SerialInner, P>;

/// What the block of a port stands for.
pub type PortView<P> = IoView<SerialInnerView, P>;

/// One reference to the block of a port.
pub type SerialImp<P> = Imp<SerialInner, P>;

/// The ports after an issued read of the one at `addr` went so: one in progress keeps a
/// reference.
pub open spec fn after_read_issued<P>(
    ports: Map<usize, PortView<P>>,
    addr: usize,
    res: Result<Option<usize>, IoError>,
) -> Map<usize, PortView<P>> {
    let inner = ports[addr].inner.read_issued(res);
    let next = with_inner(ports, addr, inner);
    if inner.read is Pending {
        lent(next, addr)
    } else {
        next
    }
}

/// The ports after an issued write of the one at `addr` went so: one in progress keeps a
/// reference.
pub open spec fn after_write_issued<P>(
    ports: Map<usize, PortView<P>>,
    addr: usize,
    buf: Seq<u8>,
    pos: nat,
    res: Result<Option<usize>, IoError>,
) -> Map<usize, PortView<P>> {
    let (inner, step) = ports[addr].inner.write_issued(buf, pos, res);
    let next = with_inner(ports, addr, inner);
    if step is Pending {
        lent(next, addr)
    } else {
        next
    }
}

impl<P> Imp<SerialInner, P> {
    /// Takes note of how an issued read of no bytes went.
    pub fn read_issued(
        &self,
        arena: &mut Arena<SerialIo<P>>,
        res: Result<Option<usize>, IoError>,
    )
        requires
            lendable_at(old(arena)@, self.addr()),
        ensures
            open_at(final(arena)@, self.addr()),
            ports(final(arena)@) == after_read_issued(ports(old(arena)@), self.addr(), res),
    {
        if self.inner(arena).read_issued(res) {
            self.lend(arena);
        }
    }

    /// Takes note of how an issued write of the rest of `job` went.
    pub fn write_issued(
        &self,
        arena: &mut Arena<SerialIo<P>>,
        job: WriteJob,
        res: Result<Option<usize>, IoError>,
    ) -> (step: WriteStep)
        requires
            lendable_at(old(arena)@, self.addr()),
            job.pos <= job.buf@.len(),
            ports(old(arena)@)[self.addr()].inner.instant_notify ==> (res matches Ok(Some(n)) ==> n
                <= job.buf@.len() - job.pos),
        ensures
            open_at(final(arena)@, self.addr()),
            ports(final(arena)@) == after_write_issued(
                ports(old(arena)@),
                self.addr(),
                job.buf@,
                job.pos as nat,
                res,
            ),
            step@ == ports(old(arena)@)[self.addr()].inner.write_issued(
                job.buf@,
                job.pos as nat,
                res,
            ).1,
            step matches WriteStep::Issue(next) ==> next.pos <= next.buf@.len(),
    {
        let step = self.inner(arena).write_issued(job, res);
        if let WriteStep::Pending = step {
            self.lend(arena);
        }
        step
    }
}

/// A COM port, as its user owns it.
pub struct Serial<P> {
    imp: SerialImp<P>,
}

impl<P> Serial<P> {
    /// The address of the port's block.
    pub closed spec fn addr(&self) -> usize {
        self.imp.addr()
    }

    /// The reference to the port's block that the user holds.
    pub fn imp(&self) -> (imp: &SerialImp<P>)
        ensures
            imp.addr() == self.addr(),
    {
        &self.imp
    }

    /// Makes a port of what an attempt to open one gave, in a block at `addr`. Where the
    /// attempt failed, the error is the operating system's last one, whatever the attempt
    /// itself said.
    pub fn from_path<E>(
        arena: &mut Arena<SerialIo<P>>,
        addr: usize,
        opened: Result<P, E>,
        last_os_error: IoError,
    ) -> (res: Result<Serial<P>, IoError>)
        requires
            counted(old(arena)@),
            opened is Ok ==> !ports(old(arena)@).contains_key(addr),
        ensures
            counted(final(arena)@),
            match opened {
                Ok(port) => {
                    &&& res matches Ok(serial) && serial.addr() == addr
                    &&& ports(final(arena)@) == ports(old(arena)@).insert(
                        addr,
                        IoView { inner: SerialInnerView::initial(), serial: port, cnt: 1 },
                    )
                },
                Err(_) => res == Err::<Serial<P>, IoError>(last_os_error) && final(arena)@ == old(
                    arena,
                )@,
            },
    {
        match opened {
            Ok(port) => {
                Ok(Serial { imp: Imp::new(arena, addr, SerialInner::new(), port) })
            },
            Err(_) => Err(last_os_error),
        }
    }

    /// Begins a read into buffers of the lengths `lens`.
    pub fn readv(&self, arena: &mut Arena<SerialIo<P>>, lens: &[usize]) -> (step: ReadvStep)
        requires
            open_at(old(arena)@, self.addr()),
        ensures
            open_at(final(arena)@, self.addr()),
            ({
                let (inner, next) = ports(old(arena)@)[self.addr()].inner.readv(lens@);
                &&& ports(final(arena)@) == with_inner(ports(old(arena)@), self.addr(), inner)
                &&& step == next
            }),
    {
        self.imp.inner(arena).readv(lens)
    }

    /// Goes on with a read: takes note of how the read into the buffer at the job's index
    /// went.
    pub fn readv_read(
        &self,
        arena: &mut Arena<SerialIo<P>>,
        lens: &[usize],
        job: ReadvJob,
        res: Result<usize, IoError>,
    ) -> (step: ReadvStep)
        requires
            open_at(old(arena)@, self.addr()),
            job.index < lens@.len(),
            res matches Ok(n) ==> job.amt + n <= usize::MAX,
        ensures
            open_at(final(arena)@, self.addr()),
            ({
                let (inner, next) = ports(old(arena)@)[self.addr()].inner.readv_read(
                    lens@,
                    job,
                    res,
                );
                &&& ports(final(arena)@) == with_inner(ports(old(arena)@), self.addr(), inner)
                &&& step == next
            }),
    {
        self.imp.inner(arena).readv_read(lens, job, res)
    }

    /// Decides about a write of `bufs`.
    pub fn writev(&self, arena: &Arena<SerialIo<P>>, bufs: &[&[u8]]) -> (step: WritevStep)
        requires
            ports(arena@).contains_key(self.addr()),
            ({
                let inner = ports(arena@)[self.addr()].inner;
                inner.write is Empty && inner.iocp.registered() ==> total(contents(bufs@))
                    <= usize::MAX
            }),
        ensures
            step == ports(arena@)[self.addr()].inner.writev(contents(bufs@)),
    {
        self.imp.io(arena).inner.writev(bufs)
    }

    /// Goes on with a write: gathers `bufs` in `intermediate`, to be issued as one.
    pub fn writev_gather(
        &self,
        arena: &mut Arena<SerialIo<P>>,
        bufs: &[&[u8]],
        intermediate: Vec<u8>,
    ) -> (job: WriteJob)
        requires
            open_at(old(arena)@, self.addr()),
        ensures
            open_at(final(arena)@, self.addr()),
            ports(final(arena)@) == with_inner(
                ports(old(arena)@),
                self.addr(),
                ports(old(arena)@)[self.addr()].inner.clear(set![WRITABLE]),
            ),
            told(
                ports(old(arena)@)[self.addr()].inner.iocp,
                ports(final(arena)@)[self.addr()].inner.iocp,
                Set::empty(),
                set![WRITABLE],
            ),
            job.buf@ == intermediate@ + contents(bufs@).flatten(),
            job.pos == 0,
    {
        self.imp.inner(arena).writev_gather(bufs, intermediate)
    }

    /// Begins to register the port: takes note of how binding it to the event loop went.
    pub fn register(&self, arena: &mut Arena<SerialIo<P>>, bound: Result<(), IoError>) -> (step:
        RegisterStep)
        requires
            open_at(old(arena)@, self.addr()),
        ensures
            open_at(final(arena)@, self.addr()),
            match bound {
                Ok(_) => {
                    let inner = ports(old(arena)@)[self.addr()].inner;
                    &&& ports(final(arena)@) == with_inner(
                        ports(old(arena)@),
                        self.addr(),
                        SerialInnerView { iocp: inner.iocp.bound(), ..inner },
                    )
                    &&& listened_to(ports(final(arena)@)[self.addr()].inner.iocp)
                    &&& forall|kind: u8|
                        !#[trigger] ports(
                            final(arena)@,
                        )[self.addr()].inner.iocp.readiness->0.contains(kind)
                    &&& step == RegisterStep::SetModes(3)
                },
                Err(e) => final(arena)@ == old(arena)@ && step == RegisterStep::Done(Err(e)),
            },
    {
        match bound {
            Ok(()) => {
                self.imp.inner(arena).iocp.bind();
                RegisterStep::SetModes(completion_modes())
            },
            Err(e) => RegisterStep::Done(Err(e)),
        }
    }

    /// Goes on registering the port: takes note of how setting the completion modes went.
    pub fn register_modes(
        &self,
        arena: &mut Arena<SerialIo<P>>,
        interest: Ready,
        ret: i32,
        last_os_error: IoError,
    ) -> (step: RegisterStep)
        requires
            open_at(old(arena)@, self.addr()),
        ensures
            open_at(final(arena)@, self.addr()),
            if ret == TRUE {
                let inner = ports(old(arena)@)[self.addr()].inner;
                let (next, then) = (SerialInnerView { instant_notify: true, ..inner }).post_register(
                    kinds(interest),
                );
                &&& ports(final(arena)@) == with_inner(ports(old(arena)@), self.addr(), next)
                &&& ports(final(arena)@)[self.addr()].inner.instant_notify
                &&& step == then
            } else {
                final(arena)@ == old(arena)@ && step == RegisterStep::Done(Err(last_os_error))
            },
    {
        match no_notify_on_instant_completion(ret, last_os_error) {
            Ok(()) => {
                let me = self.imp.inner(arena);
                me.instant_notify = true;
                me.post_register(interest)
            },
            Err(e) => RegisterStep::Done(Err(e)),
        }
    }

    /// Begins to register the port anew, with another interest.
    pub fn reregister(
        &self,
        arena: &mut Arena<SerialIo<P>>,
        interest: Ready,
        bound: Result<(), IoError>,
    ) -> (step: RegisterStep)
        requires
            open_at(old(arena)@, self.addr()),
        ensures
            open_at(final(arena)@, self.addr()),
            match bound {
                Ok(_) => {
                    let (next, then) = ports(old(arena)@)[self.addr()].inner.post_register(
                        kinds(interest),
                    );
                    &&& ports(final(arena)@) == with_inner(ports(old(arena)@), self.addr(), next)
                    &&& step == then
                },
                Err(e) => final(arena)@ == old(arena)@ && step == RegisterStep::Done(Err(e)),
            },
    {
        match bound {
            Ok(()) => self.imp.inner(arena).post_register(interest),
            Err(e) => RegisterStep::Done(Err(e)),
        }
    }

    /// Ends a registration that issued a read: takes note of how the read went.
    pub fn register_read_issued(
        &self,
        arena: &mut Arena<SerialIo<P>>,
        interest: Ready,
        res: Result<Option<usize>, IoError>,
    )
        requires
            lendable_at(old(arena)@, self.addr()),
        ensures
            open_at(final(arena)@, self.addr()),
            ({
                let read = after_read_issued(ports(old(arena)@), self.addr(), res);
                ports(final(arena)@) == with_inner(
                    read,
                    self.addr(),
                    read[self.addr()].inner.writable_shown(kinds(interest)),
                )
            }),
    {
        self.imp.read_issued(arena, res);
        self.imp.inner(arena).show_writable(interest);
    }

    /// Whether closing the port cancels its read: where one may be in progress, it is of no
    /// interest any more. Writes are not cancelled.
    pub fn cancels_read(&self, arena: &Arena<SerialIo<P>>) -> (cancel: bool)
        requires
            ports(arena@).contains_key(self.addr()),
        ensures
            cancel == ({
                let read = ports(arena@)[self.addr()].inner.read;
                read is Pending || read is Empty
            }),
    {
        match self.imp.io(arena).inner.read {
            State::Pending(_) | State::Empty => true,
            State::Ready(_) | State::Error(_) => false,
        }
    }

    /// Closes the port. Its block stays for as long as an operation is in progress, but the
    /// event loop hears nothing more of it.
    pub fn drop(self, arena: &mut Arena<SerialIo<P>>) -> (freed: Option<SerialIo<P>>)
        requires
            open_at(old(arena)@, self.addr()),
        ensures
            counted(final(arena)@),
            ({
                let before = ports(old(arena)@);
                let closed = with_inner(before, self.addr(), before[self.addr()].inner.close());
                &&& ports(final(arena)@) == released(closed, self.addr())
                &&& given_back(closed[self.addr()], freed)
            }),
    {
        self.imp.inner(arena).iocp.close();
        self.imp.drop(arena)
    }
}

/// The modes that keep an operation that completes at once from being reported again.
pub fn completion_modes() -> (flags: u8)
    ensures
        flags == 3,
{
    assert(1u8 | 2u8 == 3u8) by (bit_vector);
    FILE_SKIP_COMPLETION_PORT_ON_SUCCESS | FILE_SKIP_SET_EVENT_ON_HANDLE
}

/// How setting the completion modes went: what the call returned is `TRUE`, or it failed.
pub fn no_notify_on_instant_completion(ret: i32, last_os_error: IoError) -> (res: Result<
    (),
    IoError,
>)
    ensures
        res == (if ret == TRUE {
            Ok::<(), IoError>(())
        } else {
            Err(last_os_error)
        }),
{
    if ret == TRUE {
        Ok(())
    } else {
        Err(last_os_error)
    }
}

/// How cancelling an operation went: the call failed where it returned nought.
pub fn cancel(ret: i32, last_os_error: IoError) -> (res: Result<(), IoError>)
    ensures
        res == (if ret == 0 {
            Err::<(), IoError>(last_os_error)
        } else {
            Ok(())
        }),
{
    if ret == 0 {
        Err(last_os_error)
    } else {
        Ok(())
    }
}

/// What is to be done next after a read has completed.
pub enum ReadDone<P> {
    /// Nothing: the reference that the read held has been given up.
    Finished(Option<SerialIo<P>>),
    /// No read was in progress, so a connect has finished. Find out how it went, and report
    /// that; the reference that the connect held goes along.
    Connect(SerialImp<P>),
}

/// What is to be done next after a connect has completed.
pub enum ConnectDone<P> {
    /// Nothing: the reference that the connect held has been given up.
    Finished(Option<SerialIo<P>>),
    /// Issue a read of no bytes, and report how that went.
    IssueRead(SerialImp<P>),
}

/// What is to be done next after a write has completed.
pub enum WriteDone<P> {
    /// Nothing: the reference that the write held has been given up.
    Finished(Option<SerialIo<P>>),
    /// Issue a write of the rest of the job and report how that went, until it is over; then
    /// give the reference up.
    Issue(SerialImp<P>, WriteJob),
}

/// A read has completed, on the overlapped structure at `overlapped`, which lies `offset`
/// into the `size` bytes of a port's block. A read of no bytes transfers none.
pub fn read_done<P>(
    arena: &mut Arena<SerialIo<P>>,
    overlapped: usize,
    offset: usize,
    size: usize,
    bytes_transferred: u32,
) -> (done: ReadDone<P>)
    requires
        offset < size,
        offset <= overlapped,
        open_at(old(arena)@, (overlapped - offset) as usize),
        ports(old(arena)@)[(overlapped - offset) as usize].inner.read is Pending
            ==> bytes_transferred == 0,
    ensures
        counted(final(arena)@),
        ({
            let addr = (overlapped - offset) as usize;
            let before = ports(old(arena)@);
            if before[addr].inner.read is Pending {
                let read = with_inner(
                    before,
                    addr,
                    before[addr].inner.with_read(State::Ready(())).raise(set![READABLE]),
                );
                &&& ports(final(arena)@) == released(read, addr)
                &&& read[addr].inner.read is Ready
                &&& read[addr].inner.write == before[addr].inner.write
                &&& read[addr].inner.instant_notify == before[addr].inner.instant_notify
                &&& told(
                    before[addr].inner.iocp,
                    read[addr].inner.iocp,
                    set![READABLE],
                    Set::empty(),
                )
                &&& done matches ReadDone::Finished(freed) && given_back(read[addr], freed)
            } else {
                &&& final(arena)@ == old(arena)@
                &&& done matches ReadDone::Connect(me) && me.addr() == addr
            }
        }),
{
    let me2: SerialImp<P> = Imp::from_overlapped(overlapped, offset, size);
    match me2.io(arena).inner.read {
        State::Pending(_) => {
            let me = me2.inner(arena);
            me.read = State::Ready(());
            me.add_readiness(Ready::readable());
            ReadDone::Finished(me2.drop(arena))
        },
        _ => ReadDone::Connect(me2),
    }
}

/// A connect has completed so.
pub fn connect_done<P>(
    me2: SerialImp<P>,
    arena: &mut Arena<SerialIo<P>>,
    res: Result<(), IoError>,
) -> (done: ConnectDone<P>)
    requires
        open_at(old(arena)@, me2.addr()),
    ensures
        counted(final(arena)@),
        ({
            let addr = me2.addr();
            let before = ports(old(arena)@);
            let connected = with_inner(before, addr, before[addr].inner.connected(res));
            if res is Ok && before[addr].inner.read_is_due() {
                &&& ports(final(arena)@) == connected
                &&& done matches ConnectDone::IssueRead(me) && me.addr() == addr
            } else {
                &&& ports(final(arena)@) == released(connected, addr)
                &&& done matches ConnectDone::Finished(freed) && given_back(
                    connected[addr],
                    freed,
                )
            }
        }),
{
    if me2.inner(arena).connect_complete(res) {
        ConnectDone::IssueRead(me2)
    } else {
        ConnectDone::Finished(me2.drop(arena))
    }
}

/// The read that was issued after a connect went so.
pub fn connect_read_issued<P>(
    me2: SerialImp<P>,
    arena: &mut Arena<SerialIo<P>>,
    res: Result<Option<usize>, IoError>,
) -> (freed: Option<SerialIo<P>>)
    requires
        lendable_at(old(arena)@, me2.addr()),
    ensures
        counted(final(arena)@),
        ({
            let read = after_read_issued(ports(old(arena)@), me2.addr(), res);
            &&& ports(final(arena)@) == released(read, me2.addr())
            &&& given_back(read[me2.addr()], freed)
        }),
{
    me2.read_issued(arena, res);
    me2.drop(arena)
}

/// A write has completed, on the overlapped structure at `overlapped`, which lies `offset`
/// into the `size` bytes of a port's block.
pub fn write_done<P>(
    arena: &mut Arena<SerialIo<P>>,
    overlapped: usize,
    offset: usize,
    size: usize,
    bytes_transferred: u32,
) -> (done: WriteDone<P>)
    requires
        offset < size,
        offset <= overlapped,
        open_at(old(arena)@, (overlapped - offset) as usize),
        ports(old(arena)@)[(overlapped - offset) as usize].inner.write matches State::Pending(
            (buf, pos),
        ) && pos + bytes_transferred <= buf.len(),
    ensures
        counted(final(arena)@),
        ({
            let addr = (overlapped - offset) as usize;
            let before = ports(old(arena)@);
            let (inner, next) = before[addr].inner.write_done(bytes_transferred as nat);
            let written = with_inner(before, addr, inner);
            match next {
                Some((buf, pos)) => {
                    &&& ports(final(arena)@) == written
                    &&& done matches WriteDone::Issue(me, job) && me.addr() == addr && job.buf@
                        == buf && job.pos == pos && job.pos <= job.buf@.len()
                },
                None => {
                    &&& ports(final(arena)@) == released(written, addr)
                    &&& done matches WriteDone::Finished(freed) && given_back(
                        written[addr],
                        freed,
                    )
                },
            }
        }),
{
    let me2: SerialImp<P> = Imp::from_overlapped(overlapped, offset, size);
    match me2.inner(arena).write_done(bytes_transferred as usize) {
        Some(job) => WriteDone::Issue(me2, job),
        None => {
            WriteDone::Finished(me2.drop(arena))
        },
    }
}

} // verus!
