//! The state of a port, and how each event changes it.

use mio::Ready;
use vstd::prelude::*;

use crate::binding::Binding;
#[allow(unused_imports)]
use crate::binding::{told, BindingView};
#[allow(unused_imports)]
use crate::error::{blocked, ErrorKind, WSAECONNRESET};
use crate::error::{wouldblock, IoError};
use crate::ready::{hup, union};
#[allow(unused_imports)]
use crate::ready::{kinds, HUP, READABLE, WRITABLE};

verus! {

/// How far one direction of a port has got.
#[derive(Debug)]
pub enum State<T, U> {
    /// No operation is in progress.
    Empty,
    /// An operation is in progress.
    Pending(T),
    /// An operation has finished with this value.
    Ready(U),
    /// An operation has failed.
    Error(IoError),
}

/// What a port remembers from one event to the next.
pub struct SerialInner {
    /// The binding to the event loop.
    pub iocp: Binding,
    /// The reading direction. It is driven by reads of no bytes: a finished one tells that
    /// there is something to be read.
    pub read: State<(), ()>,
    /// The writing direction: a buffer, and how much of it has been written.
    pub write: State<(Vec<u8>, usize), (Vec<u8>, usize)>,
    /// Whether an operation that completes at once is not reported through the event loop
    /// as well.
    pub instant_notify: bool,
}

/// What a [`SerialInner`] stands for.
#[verifier::ext_equal]
pub struct SerialInnerView {
    /// The binding to the event loop.
    pub iocp: BindingView,
    /// The reading direction.
    pub read: State<(), ()>,
    /// The writing direction: a buffer, and how much of it has been written.
    pub write: State<(Seq<u8>, nat), (Seq<u8>, nat)>,
    /// Whether an operation that completes at once is not reported again.
    pub instant_notify: bool,
}

/// What stands for the writing direction.
pub open spec fn write_view(
    write: State<(Vec<u8>, usize), (Vec<u8>, usize)>,
) -> State<(Seq<u8>, nat), (Seq<u8>, nat)> {
    match write {
        State::Empty => State::Empty,
        State::Pending((buf, pos)) => State::Pending((buf@, pos as nat)),
        State::Ready((buf, pos)) => State::Ready((buf@, pos as nat)),
        State::Error(e) => State::Error(e),
    }
}

impl View for SerialInner {
    type V = SerialInnerView;

    open spec fn view(&self) -> SerialInnerView {
        SerialInnerView {
            iocp: self.iocp@,
            read: self.read,
            write: write_view(self.write),
            instant_notify: self.instant_notify,
        }
    }
}

/// A write on its way: a buffer, and how much of it has been written.
pub struct WriteJob {
    /// All the bytes of the write.
    pub buf: Vec<u8>,
    /// How many of them have been written.
    pub pos: usize,
}

impl WriteJob {
    /// The bytes that are still to be written: the ones to issue.
    pub fn rest(&self) -> (bytes: &[u8])
        requires
            self.pos <= self.buf@.len(),
        ensures
            bytes@ == self.buf@.skip(self.pos as int),
    {
        let bytes = vstd::slice::slice_subrange(self.buf.as_slice(), self.pos, self.buf.len());
        assert(bytes@ =~= self.buf@.skip(self.pos as int));
        bytes
    }
}

/// What is to be done next for a write.
pub enum WriteStep {
    /// Issue a write of the rest of the job, and report how that went.
    Issue(WriteJob),
    /// The write is in progress: its completion will be reported. The operation keeps a
    /// reference to the port's block until then.
    Pending,
    /// All of it has been written.
    Done,
    /// The write has failed. The buffer may be used again.
    Failed(Vec<u8>),
}

/// What a [`WriteStep`] stands for.
pub enum WriteStepView {
    /// Issue a write of the buffer from the position on.
    Issue(Seq<u8>, nat),
    /// The write is in progress.
    Pending,
    /// All of it has been written.
    Done,
    /// The write has failed, and this was its buffer.
    Failed(Seq<u8>),
}

impl View for WriteStep {
    type V = WriteStepView;

    open spec fn view(&self) -> WriteStepView {
        match *self {
            WriteStep::Issue(job) => WriteStepView::Issue(job.buf@, job.pos as nat),
            WriteStep::Pending => WriteStepView::Pending,
            WriteStep::Done => WriteStepView::Done,
            WriteStep::Failed(buf) => WriteStepView::Failed(buf@),
        }
    }
}

/// Where a vectored read has got to.
#[derive(Clone, Copy, Debug, PartialEq, Eq)]
pub struct ReadvJob {
    /// The buffer to fill next.
    pub index: usize,
    /// How many bytes have been read into the buffers before it.
    pub amt: usize,
}

/// What is to be done next for a vectored read.
#[derive(Debug)]
pub enum ReadvStep {
    /// Read into the buffer at the job's index, and report how that went.
    Read(ReadvJob),
    /// Issue a read of no bytes, report how that went, and return the result.
    Schedule(Result<usize, IoError>),
    /// Return the result.
    Return(Result<usize, IoError>),
}

/// What is to be done next for a vectored write.
#[derive(Debug)]
pub enum WritevStep {
    /// Return the result.
    Return(Result<usize, IoError>),
    /// Get an empty buffer with room for so many bytes, gather them in it, write them, and
    /// return how many there are.
    Gather(usize),
}

/// What is to be done next to register a port.
#[derive(Debug)]
pub enum RegisterStep {
    /// Set these completion notification modes on the port's handle, and report how that
    /// went.
    SetModes(u8),
    /// Issue a read of no bytes, and report how that went.
    IssueRead,
    /// Return the result.
    Done(Result<(), IoError>),
}

/// The number of bytes in `bufs`.
pub open spec fn total(bufs: Seq<Seq<u8>>) -> nat
    decreases bufs.len(),
{
    if bufs.len() == 0 {
        0
    } else {
        total(bufs.drop_last()) + bufs.last().len()
    }
}

/// The bytes of slices.
pub open spec fn contents(bufs: Seq<&[u8]>) -> Seq<Seq<u8>> {
    bufs.map_values(|buf: &[u8]| buf@)
}

impl SerialInnerView {
    /// A port that nothing has happened to.
    pub open spec fn initial() -> SerialInnerView {
        SerialInnerView {
            iocp: BindingView::unbound(),
            read: State::Empty,
            write: State::Empty,
            instant_notify: false,
        }
    }

    /// The port with the kinds in `set` shown too.
    pub open spec fn raise(self, set: Set<u8>) -> SerialInnerView {
        SerialInnerView { iocp: self.iocp.raise(set), ..self }
    }

    /// The port with the kinds in `set` not shown any more.
    pub open spec fn clear(self, set: Set<u8>) -> SerialInnerView {
        SerialInnerView { iocp: self.iocp.clear(set), ..self }
    }

    /// The port after its user has closed it.
    pub open spec fn close(self) -> SerialInnerView {
        SerialInnerView { iocp: self.iocp.close(), ..self }
    }

    /// The port after what it has published was handed to the event loop.
    pub open spec fn handed_over(self) -> SerialInnerView {
        SerialInnerView { iocp: self.iocp.handed_over(), ..self }
    }

    /// The port with another state of the reading direction.
    pub open spec fn with_read(self, read: State<(), ()>) -> SerialInnerView {
        SerialInnerView { read, ..self }
    }

    /// The port with another state of the writing direction.
    pub open spec fn with_write(
        self,
        write: State<(Seq<u8>, nat), (Seq<u8>, nat)>,
    ) -> SerialInnerView {
        SerialInnerView { write, ..self }
    }

    /// Whether scheduling a read issues one: only where none is in progress or unseen.
    pub open spec fn read_is_due(self) -> bool {
        self.read is Empty
    }

    /// The port after a read was scheduled. An issued read takes the readable readiness away
    /// until it is known how the read went; one that has finished or failed already is
    /// shown again.
    pub open spec fn read_scheduled(self) -> SerialInnerView {
        match self.read {
            State::Empty => self.clear(set![READABLE]),
            State::Pending(_) => self,
            State::Ready(_) | State::Error(_) => self.raise(set![READABLE]),
        }
    }

    /// The port after the issued read of no bytes went so. A failed one is readable, so that
    /// the error is fetched, and hung up too where the other end is gone.
    pub open spec fn read_issued(self, res: Result<Option<usize>, IoError>) -> SerialInnerView {
        match res {
            Ok(done) => if done is Some && self.instant_notify {
                self.with_read(State::Ready(())).raise(set![READABLE])
            } else {
                self.with_read(State::Pending(()))
            },
            Err(e) => self.with_read(State::Error(e)).raise(
                if e.raw_os_error == Some(WSAECONNRESET) {
                    set![READABLE, HUP]
                } else {
                    set![READABLE]
                },
            ),
        }
    }

    /// The port after the issued write of `buf` from `pos` on went so, and what comes next.
    pub open spec fn write_issued(
        self,
        buf: Seq<u8>,
        pos: nat,
        res: Result<Option<usize>, IoError>,
    ) -> (SerialInnerView, WriteStepView) {
        match res {
            Ok(done) => match done {
                Some(n) if self.instant_notify => if n == buf.len() - pos {
                    (self.raise(set![WRITABLE]).with_write(State::Empty), WriteStepView::Done)
                } else {
                    (self, WriteStepView::Issue(buf, pos + n as nat))
                },
                _ => (self.with_write(State::Pending((buf, pos))), WriteStepView::Pending),
            },
            Err(e) => (
                self.with_write(State::Error(e)).raise(set![WRITABLE]),
                WriteStepView::Failed(buf),
            ),
        }
    }

    /// The port after a vectored read into buffers of the lengths `lens` was begun, and what
    /// comes next.
    pub open spec fn readv(self, lens: Seq<usize>) -> (SerialInnerView, ReadvStep) {
        match self.read {
            State::Empty | State::Pending(_) => (self, ReadvStep::Return(Err(blocked()))),
            State::Error(e) => (
                self.with_read(State::Empty).read_scheduled(),
                ReadvStep::Schedule(Err(e)),
            ),
            State::Ready(_) => (
                self,
                if lens.len() == 0 {
                    ReadvStep::Return(Ok(0))
                } else {
                    ReadvStep::Read(ReadvJob { index: 0, amt: 0 })
                },
            ),
        }
    }

    /// The port after the read into the buffer at the job's index went so, and what comes
    /// next.
    pub open spec fn readv_read(
        self,
        lens: Seq<usize>,
        job: ReadvJob,
        res: Result<usize, IoError>,
    ) -> (SerialInnerView, ReadvStep) {
        match res {
            Ok(n) => (
                self,
                if n < lens[job.index as int] || job.index + 1 == lens.len() {
                    ReadvStep::Return(Ok((job.amt + n) as usize))
                } else {
                    ReadvStep::Read(
                        ReadvJob { index: (job.index + 1) as usize, amt: (job.amt + n) as usize },
                    )
                },
            ),
            Err(e) => if job.amt > 0 && e.kind != ErrorKind::WouldBlock {
                (self.with_read(State::Error(e)), ReadvStep::Return(Ok(job.amt)))
            } else {
                (
                    self.with_read(State::Empty).read_scheduled(),
                    ReadvStep::Schedule(
                        if job.amt > 0 {
                            Ok(job.amt)
                        } else {
                            Err(e)
                        },
                    ),
                )
            },
        }
    }

    /// What comes next for a vectored write of `bufs`.
    pub open spec fn writev(self, bufs: Seq<Seq<u8>>) -> WritevStep {
        if !(self.write is Empty) || !self.iocp.registered() {
            WritevStep::Return(Err(blocked()))
        } else if bufs.len() == 0 {
            WritevStep::Return(Ok(0))
        } else {
            WritevStep::Gather(total(bufs) as usize)
        }
    }

    /// The port after it has shown, where that is of interest, that it can be written to.
    pub open spec fn writable_shown(self, interest: Set<u8>) -> SerialInnerView {
        if interest.contains(WRITABLE) && self.write is Empty {
            self.raise(set![WRITABLE])
        } else {
            self
        }
    }

    /// The port after it was registered, or registered anew, with an interest, and what comes
    /// next.
    pub open spec fn post_register(self, interest: Set<u8>) -> (SerialInnerView, RegisterStep) {
        if !interest.contains(READABLE) {
            (self.writable_shown(interest), RegisterStep::Done(Ok(())))
        } else if self.read_is_due() {
            (self.read_scheduled(), RegisterStep::IssueRead)
        } else {
            (self.read_scheduled().writable_shown(interest), RegisterStep::Done(Ok(())))
        }
    }

    /// The port after a connect has completed so. Whether a read is to be issued then is said
    /// by [`Self::read_is_due`], before the connect.
    pub open spec fn connected(self, res: Result<(), IoError>) -> SerialInnerView {
        match res {
            Ok(_) => self.raise(set![WRITABLE]).read_scheduled(),
            Err(e) => self.raise(set![READABLE, WRITABLE]).with_read(State::Error(e)),
        }
    }

    /// The port after `n` more bytes of the write in progress were written, and the write
    /// that is to be issued next.
    pub open spec fn write_done(self, n: nat) -> (SerialInnerView, Option<(Seq<u8>, nat)>) {
        let (buf, pos) = self.write->Pending_0;
        let idle = self.with_write(State::Empty);
        if pos + n == buf.len() {
            (idle.raise(set![WRITABLE]), None)
        } else {
            (idle.clear(set![WRITABLE]), Some((buf, pos + n)))
        }
    }
}

impl SerialInner {
    /// A port that nothing has happened to.
    pub fn new() -> (me: SerialInner)
        ensures
            me@ == SerialInnerView::initial(),
    {
        SerialInner {
            iocp: Binding::new(),
            read: State::Empty,
            write: State::Empty,
            instant_notify: false,
        }
    }

    /// Shows the kinds in `set` beside those that are shown already. Where the port has been
    /// closed, nobody is told any more.
    pub fn add_readiness(&mut self, set: Ready)
        ensures
            final(self)@ == old(self)@.raise(kinds(set)),
    {
        self.iocp.add_readiness(set);
    }

    /// Schedules a read of no bytes. Returns whether it is to be issued.
    pub fn schedule_read(&mut self) -> (issue: bool)
        ensures
            final(self)@ == old(self)@.read_scheduled(),
            issue == old(self)@.read_is_due(),
    {
        match self.read {
            State::Empty => {},
            State::Ready(_) | State::Error(_) => {
                self.add_readiness(Ready::readable());
                return false;
            },
            State::Pending(_) => {
                return false;
            },
        }
        self.iocp.remove_readiness(Ready::readable());
        true
    }

    /// Takes note of how an issued read of no bytes went. Returns whether it is in progress.
    pub fn read_issued(&mut self, res: Result<Option<usize>, IoError>) -> (pending: bool)
        ensures
            final(self)@ == old(self)@.read_issued(res),
            pending == (final(self)@.read is Pending),
    {
        match res {
            Ok(done) => {
                if done.is_some() && self.instant_notify {
                    self.read = State::Ready(());
                    self.add_readiness(Ready::readable());
                    false
                } else {
                    self.read = State::Pending(());
                    true
                }
            },
            Err(e) => {
                let mut set = Ready::readable();
                if e.is_connection_reset() {
                    set = union(set, hup());
                    assert(kinds(set) =~= set![READABLE, HUP]);
                }
                self.read = State::Error(e);
                self.add_readiness(set);
                false
            },
        }
    }

    /// Schedules a write of `buf` from `pos` on. Clears the writable readiness: there will be
    /// no more of it until all of `buf` has been written, or the write has failed.
    pub fn schedule_write(&mut self, buf: Vec<u8>, pos: usize) -> (job: WriteJob)
        requires
            pos <= buf@.len(),
        ensures
            final(self)@ == old(self)@.clear(set![WRITABLE]),
            told(old(self)@.iocp, final(self)@.iocp, Set::empty(), set![WRITABLE]),
            final(self)@.read == old(self)@.read,
            final(self)@.write == old(self)@.write,
            final(self)@.instant_notify == old(self)@.instant_notify,
            job.buf@ == buf@,
            job.pos == pos,
    {
        self.iocp.remove_readiness(Ready::writable());
        WriteJob { buf, pos }
    }

    /// Takes note of how an issued write of the rest of `job` went.
    pub fn write_issued(&mut self, job: WriteJob, res: Result<Option<usize>, IoError>) -> (step:
        WriteStep)
        requires
            job.pos <= job.buf@.len(),
            old(self)@.instant_notify ==> (res matches Ok(Some(n)) ==> n <= job.buf@.len()
                - job.pos),
        ensures
            (final(self)@, step@) == old(self)@.write_issued(job.buf@, job.pos as nat, res),
            step matches WriteStep::Issue(next) ==> next.pos <= next.buf@.len(),
    {
        match res {
            Ok(done) => {
                match done {
                    Some(n) => {
                        if self.instant_notify {
                            if n == job.buf.len() - job.pos {
                                self.add_readiness(Ready::writable());
                                self.write = State::Empty;
                                return WriteStep::Done;
                            }
                            return WriteStep::Issue(WriteJob { buf: job.buf, pos: job.pos + n });
                        }
                    },
                    None => {},
                }
                self.write = State::Pending((job.buf, job.pos));
                WriteStep::Pending
            },
            Err(e) => {
                self.write = State::Error(e);
                self.add_readiness(Ready::writable());
                WriteStep::Failed(job.buf)
            },
        }
    }

    /// Begins a vectored read into buffers of the lengths `lens`.
    pub fn readv(&mut self, lens: &[usize]) -> (step: ReadvStep)
        ensures
            (final(self)@, step) == old(self)@.readv(lens@),
    {
        match self.read {
            State::Empty | State::Pending(_) => {
                return ReadvStep::Return(Err(wouldblock()));
            },
            State::Error(_) => {
                let mut read: State<(), ()> = State::Empty;
                std::mem::swap(&mut read, &mut self.read);
                if let State::Error(e) = read {
                    self.schedule_read();
                    return ReadvStep::Schedule(Err(e));
                }
            },
            State::Ready(_) => {},
        }
        if lens.len() == 0 {
            ReadvStep::Return(Ok(0))
        } else {
            ReadvStep::Read(ReadvJob { index: 0, amt: 0 })
        }
    }

    /// Takes note of how the read into the buffer at the job's index went.
    pub fn readv_read(
        &mut self,
        lens: &[usize],
        job: ReadvJob,
        res: Result<usize, IoError>,
    ) -> (step: ReadvStep)
        requires
            job.index < lens@.len(),
            res matches Ok(n) ==> job.amt + n <= usize::MAX,
        ensures
            (final(self)@, step) == old(self)@.readv_read(lens@, job, res),
    {
        match res {
            Ok(n) => {
                let amt: usize = job.amt + n;
                if n < lens[job.index] {
                    ReadvStep::Return(Ok(amt))
                } else if job.index + 1 < lens.len() {
                    ReadvStep::Read(ReadvJob { index: job.index + 1, amt })
                } else {
                    ReadvStep::Return(Ok(amt))
                }
            },
            Err(e) => {
                if job.amt > 0 && e.is_would_block() {
                    self.read = State::Empty;
                    self.schedule_read();
                    ReadvStep::Schedule(Ok(job.amt))
                } else if job.amt > 0 {
                    self.read = State::Error(e);
                    ReadvStep::Return(Ok(job.amt))
                } else {
                    self.read = State::Empty;
                    self.schedule_read();
                    ReadvStep::Schedule(Err(e))
                }
            },
        }
    }

    /// Decides about a vectored write of `bufs`.
    pub fn writev(&self, bufs: &[&[u8]]) -> (step: WritevStep)
        requires
            self@.write is Empty && self@.iocp.registered() ==> total(contents(bufs@))
                <= usize::MAX,
        ensures
            step == self@.writev(contents(bufs@)),
    {
        match self.write {
            State::Empty => {},
            _ => {
                return WritevStep::Return(Err(wouldblock()));
            },
        }
        if !self.iocp.registered() {
            return WritevStep::Return(Err(wouldblock()));
        }
        if bufs.len() == 0 {
            return WritevStep::Return(Ok(0));
        }
        WritevStep::Gather(total_len(bufs))
    }

    /// Gathers `bufs` behind what `intermediate` holds, and schedules a write of all of it.
    pub fn writev_gather(&mut self, bufs: &[&[u8]], intermediate: Vec<u8>) -> (job: WriteJob)
        ensures
            final(self)@ == old(self)@.clear(set![WRITABLE]),
            told(old(self)@.iocp, final(self)@.iocp, Set::empty(), set![WRITABLE]),
            final(self)@.read == old(self)@.read,
            final(self)@.write == old(self)@.write,
            final(self)@.instant_notify == old(self)@.instant_notify,
            job.buf@ == intermediate@ + contents(bufs@).flatten(),
            job.pos == 0,
    {
        let mut buf = intermediate;
        let mut i: usize = 0;
        proof {
            assert(contents(bufs@).take(0) =~= Seq::<Seq<u8>>::empty());
            assert(Seq::<Seq<u8>>::empty().flatten() =~= Seq::<u8>::empty());
            assert(buf@ =~= intermediate@ + contents(bufs@).take(0).flatten());
        }
        while i < bufs.len()
            invariant
                i <= bufs@.len(),
                buf@ == intermediate@ + contents(bufs@).take(i as int).flatten(),
            decreases bufs@.len() - i,
        {
            let ghost before = buf@;
            buf.extend_from_slice(bufs[i]);
            proof {
                assert(buf@ =~= before + bufs@[i as int]@);
                lemma_flatten_take(contents(bufs@), i as int);
                assert(buf@ =~= intermediate@ + contents(bufs@).take(i + 1).flatten());
            }
            i = i + 1;
        }
        assert(contents(bufs@).take(i as int) =~= contents(bufs@));
        self.schedule_write(buf, 0)
    }

    /// Shows that the port can be written to, where that is of interest: with nothing on its
    /// way it can be, at once.
    pub fn show_writable(&mut self, interest: Ready)
        ensures
            final(self)@ == old(self)@.writable_shown(kinds(interest)),
    {
        if interest.is_writable() {
            if let State::Empty = self.write {
                self.add_readiness(Ready::writable());
            }
        }
    }
}

impl SerialInner {
    /// Sees to what a registration with an interest asks for.
    pub fn post_register(&mut self, interest: Ready) -> (step: RegisterStep)
        ensures
            (final(self)@, step) == old(self)@.post_register(kinds(interest)),
    {
        if interest.is_readable() {
            if self.schedule_read() {
                return RegisterStep::IssueRead;
            }
        }
        self.show_writable(interest);
        RegisterStep::Done(Ok(()))
    }

    /// Takes note of how a connect went. Returns whether a read is to be issued.
    pub fn connect_complete(&mut self, res: Result<(), IoError>) -> (issue: bool)
        ensures
            final(self)@ == old(self)@.connected(res),
            issue == (res is Ok && old(self)@.read_is_due()),
    {
        match res {
            Ok(()) => {
                self.add_readiness(Ready::writable());
                self.schedule_read()
            },
            Err(e) => {
                let set = union(Ready::readable(), Ready::writable());
                assert(kinds(set) =~= set![READABLE, WRITABLE]);
                self.add_readiness(set);
                self.read = State::Error(e);
                false
            },
        }
    }

    /// Takes note that `n` more bytes of the write in progress were written.
    pub fn write_done(&mut self, n: usize) -> (job: Option<WriteJob>)
        requires
            old(self)@.write matches State::Pending((buf, pos)) && pos + n <= buf.len(),
        ensures
            final(self)@ == old(self)@.write_done(n as nat).0,
            match job {
                Some(job) => old(self)@.write_done(n as nat).1 == Some(
                    (job.buf@, job.pos as nat),
                ) && job.pos <= job.buf@.len(),
                None => old(self)@.write_done(n as nat).1 is None,
            },
    {
        let mut write: State<(Vec<u8>, usize), (Vec<u8>, usize)> = State::Empty;
        std::mem::swap(&mut write, &mut self.write);
        match write {
            State::Pending((buf, pos)) => {
                let len: usize = buf.len();
                let new_pos: usize = pos + n;
                if new_pos == len {
                    self.add_readiness(Ready::writable());
                    None
                } else {
                    Some(self.schedule_write(buf, new_pos))
                }
            },
            _ => vstd::pervasive::unreached(),
        }
    }
}

/// The number of bytes in `bufs`.
fn total_len(bufs: &[&[u8]]) -> (len: usize)
    requires
        total(contents(bufs@)) <= usize::MAX,
    ensures
        len == total(contents(bufs@)),
{
    let mut len: usize = 0;
    let mut i: usize = 0;
    while i < bufs.len()
        invariant
            i <= bufs@.len(),
            len == total(contents(bufs@).take(i as int)),
            total(contents(bufs@)) <= usize::MAX,
        decreases bufs@.len() - i,
    {
        proof {
            let bytes = contents(bufs@);
            assert(bytes.take(i + 1).drop_last() =~= bytes.take(i as int));
            assert(bytes.take(i + 1).last() == bufs@[i as int]@);
            lemma_total_monotonic(bytes, i + 1);
        }
        len = len + bufs[i].len();
        i = i + 1;
    }
    assert(contents(bufs@).take(i as int) =~= contents(bufs@));
    len
}

/// The first buffers do not hold more than all of them.
proof fn lemma_total_monotonic(bufs: Seq<Seq<u8>>, n: int)
    requires
        0 <= n <= bufs.len(),
    ensures
        total(bufs.take(n)) <= total(bufs),
    decreases bufs.len() - n,
{
    if n == bufs.len() {
        assert(bufs.take(n) =~= bufs);
    } else {
        lemma_total_monotonic(bufs, n + 1);
        assert(bufs.take(n + 1).drop_last() =~= bufs.take(n));
    }
}

/// One more buffer adds its bytes behind those of the buffers before it.
proof fn lemma_flatten_take(bufs: Seq<Seq<u8>>, i: int)
    requires
        0 <= i < bufs.len(),
    ensures
        bufs.take(i + 1).flatten() == bufs.take(i).flatten() + bufs[i],
{
    assert(bufs.take(i + 1) =~= bufs.take(i).push(bufs[i]));
    bufs.take(i).lemma_flatten_push(bufs[i]);
}

} // verus!
