//! COM ports that are read and written a whole buffer at a time.

use mio::Ready;
use vstd::prelude::*;

use crate::binding::Binding;
#[allow(unused_imports)]
use crate::binding::{listened_to, told_only, BindingView};
use crate::error::IoError;
use crate::from_raw_arc::Arena;
#[allow(unused_imports)]
use crate::from_raw_arc::counted;
use crate::ready::{hup, union};
#[allow(unused_imports)]
use crate::ready::{kinds, HUP, READABLE, WRITABLE};
use crate::windows::block;
#[allow(unused_imports)]
use crate::windows::block::{given_back, open_at, ports, released, with_inner, IoView};
use crate::windows::inner::State;

verus! {

/// What a port remembers from one event to the next.
pub struct Inner {
    /// The binding to the event loop, and the readiness shown there.
    pub binding: Binding,
    /// The reading direction: the buffer that is being filled, or was. While a read is in
    /// progress, the length of its buffer is the room that the read has, whatever the bytes
    /// in it are; after the read, it is the number of bytes that were read.
    pub read: State<Vec<u8>, Vec<u8>>,
    /// The writing direction: the buffer that is being written, or was.
    pub write: State<Vec<u8>, Vec<u8>>,
}

/// What an [`Inner`] stands for.
#[verifier::ext_equal]
pub struct InnerView {
    /// The binding to the event loop, and the readiness shown there.
    pub binding: BindingView,
    /// The reading direction.
    pub read: State<Seq<u8>, Seq<u8>>,
    /// The writing direction.
    pub write: State<Seq<u8>, Seq<u8>>,
}

/// What stands for one direction of a port.
pub open spec fn direction(state: State<Vec<u8>, Vec<u8>>) -> State<Seq<u8>, Seq<u8>> {
    match state {
        State::Empty => State::Empty,
        State::Pending(buf) => State::Pending(buf@),
        State::Ready(buf) => State::Ready(buf@),
        State::Error(e) => State::Error(e),
    }
}

impl View for Inner {
    type V = InnerView;

    open spec fn view(&self) -> InnerView {
        InnerView {
            binding: self.binding@,
            read: direction(self.read),
            write: direction(self.write),
        }
    }
}

impl InnerView {
    /// A port that nothing has happened to.
    pub open spec fn initial() -> InnerView {
        InnerView { binding: BindingView::unbound(), read: State::Empty, write: State::Empty }
    }

    /// The port after the readiness `set` was shown, and nothing but it.
    pub open spec fn show(self, set: Set<u8>) -> InnerView {
        InnerView { binding: self.binding.show(set), ..self }
    }

    /// The port after its user has closed it.
    pub open spec fn close(self) -> InnerView {
        InnerView { binding: self.binding.close(), ..self }
    }

    /// The port after its write has completed.
    pub open spec fn sent(self) -> InnerView {
        InnerView { write: State::Empty, ..self }.show(set![WRITABLE])
    }

    /// The port after its read has completed, with `n` bytes in the buffer.
    pub open spec fn received(self, n: nat) -> InnerView {
        InnerView { read: State::Ready(self.read->Pending_0.take(n as int)), ..self }.show(
            set![READABLE],
        )
    }
}

/// The kinds of events to register for, where `events` are asked for: whoever waits for
/// something to read is to hear of a hang-up too.
pub open spec fn desired(events: Set<u8>) -> Set<u8> {
    if events.contains(READABLE) {
        events.insert(HUP)
    } else {
        events
    }
}

/// The events to register for, where `events` are asked for.
pub fn desired_events(events: Ready) -> (desired_events: Ready)
    ensures
        kinds(desired_events) == desired(kinds(events)),
{
    if events.is_readable() {
        let all = union(events, hup());
        assert(kinds(all) =~= kinds(events).insert(HUP));
        all
    } else {
        events
    }
}

impl Inner {
    /// A port that nothing has happened to.
    pub fn new() -> (me: Inner)
        ensures
            me@ == InnerView::initial(),
    {
        Inner { binding: Binding::new(), read: State::Empty, write: State::Empty }
    }

    /// Whether the port is registered with an event loop.
    pub fn registered(&self) -> (res: bool)
        ensures
            res == self@.binding.registered(),
    {
        self.binding.registered()
    }

    /// Shows the readiness `set`, and nothing but it, if the port is registered and has not
    /// been closed.
    pub fn add_readiness(&mut self, set: Ready)
        ensures
            final(self)@ == old(self)@.show(kinds(set)),
    {
        self.binding.set_readiness(set);
    }
}

/// The block of a port.
pub type Io<P> = block::Io<Inner, P>;

/// One reference to the block of a port.
pub type Imp<P> = block::Imp<Inner, P>;

/// What is to be done next to register a port.
#[derive(Debug)]
pub enum RegisterStep {
    /// Register with the event loop for these events, and report how that went.
    Register(Ready),
    /// Return the result.
    Done(Result<(), IoError>),
}

/// What is to be done next to take a port out of an event loop.
#[derive(Debug)]
pub enum DeregisterStep {
    /// Deregister with the event loop, and return how that went.
    Deregister,
    /// Return the result.
    Done(Result<(), IoError>),
}

/// Windows COM port.
pub struct Serial<P> {
    imp: Imp<P>,
    registration: bool,
}

impl<P> Serial<P> {
    /// The address of the port's block.
    pub closed spec fn addr(&self) -> usize {
        self.imp.addr()
    }

    /// Whether the port has been registered.
    pub closed spec fn has_registration(&self) -> bool {
        self.registration
    }

    /// Makes a port of an opened one, in a block at `addr`.
    pub fn new(arena: &mut Arena<Io<P>>, addr: usize, port: P) -> (serial: Serial<P>)
        requires
            counted(old(arena)@),
            !ports(old(arena)@).contains_key(addr),
        ensures
            serial.addr() == addr,
            !serial.has_registration(),
            counted(final(arena)@),
            ports(final(arena)@) == ports(old(arena)@).insert(
                addr,
                IoView { inner: InnerView::initial(), serial: port, cnt: 1 },
            ),
    {
        Serial { imp: block::Imp::new(arena, addr, Inner::new(), port), registration: false }
    }

    /// The reference to the port's block that the user holds.
    pub fn imp(&self) -> (imp: &Imp<P>)
        ensures
            imp.addr() == self.addr(),
    {
        &self.imp
    }

    /// Whether the port has been registered.
    pub fn is_registered(&self) -> (res: bool)
        ensures
            res == self.has_registration(),
    {
        self.registration
    }

    /// Begins to register the port: takes note of how binding its handle went.
    pub fn register(&self, events: Ready, bound: Result<(), IoError>) -> (step: RegisterStep)
        ensures
            match bound {
                Ok(_) => step matches RegisterStep::Register(all) && kinds(all) == desired(
                    kinds(events),
                ),
                Err(e) => step == RegisterStep::Done(Err(e)),
            },
    {
        match bound {
            Ok(()) => RegisterStep::Register(desired_events(events)),
            Err(e) => RegisterStep::Done(Err(e)),
        }
    }

    /// Ends the registration: takes note of how registering with the event loop went.
    pub fn register_done(&mut self, arena: &mut Arena<Io<P>>, res: Result<(), IoError>) -> (ret:
        Result<(), IoError>)
        requires
            open_at(old(arena)@, old(self).addr()),
        ensures
            ret == res,
            final(self).addr() == old(self).addr(),
            open_at(final(arena)@, old(self).addr()),
            match res {
                Ok(_) => {
                    let inner = ports(old(arena)@)[old(self).addr()].inner;
                    &&& final(self).has_registration()
                    &&& ports(final(arena)@) == with_inner(
                        ports(old(arena)@),
                        old(self).addr(),
                        InnerView { binding: inner.binding.bound(), ..inner },
                    )
                },
                Err(_) => {
                    &&& final(self).has_registration() == old(self).has_registration()
                    &&& final(arena)@ == old(arena)@
                },
            },
    {
        if res.is_ok() {
            self.imp.inner(arena).binding.bind();
            self.registration = true;
        }
        res
    }

    /// Begins to register the port anew: takes note of how binding its handle went. The
    /// result is that of the event loop then.
    pub fn reregister(&self, events: Ready, bound: Result<(), IoError>) -> (step: RegisterStep)
        requires
            bound is Ok ==> self.has_registration(),
        ensures
            match bound {
                Ok(_) => step matches RegisterStep::Register(all) && kinds(all) == desired(
                    kinds(events),
                ),
                Err(e) => step == RegisterStep::Done(Err(e)),
            },
    {
        match bound {
            Ok(()) => RegisterStep::Register(desired_events(events)),
            Err(e) => RegisterStep::Done(Err(e)),
        }
    }

    /// Begins to take the port out of its event loop: takes note of how unbinding its handle
    /// went.
    pub fn deregister(&self, unbound: Result<(), IoError>) -> (step: DeregisterStep)
        requires
            unbound is Ok ==> self.has_registration(),
        ensures
            step == (match unbound {
                Ok(_) => DeregisterStep::Deregister,
                Err(e) => DeregisterStep::Done(Err(e)),
            }),
    {
        match unbound {
            Ok(()) => DeregisterStep::Deregister,
            Err(e) => DeregisterStep::Done(Err(e)),
        }
    }

    /// Closes the port, and gives up the user's reference. The last one gives the block back.
    pub fn drop(self, arena: &mut Arena<Io<P>>) -> (freed: Option<Io<P>>)
        requires
            open_at(old(arena)@, self.addr()),
        ensures
            counted(final(arena)@),
            ({
                let before = ports(old(arena)@);
                let closed = with_inner(before, self.addr(), before[self.addr()].inner.close());
                &&& ports(final(arena)@) == released(closed, self.addr())
                &&& given_back(closed[self.addr()], freed)
            }),
    {
        self.imp.inner(arena).binding.close();
        self.imp.drop(arena)
    }
}

/// A write has completed, on the overlapped structure at `overlapped`, which lies `offset`
/// into the `size` bytes of a port's block. The port can be written to again.
pub fn send_done<P>(arena: &mut Arena<Io<P>>, overlapped: usize, offset: usize, size: usize) -> (
    freed: Option<Io<P>>)
    requires
        offset < size,
        offset <= overlapped,
        open_at(old(arena)@, (overlapped - offset) as usize),
    ensures
        counted(final(arena)@),
        ({
            let addr = (overlapped - offset) as usize;
            let before = ports(old(arena)@);
            let sent = with_inner(before, addr, before[addr].inner.sent());
            &&& ports(final(arena)@) == released(sent, addr)
            &&& given_back(sent[addr], freed)
        }),
{
    let me2: Imp<P> = block::Imp::from_overlapped(overlapped, offset, size);
    let me = me2.inner(arena);
    me.write = State::Empty;
    me.add_readiness(Ready::writable());
    me2.drop(arena)
}

/// A read has completed, on the overlapped structure at `overlapped`, which lies `offset`
/// into the `size` bytes of a port's block, and has left `bytes_transferred` bytes in the
/// buffer.
pub fn recv_done<P>(
    arena: &mut Arena<Io<P>>,
    overlapped: usize,
    offset: usize,
    size: usize,
    bytes_transferred: u32,
) -> (freed: Option<Io<P>>)
    requires
        offset < size,
        offset <= overlapped,
        open_at(old(arena)@, (overlapped - offset) as usize),
        ports(old(arena)@)[(overlapped - offset) as usize].inner.read matches State::Pending(buf)
            && bytes_transferred <= buf.len(),
    ensures
        counted(final(arena)@),
        ({
            let addr = (overlapped - offset) as usize;
            let before = ports(old(arena)@);
            let received = with_inner(
                before,
                addr,
                before[addr].inner.received(bytes_transferred as nat),
            );
            &&& ports(final(arena)@) == released(received, addr)
            &&& given_back(received[addr], freed)
        }),
{
    let me2: Imp<P> = block::Imp::from_overlapped(overlapped, offset, size);
    let me = me2.inner(arena);
    let mut read: State<Vec<u8>, Vec<u8>> = State::Empty;
    std::mem::swap(&mut read, &mut me.read);
    if let State::Pending(mut buf) = read {
        buf.truncate(bytes_transferred as usize);
        me.read = State::Ready(buf);
    }
    me.add_readiness(Ready::readable());
    me2.drop(arena)
}

/// A port is registered for all that was asked for, and for a hang-up besides exactly where
/// readable events were asked for.
pub proof fn law_desired_events(events: Set<u8>, kind: u8)
    ensures
        events.subset_of(desired(events)),
        desired(events).contains(HUP) <==> events.contains(HUP) || events.contains(READABLE),
        kind != HUP ==> (desired(events).contains(kind) <==> events.contains(kind)),
        desired(desired(events)) == desired(events),
{
    assert(desired(desired(events)) =~= desired(events));
}

/// Of a registered port, the completion of a write shows that it is writable and nothing
/// else, and that of a read shows that it is readable and nothing else. A port that is not
/// registered shows nothing, and one that has been closed shows nothing new.
pub proof fn law_completion_shows(inner: InnerView, n: nat)
    ensures
        inner.binding.heard() ==> inner.sent().binding.current() == set![WRITABLE],
        inner.binding.heard() ==> inner.received(n).binding.current() == set![READABLE],
        !inner.binding.heard() ==> inner.sent().binding == inner.binding,
        !inner.binding.heard() ==> inner.received(n).binding == inner.binding,
        inner.close().sent().binding == inner.close().binding,
        inner.close().received(n).binding == inner.close().binding,
        inner.sent().read == inner.read,
        inner.received(n).write == inner.write,
{
}

/// A port stands for the states of its two directions, byte by byte.
pub proof fn law_port_stands_for(me: Inner)
    ensures
        me@.binding == me.binding@,
        me.read is Empty <==> me@.read is Empty,
        me.read matches State::Pending(buf) ==> {
            me@.read matches State::Pending(bytes) && bytes == buf@
        },
        me.read matches State::Ready(buf) ==> {
            me@.read matches State::Ready(bytes) && bytes == buf@
        },
        me.read matches State::Error(e) ==> {
            me@.read matches State::Error(kept) && kept == e
        },
        me.write is Empty <==> me@.write is Empty,
        me.write matches State::Pending(buf) ==> {
            me@.write matches State::Pending(bytes) && bytes == buf@
        },
        me.write matches State::Ready(buf) ==> {
            me@.write matches State::Ready(bytes) && bytes == buf@
        },
        me.write matches State::Error(e) ==> {
            me@.write matches State::Error(kept) && kept == e
        },
{
}

/// A new port does nothing and shows nothing. Showing readiness and closing leave both
/// directions alone; a closed port shows nothing new.
pub proof fn law_showing_leaves_directions_alone(inner: InnerView, set: Set<u8>)
    ensures
        InnerView::initial().read is Empty,
        InnerView::initial().write is Empty,
        InnerView::initial().binding.readiness is None,
        InnerView::initial().binding.published.len() == 0,
        !InnerView::initial().binding.closed,
        told_only(inner.binding, inner.show(set).binding, set),
        inner.show(set).read == inner.read,
        inner.show(set).write == inner.write,
        !listened_to(inner.close().binding),
        inner.close().binding.readiness == inner.binding.readiness,
        inner.close().binding.published == inner.binding.published,
        inner.close().read == inner.read,
        inner.close().write == inner.write,
{
}

/// A read that completes with `n` bytes leaves exactly those: as many as were transferred, each
/// where it was put. The event loop is told that the port is readable and nothing else, and
/// the writing direction does not change.
pub proof fn law_received_bytes(inner: InnerView, buf: Seq<u8>, n: nat)
    requires
        inner.read matches State::Pending(bytes) && bytes == buf,
        n <= buf.len(),
    ensures
        inner.received(n).read is Ready,
        inner.received(n).read->Ready_0.len() == n,
        forall|i: int|
            0 <= i < n ==> #[trigger] inner.received(n).read->Ready_0[i] == buf[i],
        inner.received(n).write == inner.write,
        told_only(inner.binding, inner.received(n).binding, set![READABLE]),
{
}

/// A write that completes leaves the writing direction free, whatever it was, and the event
/// loop is told that the port is writable and nothing else. The reading direction does not
/// change.
pub proof fn law_sent_bytes(inner: InnerView)
    ensures
        inner.sent().write is Empty,
        inner.sent().read == inner.read,
        told_only(inner.binding, inner.sent().binding, set![WRITABLE]),
{
}

} // verus!
