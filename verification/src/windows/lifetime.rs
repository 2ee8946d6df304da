//! The whole life of a port, step by step.
//!
//! A driver does one thing at a time to a port: it begins an operation, performs the calls
//! into the operating system that the operation asks for, reports their outcomes, and only
//! then goes on to something else. What follows says which events can happen to a port so
//! driven, what each of them does to it, and what holds at every moment of its life.

use vstd::prelude::*;

#[allow(unused_imports)]
use crate::binding::listened_to;
#[allow(unused_imports)]
use crate::error::IoError;
#[allow(unused_imports)]
use crate::ready::{READABLE, WRITABLE};
#[allow(unused_imports)]
use crate::windows::block::{lent, released, with_inner, IoView};
#[allow(unused_imports)]
use crate::windows::inner::{
    ReadvJob, ReadvStep, RegisterStep, SerialInnerView, State, WriteStepView,
};
#[allow(unused_imports)]
use crate::windows::laws::{balanced, in_progress, nearly_sound, sound};
#[allow(unused_imports)]
use crate::windows::{after_read_issued, after_write_issued};

verus! {

/// What the driver has begun and has to go on with.
pub enum Todo {
    /// Nothing.
    Idle,
    /// A read into a buffer, for a vectored read.
    Fill(Seq<usize>, ReadvJob),
    /// A read of no bytes; and then, where it was issued to register the port, what the port
    /// is registered for is to be seen to.
    Probe(Option<Set<u8>>),
    /// A read of no bytes, after a connect has completed: the completion holds a reference
    /// until the end.
    ProbeConnected,
    /// A write of the buffer from the position on. Whether it goes on with a write that has
    /// completed in part: then the completion holds a reference until the end.
    Send(Seq<u8>, nat, bool),
    /// Setting the completion modes, to register the port.
    Modes,
}

/// A port at a moment of its life.
pub struct Life<P> {
    /// The blocks of this port and of others.
    pub ports: Map<usize, IoView<SerialInnerView, P>>,
    /// Whether the user of the port has not closed it.
    pub open: bool,
    /// Whether a connect is in progress, and a reference is lent to it.
    pub connecting: bool,
    /// Whether a connect has completed during the write that is on its way: the port has then
    /// shown that it is writable, though it is not.
    pub overtaken: bool,
    /// What the driver has to go on with.
    pub todo: Todo,
}

/// Something that happens to a port.
pub enum Event {
    /// The user begins to read into buffers of these lengths.
    Readv(Seq<usize>),
    /// The read into a buffer went so.
    Filled(Result<usize, IoError>),
    /// The read of no bytes was issued, and that went so.
    Probed(Result<Option<usize>, IoError>),
    /// The user writes these bytes, and the port takes them.
    Writev(Seq<u8>),
    /// The write was issued, and that went so.
    Sent(Result<Option<usize>, IoError>),
    /// The port was bound to an event loop.
    Bound,
    /// The completion modes were set, for a registration with this interest.
    ModesSet(Set<u8>),
    /// The completion modes could not be set.
    ModesFailed,
    /// The port was registered anew, with this interest.
    Rebound(Set<u8>),
    /// The read in progress has completed.
    ReadCompleted,
    /// The write in progress has completed, with so many bytes.
    WriteCompleted(nat),
    /// A connect is in progress from now on, and a reference was lent to it.
    ConnectBegun,
    /// The connect in progress has completed so.
    ConnectCompleted(Result<(), IoError>),
    /// The user closes the port.
    Closed,
    /// What the port has published was handed to the event loop.
    HandedOver,
}

/// The number of references that the user, a connect in progress and the driver hold.
pub open spec fn holders<P>(life: Life<P>) -> nat {
    (if life.open {
        1nat
    } else {
        0
    }) + (if life.connecting {
        1nat
    } else {
        0
    }) + (match life.todo {
        Todo::Send(_, _, completed) => if completed {
            1nat
        } else {
            0
        },
        Todo::ProbeConnected => 1nat,
        _ => 0,
    })
}

/// Whether the event can happen to the port at `addr` now. A connect and a read complete on
/// the same overlapped structure: where a read is in progress, a completion is taken for the
/// read's.
pub open spec fn possible<P>(life: Life<P>, addr: usize, event: Event) -> bool {
    let inner = life.ports[addr].inner;
    match event {
        Event::Readv(lens) => life.open && life.todo is Idle && lens.len() <= usize::MAX,
        Event::Filled(res) => {
            &&& life.todo matches Todo::Fill(lens, job)
            &&& res matches Ok(n) ==> job.amt + n <= usize::MAX
        },
        Event::Probed(_) => life.todo is Probe || life.todo is ProbeConnected,
        Event::Writev(_) => {
            life.open && life.todo is Idle && inner.write is Empty && inner.iocp.registered()
        },
        Event::Sent(res) => {
            &&& life.todo matches Todo::Send(buf, pos, _)
            &&& inner.instant_notify ==> (res matches Ok(Some(n)) ==> n <= buf.len() - pos)
        },
        Event::Bound => life.open && life.todo is Idle,
        Event::ModesSet(_) => life.todo is Modes,
        Event::ModesFailed => life.todo is Modes,
        Event::Rebound(_) => life.open && life.todo is Idle,
        Event::ReadCompleted => {
            life.todo is Idle && life.ports.contains_key(addr) && inner.read is Pending
        },
        Event::WriteCompleted(n) => {
            &&& life.todo is Idle
            &&& life.ports.contains_key(addr)
            &&& inner.write matches State::Pending((buf, pos)) && pos + n <= buf.len()
        },
        Event::ConnectBegun => life.open && life.todo is Idle && !life.connecting,
        Event::ConnectCompleted(_) => {
            life.connecting && life.todo is Idle && !(inner.read is Pending)
        },
        Event::Closed => life.open && life.todo is Idle,
        Event::HandedOver => life.ports.contains_key(addr),
    }
}

/// What the driver has to go on with after a step of a vectored read.
pub open spec fn todo_after_readv(lens: Seq<usize>, step: ReadvStep) -> Todo {
    match step {
        ReadvStep::Read(job) => Todo::Fill(lens, job),
        ReadvStep::Schedule(_) => Todo::Probe(None),
        ReadvStep::Return(_) => Todo::Idle,
    }
}

/// What the driver has to go on with after a step of a registration.
pub open spec fn todo_after_register(interest: Set<u8>, step: RegisterStep) -> Todo {
    match step {
        RegisterStep::IssueRead => Todo::Probe(Some(interest)),
        _ => Todo::Idle,
    }
}

/// The port at `addr` after the event.
pub open spec fn after<P>(life: Life<P>, addr: usize, event: Event) -> Life<P> {
    let inner = life.ports[addr].inner;
    match event {
        Event::Readv(lens) => {
            let (next, step) = inner.readv(lens);
            Life {
                ports: with_inner(life.ports, addr, next),
                todo: todo_after_readv(lens, step),
                ..life
            }
        },
        Event::Filled(res) => {
            let lens = life.todo->Fill_0;
            let (next, step) = inner.readv_read(lens, life.todo->Fill_1, res);
            Life {
                ports: with_inner(life.ports, addr, next),
                todo: todo_after_readv(lens, step),
                ..life
            }
        },
        Event::Probed(res) => {
            let read = after_read_issued(life.ports, addr, res);
            Life {
                ports: match life.todo {
                    Todo::ProbeConnected => released(read, addr),
                    Todo::Probe(Some(interest)) => with_inner(
                        read,
                        addr,
                        read[addr].inner.writable_shown(interest),
                    ),
                    _ => read,
                },
                todo: Todo::Idle,
                ..life
            }
        },
        Event::Writev(buf) => Life {
            ports: with_inner(life.ports, addr, inner.clear(set![WRITABLE])),
            todo: Todo::Send(buf, 0, false),
            ..life
        },
        Event::Sent(res) => {
            let buf = life.todo->Send_0;
            let pos = life.todo->Send_1;
            let completed = life.todo->Send_2;
            let ports = after_write_issued(life.ports, addr, buf, pos, res);
            match inner.write_issued(buf, pos, res).1 {
                WriteStepView::Issue(buf, pos) => Life {
                    ports,
                    todo: Todo::Send(buf, pos, completed),
                    ..life
                },
                step => Life {
                    ports: if completed {
                        released(ports, addr)
                    } else {
                        ports
                    },
                    overtaken: life.overtaken && step is Pending,
                    todo: Todo::Idle,
                    ..life
                },
            }
        },
        Event::Bound => Life {
            ports: with_inner(
                life.ports,
                addr,
                SerialInnerView { iocp: inner.iocp.bound(), ..inner },
            ),
            todo: Todo::Modes,
            ..life
        },
        Event::ModesSet(interest) => {
            let (next, step) = (SerialInnerView { instant_notify: true, ..inner }).post_register(
                interest,
            );
            Life {
                ports: with_inner(life.ports, addr, next),
                todo: todo_after_register(interest, step),
                ..life
            }
        },
        Event::ModesFailed => Life { todo: Todo::Idle, ..life },
        Event::Rebound(interest) => {
            let (next, step) = inner.post_register(interest);
            Life {
                ports: with_inner(life.ports, addr, next),
                todo: todo_after_register(interest, step),
                ..life
            }
        },
        Event::ReadCompleted => Life {
            ports: released(
                with_inner(
                    life.ports,
                    addr,
                    inner.with_read(State::Ready(())).raise(set![READABLE]),
                ),
                addr,
            ),
            ..life
        },
        Event::WriteCompleted(n) => {
            let (next, job) = inner.write_done(n);
            let written = with_inner(life.ports, addr, next);
            match job {
                Some((buf, pos)) => Life {
                    ports: written,
                    todo: Todo::Send(buf, pos, true),
                    ..life
                },
                None => Life { ports: released(written, addr), overtaken: false, ..life },
            }
        },
        Event::ConnectBegun => Life {
            ports: lent(life.ports, addr),
            connecting: true,
            ..life
        },
        Event::ConnectCompleted(res) => {
            let connected = with_inner(life.ports, addr, inner.connected(res));
            let overtaken = life.overtaken || (inner.write is Pending && inner.iocp.heard());
            if res is Ok && inner.read_is_due() {
                Life {
                    ports: connected,
                    connecting: false,
                    overtaken,
                    todo: Todo::ProbeConnected,
                    ..life
                }
            } else {
                Life { ports: released(connected, addr), connecting: false, overtaken, ..life }
            }
        },
        Event::Closed => Life {
            ports: released(with_inner(life.ports, addr, inner.close()), addr),
            open: false,
            ..life
        },
        Event::HandedOver => Life {
            ports: with_inner(life.ports, addr, inner.handed_over()),
            ..life
        },
    }
}

/// The port at `addr` as its user gets it: opened, and alone in referring to its block.
pub open spec fn opened<P>(
    ports: Map<usize, IoView<SerialInnerView, P>>,
    addr: usize,
    serial: P,
) -> Life<P> {
    Life {
        ports: ports.insert(addr, IoView { inner: SerialInnerView::initial(), serial, cnt: 1 }),
        open: true,
        connecting: false,
        overtaken: false,
        todo: Todo::Idle,
    }
}

/// The port at `addr` after some events.
pub open spec fn after_all<P>(life: Life<P>, addr: usize, events: Seq<Event>) -> Life<P>
    decreases events.len(),
{
    if events.len() == 0 {
        life
    } else {
        after(after_all(life, addr, events.drop_last()), addr, events.last())
    }
}

/// Whether the events can happen to the port at `addr`, one after the other.
pub open spec fn all_possible<P>(life: Life<P>, addr: usize, events: Seq<Event>) -> bool
    decreases events.len(),
{
    events.len() > 0 ==> {
        &&& all_possible(life, addr, events.drop_last())
        &&& possible(after_all(life, addr, events.drop_last()), addr, events.last())
    }
}

/// Whether the port is as the driver's next step needs it.
pub open spec fn prepared<P>(life: Life<P>, addr: usize) -> bool {
    let inner = life.ports[addr].inner;
    match life.todo {
        Todo::Idle | Todo::Modes => true,
        Todo::Fill(lens, job) => inner.read is Ready && job.index < lens.len() <= usize::MAX,
        Todo::Probe(_) | Todo::ProbeConnected => {
            inner.read is Empty && !inner.iocp.current().contains(READABLE)
        },
        Todo::Send(buf, pos, _) => {
            &&& inner.write is Empty
            &&& !life.overtaken ==> !inner.iocp.current().contains(WRITABLE)
            &&& pos <= buf.len()
        },
    }
}

/// What holds of a port at every moment of its life.
pub open spec fn lives_well<P>(life: Life<P>, addr: usize) -> bool {
    &&& balanced(life.ports, addr, holders(life))
    &&& !(life.todo is Idle) ==> life.ports.contains_key(addr)
    &&& life.todo is Fill || life.todo is Probe || life.todo is Modes ==> life.open
    &&& life.ports.contains_key(addr) ==> {
        let inner = life.ports[addr].inner;
        &&& nearly_sound(inner)
        &&& !life.overtaken ==> sound(inner)
        &&& life.overtaken ==> inner.write is Pending || life.todo is Send
        &&& inner.read is Empty ==> !inner.iocp.current().contains(READABLE)
        &&& prepared(life, addr)
        &&& inner.iocp.closed <==> !life.open
    }
}

/// An event keeps what holds of a port.
pub proof fn law_event_keeps_port_well<P>(life: Life<P>, addr: usize, event: Event)
    requires
        lives_well(life, addr),
        possible(life, addr, event),
    ensures
        lives_well(after(life, addr, event), addr),
        forall|other: usize|
            other != addr ==> {
                &&& (#[trigger] after(life, addr, event).ports.contains_key(other)
                    <==> life.ports.contains_key(other))
                &&& life.ports.contains_key(other) ==> after(life, addr, event).ports[other]
                    == life.ports[other]
            },
{
    match event {
        Event::Readv(_) => {},
        Event::Filled(_) => {},
        Event::Probed(_) => {},
        Event::Writev(_) => {},
        Event::Sent(_) => {},
        Event::Bound => {},
        Event::ModesSet(_) => {},
        Event::ModesFailed => {},
        Event::Rebound(_) => {},
        Event::ReadCompleted => {},
        Event::WriteCompleted(_) => {},
        Event::ConnectBegun => {},
        Event::ConnectCompleted(_) => {},
        Event::Closed => {},
        Event::HandedOver => {},
    }
}

/// Events keep what holds of a port, however many there are.
pub proof fn law_events_keep_port_well<P>(life: Life<P>, addr: usize, events: Seq<Event>)
    requires
        lives_well(life, addr),
        all_possible(life, addr, events),
    ensures
        lives_well(after_all(life, addr, events), addr),
    decreases events.len(),
{
    if events.len() > 0 {
        law_events_keep_port_well(life, addr, events.drop_last());
        law_event_keeps_port_well(
            after_all(life, addr, events.drop_last()),
            addr,
            events.last(),
        );
    }
}

/// Whatever happens to a port that was opened, in whatever order: its references are the
/// user's, the driver's and one for each operation in progress, a connect among them, so its
/// block is there while an operation is in progress, and is gone as soon as it is closed and
/// none is. A write in progress has not written more than its buffer, and neither direction
/// shows that an operation has ended which is still in progress; only a connect that completes
/// during a write shows that the port is writable before the write is over. The driver's next
/// step finds the port as it needs it, and one more reference can always be counted.
pub proof fn law_port_lives_well<P>(
    ports: Map<usize, IoView<SerialInnerView, P>>,
    addr: usize,
    serial: P,
    events: Seq<Event>,
)
    requires
        !ports.contains_key(addr),
        all_possible(opened(ports, addr, serial), addr, events),
    ensures
        ({
            let life = after_all(opened(ports, addr, serial), addr, events);
            &&& lives_well(life, addr)
            &&& life.ports.contains_key(addr) ==> life.ports[addr].cnt < usize::MAX
            &&& life.open ==> life.ports.contains_key(addr)
            &&& life.connecting ==> life.ports.contains_key(addr)
            &&& !life.open && life.todo is Idle ==> (life.ports.contains_key(addr)
                ==> life.connecting || in_progress(life.ports[addr].inner) > 0)
        }),
{
    law_events_keep_port_well(opened(ports, addr, serial), addr, events);
}

/// After its user has closed it, a port never tells the event loop of anything: whatever still
/// happens to it, nothing is added to what it had published before it was closed, and what it
/// had shown last stays as it was. It is not opened again.
pub proof fn law_closed_port_stays_silent<P>(life: Life<P>, addr: usize, events: Seq<Event>)
    requires
        lives_well(life, addr),
        possible(life, addr, Event::Closed),
        all_possible(after(life, addr, Event::Closed), addr, events),
    ensures
        ({
            let now = after_all(after(life, addr, Event::Closed), addr, events);
            &&& !now.open
            &&& now.ports.contains_key(addr) ==> {
                let before = life.ports[addr].inner.iocp;
                let after = now.ports[addr].inner.iocp;
                after == before.close() || after == before.close().handed_over()
            }
        }),
    decreases events.len(),
{
    let closed = after(life, addr, Event::Closed);
    law_event_keeps_port_well(life, addr, Event::Closed);
    if events.len() > 0 {
        let before = after_all(closed, addr, events.drop_last());
        law_closed_port_stays_silent(life, addr, events.drop_last());
        law_events_keep_port_well(closed, addr, events.drop_last());
        lemma_event_leaves_closed_port_silent(before, addr, events.last());
    }
}

/// An event that can still happen to a closed port publishes nothing.
proof fn lemma_event_leaves_closed_port_silent<P>(life: Life<P>, addr: usize, event: Event)
    requires
        lives_well(life, addr),
        !life.open,
        possible(life, addr, event),
    ensures
        !after(life, addr, event).open,
        after(life, addr, event).ports.contains_key(addr) ==> life.ports.contains_key(addr) && {
            let before = life.ports[addr].inner.iocp;
            let after = after(life, addr, event).ports[addr].inner.iocp;
            after == before || after == before.handed_over()
        },
{
    match event {
        Event::Sent(_) => {},
        Event::ReadCompleted => {},
        Event::WriteCompleted(_) => {},
        Event::Probed(_) => {},
        Event::ConnectCompleted(_) => {},
        Event::HandedOver => {},
        _ => {},
    }
}

/// Nothing but its own issuing and completing changes a write in progress: whatever else
/// happens to the port, the buffer and the position stay as they were.
pub proof fn law_other_events_leave_write_alone<P>(life: Life<P>, addr: usize, event: Event)
    requires
        lives_well(life, addr),
        possible(life, addr, event),
        !(event is Sent) && !(event is WriteCompleted),
        after(life, addr, event).ports.contains_key(addr),
    ensures
        life.ports.contains_key(addr),
        after(life, addr, event).ports[addr].inner.write == life.ports[addr].inner.write,
        life.todo is Send ==> after(life, addr, event).todo == life.todo,
{
    match event {
        Event::Filled(_) => {},
        Event::Probed(_) => {},
        Event::ConnectCompleted(_) => {},
        _ => {},
    }
}

/// Whether a read that has ended is shown as readable, where anybody listens.
pub open spec fn ended_read_is_shown<P>(life: Life<P>, addr: usize) -> bool {
    let inner = life.ports[addr].inner;
    life.ports.contains_key(addr) && listened_to(inner.iocp) && (inner.read is Ready
        || inner.read is Error) ==> inner.iocp.readiness->0.contains(READABLE)
}

/// A read that has ended, whichever way, stays shown as readable until its outcome has been
/// fetched, whatever happens to the port in between. Only a new registration begins with
/// nothing shown, until it has been seen to what the port is registered for.
pub proof fn law_ended_read_stays_shown<P>(life: Life<P>, addr: usize, event: Event)
    requires
        lives_well(life, addr),
        possible(life, addr, event),
        ended_read_is_shown(life, addr),
        !(event is Bound),
    ensures
        ended_read_is_shown(after(life, addr, event), addr),
{
    match event {
        Event::Readv(_) => {},
        Event::Filled(_) => {},
        Event::Probed(_) => {},
        Event::Writev(_) => {},
        Event::Sent(_) => {},
        Event::Bound => {},
        Event::ModesSet(_) => {},
        Event::ModesFailed => {},
        Event::Rebound(_) => {},
        Event::ReadCompleted => {},
        Event::WriteCompleted(_) => {},
        Event::ConnectBegun => {},
        Event::ConnectCompleted(_) => {},
        Event::Closed => {},
        Event::HandedOver => {},
    }
}

/// Whether the port listens for something to read, or has something to tell of it: a read is
/// in progress, or has ended, or is about to be issued.
pub open spec fn keeps_listening<P>(life: Life<P>, addr: usize) -> bool {
    life.ports.contains_key(addr) ==> {
        !(life.ports[addr].inner.read is Empty) || life.todo is Probe
            || life.todo is ProbeConnected
    }
}

/// Once somebody has asked to read, and for as long as the port lives, it goes on listening,
/// whatever happens to it: another read follows each one whose outcome has been fetched. And
/// whoever registers to read makes it begin.
pub proof fn law_port_keeps_listening<P>(life: Life<P>, addr: usize, event: Event)
    requires
        lives_well(life, addr),
        possible(life, addr, event),
    ensures
        keeps_listening(life, addr) ==> keeps_listening(after(life, addr, event), addr),
        event matches Event::ModesSet(interest) && interest.contains(READABLE)
            ==> keeps_listening(after(life, addr, event), addr),
        event matches Event::Rebound(interest) && interest.contains(READABLE)
            ==> keeps_listening(after(life, addr, event), addr),
{
    match event {
        Event::Readv(_) => {},
        Event::Filled(_) => {},
        Event::Probed(_) => {},
        Event::Writev(_) => {},
        Event::Sent(_) => {},
        Event::Bound => {},
        Event::ModesSet(_) => {},
        Event::ModesFailed => {},
        Event::Rebound(_) => {},
        Event::ReadCompleted => {},
        Event::WriteCompleted(_) => {},
        Event::ConnectBegun => {},
        Event::ConnectCompleted(_) => {},
        Event::Closed => {},
        Event::HandedOver => {},
    }
}

} // verus!
