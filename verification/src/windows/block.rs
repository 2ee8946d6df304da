//! The counted block of a port: its state, and the opened port itself.
//!
//! The block stays where it is for as long as anything refers to it: the user of the port,
//! each operation in progress, and each completion while it is being handled.

use vstd::prelude::*;

use crate::from_raw_arc::{overlapped2arc, Arena, FromRawArc};
#[allow(unused_imports)]
use crate::from_raw_arc::{counted, Inner};

verus! {

/// The block of a port.
pub struct Io<S, P> {
    /// The state of the port.
    pub inner: S,
    /// The opened port.
    pub serial: P,
}

/// What the block of a port stands for.
pub struct IoView<V, P> {
    /// The state of the port.
    pub inner: V,
    /// The opened port.
    pub serial: P,
    /// The number of references to the block.
    pub cnt: nat,
}

/// The ports in blocks, by address.
pub open spec fn ports<S: View, P>(blocks: Map<usize, Inner<Io<S, P>>>) -> Map<
    usize,
    IoView<S::V, P>,
> {
    blocks.map_values(
        |block: Inner<Io<S, P>>|
            IoView {
                inner: block.data.inner@,
                serial: block.data.serial,
                cnt: block.cnt as nat,
            },
    )
}

/// The ports with another state of the one at `addr`.
pub open spec fn with_inner<V, P>(
    ports: Map<usize, IoView<V, P>>,
    addr: usize,
    inner: V,
) -> Map<usize, IoView<V, P>> {
    ports.insert(addr, IoView { inner, ..ports[addr] })
}

/// The ports with one more reference to the one at `addr`.
pub open spec fn lent<V, P>(ports: Map<usize, IoView<V, P>>, addr: usize) -> Map<
    usize,
    IoView<V, P>,
> {
    ports.insert(addr, IoView { cnt: ports[addr].cnt + 1, ..ports[addr] })
}

/// The ports with one reference less to the one at `addr`: the last takes the port with it.
pub open spec fn released<V, P>(ports: Map<usize, IoView<V, P>>, addr: usize) -> Map<
    usize,
    IoView<V, P>,
> {
    if ports[addr].cnt == 1 {
        ports.remove(addr)
    } else {
        ports.insert(addr, IoView { cnt: (ports[addr].cnt - 1) as nat, ..ports[addr] })
    }
}

/// What giving up a reference to a port gives back: the block, where it was the last one.
pub open spec fn given_back<S: View, P>(port: IoView<S::V, P>, freed: Option<Io<S, P>>) -> bool {
    match freed {
        Some(io) => port.cnt == 1 && io.inner@ == port.inner && io.serial == port.serial,
        None => port.cnt != 1,
    }
}

/// Whether there is a port at `addr`.
pub open spec fn open_at<S: View, P>(blocks: Map<usize, Inner<Io<S, P>>>, addr: usize) -> bool {
    counted(blocks) && ports(blocks).contains_key(addr)
}

/// Whether there is a port at `addr`, and one more reference to it can be counted.
pub open spec fn lendable_at<S: View, P>(
    blocks: Map<usize, Inner<Io<S, P>>>,
    addr: usize,
) -> bool {
    open_at(blocks, addr) && ports(blocks)[addr].cnt < usize::MAX
}

/// One reference to the block of a port.
pub struct Imp<S, P> {
    inner: FromRawArc<Io<S, P>>,
}

impl<S: View, P> Imp<S, P> {
    /// The address of the block.
    pub closed spec fn addr(&self) -> usize {
        self.inner.addr()
    }

    /// Puts a port into a new block at `addr`, and is the one reference to it.
    pub fn new(arena: &mut Arena<Io<S, P>>, addr: usize, inner: S, serial: P) -> (imp: Imp<S, P>)
        requires
            counted(old(arena)@),
            !ports(old(arena)@).contains_key(addr),
        ensures
            imp.addr() == addr,
            counted(final(arena)@),
            ports(final(arena)@) == ports(old(arena)@).insert(
                addr,
                IoView { inner: inner@, serial, cnt: 1 },
            ),
    {
        let arc = FromRawArc::new(arena, addr, Io { inner, serial });
        assert(ports(arena@) =~= ports(old(arena)@).insert(
            addr,
            IoView { inner: inner@, serial, cnt: 1 },
        ));
        Imp { inner: arc }
    }

    /// Takes up the reference that was lent to the operation on the overlapped structure at
    /// `overlapped`, which lies `offset` into the `size` bytes of the block.
    pub fn from_overlapped(overlapped: usize, offset: usize, size: usize) -> (imp: Imp<S, P>)
        requires
            offset < size,
            offset <= overlapped,
        ensures
            imp.addr() == overlapped - offset,
    {
        Imp { inner: overlapped2arc(overlapped, offset, size) }
    }

    /// The address of the block.
    pub fn as_raw(&self) -> (addr: usize)
        ensures
            addr == self.addr(),
    {
        self.inner.as_raw()
    }

    /// The block.
    pub fn io<'a>(&self, arena: &'a Arena<Io<S, P>>) -> (io: &'a Io<S, P>)
        requires
            ports(arena@).contains_key(self.addr()),
        ensures
            *io == arena@[self.addr()].data,
    {
        self.inner.deref(arena)
    }

    /// The state of the port, to be changed in place.
    pub fn inner<'a>(&self, arena: &'a mut Arena<Io<S, P>>) -> (me: &'a mut S)
        requires
            open_at(old(arena)@, self.addr()),
        ensures
            *me == old(arena)@[self.addr()].data.inner,
            open_at(final(arena)@, self.addr()),
            ports(final(arena)@) == with_inner(
                ports(old(arena)@),
                self.addr(),
                (*final(me))@,
            ),
    {
        let io = self.inner.deref_mut(arena);
        &mut io.inner
    }

    /// Lends a reference to an operation in progress. Its completion takes it up again.
    pub fn lend(&self, arena: &mut Arena<Io<S, P>>)
        requires
            lendable_at(old(arena)@, self.addr()),
        ensures
            open_at(final(arena)@, self.addr()),
            ports(final(arena)@) == lent(ports(old(arena)@), self.addr()),
    {
        // What is cloned here is not dropped: the operation holds it.
        let _lent = self.inner.clone(arena);
        assert(ports(arena@) =~= lent(ports(old(arena)@), self.addr()));
    }

    /// Gives the reference up. The last one gives the block back.
    pub fn drop(self, arena: &mut Arena<Io<S, P>>) -> (freed: Option<Io<S, P>>)
        requires
            open_at(old(arena)@, self.addr()),
        ensures
            counted(final(arena)@),
            ports(final(arena)@) == released(ports(old(arena)@), self.addr()),
            given_back(ports(old(arena)@)[self.addr()], freed),
    {
        let ghost addr = self.addr();
        let freed = self.inner.drop(arena);
        assert(ports(arena@) =~= released(ports(old(arena)@), addr));
        freed
    }
}

/// The ports are those in the blocks, each with its state, the opened port and its references.
pub proof fn law_ports_are_in_blocks<S: View, P>(
    blocks: Map<usize, Inner<Io<S, P>>>,
    addr: usize,
)
    ensures
        ports(blocks).contains_key(addr) <==> blocks.contains_key(addr),
        blocks.contains_key(addr) ==> {
            &&& ports(blocks)[addr].inner == blocks[addr].data.inner@
            &&& ports(blocks)[addr].serial == blocks[addr].data.serial
            &&& ports(blocks)[addr].cnt == blocks[addr].cnt
        },
{
}

/// Changing the state of a port changes nothing else about it. One reference more or less is
/// that, and the last one that is given up takes the port with it. No other port is touched.
pub proof fn law_one_port_at_a_time<V, P>(
    ports: Map<usize, IoView<V, P>>,
    addr: usize,
    inner: V,
    other: usize,
)
    requires
        ports.contains_key(addr),
        ports[addr].cnt >= 1,
        other != addr,
    ensures
        with_inner(ports, addr, inner).contains_key(addr),
        with_inner(ports, addr, inner)[addr].inner == inner,
        with_inner(ports, addr, inner)[addr].serial == ports[addr].serial,
        with_inner(ports, addr, inner)[addr].cnt == ports[addr].cnt,
        lent(ports, addr).contains_key(addr),
        lent(ports, addr)[addr].inner == ports[addr].inner,
        lent(ports, addr)[addr].serial == ports[addr].serial,
        lent(ports, addr)[addr].cnt == ports[addr].cnt + 1,
        released(ports, addr).contains_key(addr) <==> ports[addr].cnt > 1,
        ports[addr].cnt > 1 ==> {
            &&& released(ports, addr)[addr].inner == ports[addr].inner
            &&& released(ports, addr)[addr].serial == ports[addr].serial
            &&& released(ports, addr)[addr].cnt == ports[addr].cnt - 1
        },
        with_inner(ports, addr, inner).contains_key(other) <==> ports.contains_key(other),
        lent(ports, addr).contains_key(other) <==> ports.contains_key(other),
        released(ports, addr).contains_key(other) <==> ports.contains_key(other),
        ports.contains_key(other) ==> {
            &&& with_inner(ports, addr, inner)[other] == ports[other]
            &&& lent(ports, addr)[other] == ports[other]
            &&& released(ports, addr)[other] == ports[other]
        },
{
}

/// A reference that is lent and given up again leaves everything as it was.
pub proof fn law_release_undoes_lending<V, P>(ports: Map<usize, IoView<V, P>>, addr: usize)
    requires
        ports.contains_key(addr),
        ports[addr].cnt >= 1,
    ensures
        released(lent(ports, addr), addr) == ports,
{
    assert(released(lent(ports, addr), addr) =~= ports);
}

/// A block is given back exactly with the last reference to it, and as it was.
pub proof fn law_last_reference_gives_block_back<S: View, P>(
    port: IoView<S::V, P>,
    freed: Option<Io<S, P>>,
)
    requires
        port.cnt >= 1,
        given_back(port, freed),
    ensures
        freed is Some <==> port.cnt == 1,
        freed matches Some(io) ==> io.inner@ == port.inner && io.serial == port.serial,
{
}

} // verus!
