//! A counted reference whose count can be taken up again from a bare address.
//!
//! A block of memory that an operation of the operating system works on has to stay where it
//! is until the operation completes. The blocks live in an [`Arena`], each under its own
//! address, and [`FromRawArc`] is a counted reference to one of them. When an operation is
//! issued, a reference is cloned and let go of without being dropped; the completion carries
//! an address that lies in the block, and from that address the reference is taken up again.

use std::collections::hash_map::Entry;
use std::collections::HashMap;
use std::marker::PhantomData;

use vstd::prelude::*;

verus! {

broadcast use vstd::std_specs::hash::group_hash_axioms;

/// A block: what it holds, and the number of references to it.
pub struct Inner<T> {
    /// What the block holds.
    pub data: T,
    /// The number of references to the block.
    pub cnt: usize,
}

/// The blocks that are alive, by their addresses.
pub struct Arena<T> {
    blocks: HashMap<usize, Inner<T>>,
}

impl<T> View for Arena<T> {
    type V = Map<usize, Inner<T>>;

    closed spec fn view(&self) -> Map<usize, Inner<T>> {
        self.blocks@
    }
}

/// Whether every block is referred to: one that is not has been freed.
pub open spec fn counted<T>(blocks: Map<usize, Inner<T>>) -> bool {
    forall|addr: usize| #[trigger] blocks.contains_key(addr) ==> blocks[addr].cnt >= 1
}

/// The blocks after a reference to the one at `addr` was cloned.
pub open spec fn cloned_at<T>(blocks: Map<usize, Inner<T>>, addr: usize) -> Map<usize, Inner<T>> {
    let block = blocks[addr];
    blocks.insert(addr, Inner { data: block.data, cnt: (block.cnt + 1) as usize })
}

/// The blocks after a reference to the one at `addr` was dropped: the last one takes the
/// block with it.
pub open spec fn dropped_at<T>(blocks: Map<usize, Inner<T>>, addr: usize) -> Map<usize, Inner<T>> {
    let block = blocks[addr];
    if block.cnt == 1 {
        blocks.remove(addr)
    } else {
        blocks.insert(addr, Inner { data: block.data, cnt: (block.cnt - 1) as usize })
    }
}

/// The blocks after `n` references to the one at `addr` were dropped.
pub open spec fn dropped_times<T>(
    blocks: Map<usize, Inner<T>>,
    addr: usize,
    n: nat,
) -> Map<usize, Inner<T>>
    decreases n,
{
    if n == 0 {
        blocks
    } else {
        dropped_at(dropped_times(blocks, addr, (n - 1) as nat), addr)
    }
}

impl<T> Arena<T> {
    /// An arena without blocks.
    pub fn new() -> (arena: Arena<T>)
        ensures
            arena@ == Map::<usize, Inner<T>>::empty(),
            counted(arena@),
    {
        Arena { blocks: HashMap::new() }
    }

    /// Whether there is a block at `addr`.
    pub fn contains(&self, addr: usize) -> (res: bool)
        ensures
            res == self@.contains_key(addr),
    {
        self.blocks.contains_key(&addr)
    }

    /// The number of references to the block at `addr`: none where there is no block.
    pub fn count(&self, addr: usize) -> (cnt: usize)
        ensures
            cnt == (if self@.contains_key(addr) {
                self@[addr].cnt
            } else {
                0
            }),
    {
        match self.blocks.get(&addr) {
            Some(block) => block.cnt,
            None => 0,
        }
    }
}

/// A counted reference to a block of an [`Arena`].
pub struct FromRawArc<T> {
    addr: usize,
    marker: PhantomData<T>,
}

impl<T> FromRawArc<T> {
    /// The address of the block.
    pub closed spec fn addr(&self) -> usize {
        self.addr
    }

    /// Puts `data` into a new block at `addr`, and is the one reference to it.
    pub fn new(arena: &mut Arena<T>, addr: usize, data: T) -> (arc: FromRawArc<T>)
        requires
            counted(old(arena)@),
            !old(arena)@.contains_key(addr),
        ensures
            arc.addr() == addr,
            final(arena)@ == old(arena)@.insert(addr, Inner { data, cnt: 1 }),
            counted(final(arena)@),
    {
        arena.blocks.insert(addr, Inner { data, cnt: 1 });
        FromRawArc { addr, marker: PhantomData }
    }

    /// Takes up a reference that was let go of without being dropped. The count stands.
    pub fn from_raw(ptr: usize) -> (arc: FromRawArc<T>)
        ensures
            arc.addr() == ptr,
    {
        FromRawArc { addr: ptr, marker: PhantomData }
    }

    /// The address of the block.
    pub fn as_raw(&self) -> (addr: usize)
        ensures
            addr == self.addr(),
    {
        self.addr
    }

    /// Another reference to the same block.
    pub fn clone(&self, arena: &mut Arena<T>) -> (arc: FromRawArc<T>)
        requires
            counted(old(arena)@),
            old(arena)@.contains_key(self.addr()),
            old(arena)@[self.addr()].cnt < usize::MAX,
        ensures
            arc.addr() == self.addr(),
            final(arena)@ == cloned_at(old(arena)@, self.addr()),
            counted(final(arena)@),
    {
        match arena.blocks.entry(self.addr) {
            Entry::Occupied(entry) => {
                let block = entry.into_mut();
                block.cnt = block.cnt + 1;
            },
            Entry::Vacant(_) => {},
        }
        FromRawArc { addr: self.addr, marker: PhantomData }
    }

    /// What the block holds.
    pub fn deref<'a>(&self, arena: &'a Arena<T>) -> (data: &'a T)
        requires
            arena@.contains_key(self.addr()),
        ensures
            *data == arena@[self.addr()].data,
    {
        &arena.blocks.get(&self.addr).unwrap().data
    }

    /// What the block holds, to be changed in place.
    pub fn deref_mut<'a>(&self, arena: &'a mut Arena<T>) -> (data: &'a mut T)
        requires
            counted(old(arena)@),
            old(arena)@.contains_key(self.addr()),
        ensures
            *data == old(arena)@[self.addr()].data,
            final(arena)@ == old(arena)@.insert(
                self.addr(),
                Inner { data: *final(data), cnt: old(arena)@[self.addr()].cnt },
            ),
            counted(final(arena)@),
    {
        match arena.blocks.entry(self.addr) {
            Entry::Occupied(entry) => &mut entry.into_mut().data,
            Entry::Vacant(_) => vstd::pervasive::unreached(),
        }
    }

    /// Gives the reference up. The last one gives back what the block held.
    pub fn drop(self, arena: &mut Arena<T>) -> (freed: Option<T>)
        requires
            counted(old(arena)@),
            old(arena)@.contains_key(self.addr()),
        ensures
            final(arena)@ == dropped_at(old(arena)@, self.addr()),
            freed == (if old(arena)@[self.addr()].cnt == 1 {
                Some(old(arena)@[self.addr()].data)
            } else {
                None
            }),
            counted(final(arena)@),
    {
        match arena.blocks.entry(self.addr) {
            Entry::Occupied(entry) => {
                if entry.get().cnt != 1 {
                    let block = entry.into_mut();
                    block.cnt = block.cnt - 1;
                    None
                } else {
                    Some(entry.remove().data)
                }
            },
            Entry::Vacant(_) => None,
        }
    }
}

/// The reference to the block in which the field at `overlapped` lies, `offset` into the
/// `size` bytes of the block: the one that was let go of when the operation was issued.
pub fn overlapped2arc<T>(overlapped: usize, offset: usize, size: usize) -> (arc: FromRawArc<T>)
    requires
        offset < size,
        offset <= overlapped,
    ensures
        arc.addr() == overlapped - offset,
{
    FromRawArc::from_raw(overlapped - offset)
}

/// Dropping a clone undoes the cloning: the block stands as it stood, and so does every other
/// one.
pub proof fn law_drop_undoes_clone<T>(blocks: Map<usize, Inner<T>>, addr: usize)
    requires
        counted(blocks),
        blocks.contains_key(addr),
        blocks[addr].cnt < usize::MAX,
    ensures
        dropped_at(cloned_at(blocks, addr), addr) == blocks,
{
    assert(blocks[addr].cnt >= 1);
    assert(dropped_at(cloned_at(blocks, addr), addr) =~= blocks);
}

/// A block lives, unchanged, until as many references were dropped as there were to it, and
/// not longer. Other blocks are not touched.
pub proof fn law_block_lives_until_last_drop<T>(
    blocks: Map<usize, Inner<T>>,
    addr: usize,
    n: nat,
    other: usize,
)
    requires
        blocks.contains_key(addr),
        1 <= blocks[addr].cnt,
        n <= blocks[addr].cnt,
        other != addr,
    ensures
        dropped_times(blocks, addr, n).contains_key(addr) <==> n < blocks[addr].cnt,
        n < blocks[addr].cnt ==> {
            &&& dropped_times(blocks, addr, n)[addr].data == blocks[addr].data
            &&& dropped_times(blocks, addr, n)[addr].cnt == blocks[addr].cnt - n
        },
        dropped_times(blocks, addr, n).contains_key(other) <==> blocks.contains_key(other),
        blocks.contains_key(other) ==> dropped_times(blocks, addr, n)[other] == blocks[other],
    decreases n,
{
    if n > 0 {
        law_block_lives_until_last_drop(blocks, addr, (n - 1) as nat, other);
    }
}

/// Cloning and dropping a reference count one up and one down, leave what the block holds
/// alone, and touch no other block.
pub proof fn law_references_are_counted<T>(
    blocks: Map<usize, Inner<T>>,
    addr: usize,
    other: usize,
)
    requires
        counted(blocks),
        blocks.contains_key(addr),
        blocks[addr].cnt < usize::MAX,
        other != addr,
    ensures
        1 <= blocks[addr].cnt,
        cloned_at(blocks, addr).contains_key(addr),
        cloned_at(blocks, addr)[addr].cnt == blocks[addr].cnt + 1,
        cloned_at(blocks, addr)[addr].data == blocks[addr].data,
        cloned_at(blocks, addr).contains_key(other) <==> blocks.contains_key(other),
        blocks.contains_key(other) ==> cloned_at(blocks, addr)[other] == blocks[other],
        dropped_at(blocks, addr).contains_key(addr) <==> blocks[addr].cnt > 1,
        blocks[addr].cnt > 1 ==> {
            &&& dropped_at(blocks, addr)[addr].cnt == blocks[addr].cnt - 1
            &&& dropped_at(blocks, addr)[addr].data == blocks[addr].data
        },
        dropped_at(blocks, addr).contains_key(other) <==> blocks.contains_key(other),
        blocks.contains_key(other) ==> dropped_at(blocks, addr)[other] == blocks[other],
{
}

} // verus!
