//! What a port has told its event loop.

use mio::Ready;
use vstd::prelude::*;

use crate::ready::{difference, union};
#[allow(unused_imports)]
use crate::ready::kinds;

verus! {

/// A port's binding to an event loop: the readiness it shows there, once it is registered.
///
/// Every readiness that is set is also kept in `published`, in order, until the driver takes
/// it from there to hand it to the event loop. Once the port is closed, nothing more is set:
/// an event that comes later is of no interest to anybody.
pub struct Binding {
    /// The readiness shown to the event loop; `None` before the port is registered.
    pub readiness: Option<Ready>,
    /// The readiness sets that wait to be handed to the event loop, oldest first.
    pub published: Vec<Ready>,
    /// Whether the port has been closed, and its registration given up.
    pub closed: bool,
}

/// What a [`Binding`] stands for.
#[verifier::ext_equal]
pub struct BindingView {
    /// The kinds of readiness shown; `None` before the port is registered.
    pub readiness: Option<Set<u8>>,
    /// What waits to be handed to the event loop, oldest first.
    pub published: Seq<Set<u8>>,
    /// Whether the port has been closed.
    pub closed: bool,
}

impl BindingView {
    /// The binding of a port that was never registered.
    pub open spec fn unbound() -> BindingView {
        BindingView { readiness: None, published: Seq::empty(), closed: false }
    }

    /// Whether the port has been registered, even if it has been closed since.
    pub open spec fn registered(self) -> bool {
        self.readiness is Some
    }

    /// Whether what the port shows is heard: it is registered, and has not been closed.
    pub open spec fn heard(self) -> bool {
        self.registered() && !self.closed
    }

    /// The kinds of readiness shown: none before the port is registered.
    pub open spec fn current(self) -> Set<u8> {
        match self.readiness {
            Some(set) => set,
            None => Set::empty(),
        }
    }

    /// The binding after `set` was shown: nothing happens before the port is registered, nor
    /// after it was closed.
    pub open spec fn show(self, set: Set<u8>) -> BindingView {
        if self.heard() {
            BindingView { readiness: Some(set), published: self.published.push(set), ..self }
        } else {
            self
        }
    }

    /// The binding with the kinds in `set` shown too.
    pub open spec fn raise(self, set: Set<u8>) -> BindingView {
        self.show(set.union(self.current()))
    }

    /// The binding with the kinds in `set` not shown any more.
    pub open spec fn clear(self, set: Set<u8>) -> BindingView {
        self.show(self.current().difference(set))
    }

    /// The binding after the port was registered: nothing is ready yet.
    pub open spec fn bound(self) -> BindingView {
        BindingView { readiness: Some(Set::empty()), closed: false, ..self }
    }

    /// The binding after the port was closed: what was shown last stays.
    pub open spec fn close(self) -> BindingView {
        BindingView { closed: true, ..self }
    }

    /// The binding after what waited there was handed to the event loop.
    pub open spec fn handed_over(self) -> BindingView {
        BindingView { published: Seq::empty(), ..self }
    }
}

impl View for Binding {
    type V = BindingView;

    open spec fn view(&self) -> BindingView {
        BindingView {
            readiness: match self.readiness {
                Some(r) => Some(kinds(r)),
                None => None,
            },
            published: self.published@.map_values(|r: Ready| kinds(r)),
            closed: self.closed,
        }
    }
}

impl Binding {
    /// A blank binding.
    pub fn new() -> (binding: Binding)
        ensures
            binding@ == BindingView::unbound(),
    {
        let binding = Binding { readiness: None, published: Vec::new(), closed: false };
        assert(binding@.published =~= Seq::empty());
        binding
    }

    /// Whether the port has been registered with an event loop.
    pub fn registered(&self) -> (res: bool)
        ensures
            res == self@.registered(),
    {
        self.readiness.is_some()
    }

    /// The readiness shown to the event loop.
    pub fn readiness(&self) -> (set: Ready)
        ensures
            kinds(set) == self@.current(),
    {
        match self.readiness {
            Some(set) => set,
            None => Ready::empty(),
        }
    }

    /// Shows `set` to the event loop, if there is one and the port is not closed.
    pub fn set_readiness(&mut self, set: Ready)
        ensures
            final(self)@ == old(self)@.show(kinds(set)),
    {
        if self.readiness.is_some() && !self.closed {
            self.readiness = Some(set);
            self.published.push(set);
        }
        assert(self@ =~= old(self)@.show(kinds(set)));
    }

    /// Shows the kinds in `set` beside those that are shown already.
    pub fn add_readiness(&mut self, set: Ready)
        ensures
            final(self)@ == old(self)@.raise(kinds(set)),
    {
        let current = self.readiness();
        self.set_readiness(union(set, current));
    }

    /// Shows the kinds in `set` no more.
    pub fn remove_readiness(&mut self, set: Ready)
        ensures
            final(self)@ == old(self)@.clear(kinds(set)),
    {
        let current = self.readiness();
        self.set_readiness(difference(current, set));
    }

    /// Takes note that the port has been registered: a new registration, which is heard, with
    /// nothing ready yet.
    pub fn bind(&mut self)
        ensures
            final(self)@ == old(self)@.bound(),
    {
        self.readiness = Some(Ready::empty());
        self.closed = false;
        assert(self@.published =~= old(self)@.published);
    }

    /// Takes note that the port has been closed. Nothing is shown from then on.
    pub fn close(&mut self)
        ensures
            final(self)@ == old(self)@.close(),
    {
        self.closed = true;
    }

    /// Takes what waits to be handed to the event loop, oldest first.
    pub fn take_published(&mut self) -> (sets: Vec<Ready>)
        ensures
            sets@.map_values(|r: Ready| kinds(r)) == old(self)@.published,
            final(self)@ == old(self)@.handed_over(),
    {
        let mut sets: Vec<Ready> = Vec::new();
        std::mem::swap(&mut sets, &mut self.published);
        assert(self@.published =~= Seq::empty());
        sets
    }
}

/// Whether somebody listens to what a port shows: it has been registered, and is not closed.
pub open spec fn listened_to(binding: BindingView) -> bool {
    binding.readiness is Some && !binding.closed
}

/// Whether the event loop was told one thing between `before` and `after`: what is shown now
/// is behind all that was published before. Where nobody listens, nothing has changed at all.
pub open spec fn told_once(before: BindingView, after: BindingView) -> bool {
    if listened_to(before) {
        &&& after.readiness is Some
        &&& !after.closed
        &&& after.published.len() == before.published.len() + 1
        &&& after.published[before.published.len() as int] == after.readiness->0
        &&& forall|i: int|
            0 <= i < before.published.len() ==> #[trigger] after.published[i]
                == before.published[i]
    } else {
        after == before
    }
}

/// Whether the event loop was told once, and of no other change than that the kinds in `more`
/// are shown now, and those in `less` are not.
pub open spec fn told(
    before: BindingView,
    after: BindingView,
    more: Set<u8>,
    less: Set<u8>,
) -> bool {
    &&& told_once(before, after)
    &&& listened_to(before) ==> forall|kind: u8| #[trigger]
        after.readiness->0.contains(kind) <==> more.contains(kind) || (
        before.readiness->0.contains(kind) && !less.contains(kind))
}

/// Whether the event loop was told once, and that exactly the kinds in `only` are shown.
pub open spec fn told_only(before: BindingView, after: BindingView, only: Set<u8>) -> bool {
    &&& told_once(before, after)
    &&& listened_to(before) ==> forall|kind: u8| #[trigger]
        after.readiness->0.contains(kind) <==> only.contains(kind)
}

/// A binding stands for what its sets hold: kind by kind for what is shown, and one by one for
/// what waits to be handed over.
pub proof fn law_binding_stands_for(binding: Binding, kind: u8)
    ensures
        binding@.readiness is Some <==> binding.readiness is Some,
        binding.readiness matches Some(set) ==> (binding@.readiness->0.contains(kind) <==> kinds(
            set,
        ).contains(kind)),
        binding@.published.len() == binding.published@.len(),
        forall|i: int|
            0 <= i < binding.published@.len() ==> #[trigger] binding@.published[i] == kinds(
                binding.published@[i],
            ),
        binding@.closed == binding.closed,
{
}

/// A new binding is not registered, and shows nothing to anybody. One that has been registered
/// stays so, and shows what was set last.
pub proof fn law_new_binding_is_blank(binding: BindingView)
    ensures
        BindingView::unbound().readiness is None,
        BindingView::unbound().published.len() == 0,
        !BindingView::unbound().closed,
        binding.registered() <==> binding.readiness is Some,
        binding.heard() <==> listened_to(binding),
        forall|kind: u8| #[trigger]
            binding.current().contains(kind) <==> binding.readiness is Some
                && binding.readiness->0.contains(kind),
{
}

/// Showing a set replaces what was shown by it; adding one takes nothing away, and removing
/// one takes nothing else away. Each is told once, where anybody listens.
pub proof fn law_readiness_changes(binding: BindingView, set: Set<u8>)
    ensures
        told_only(binding, binding.show(set), set),
        told(binding, binding.raise(set), set, Set::empty()),
        told(binding, binding.clear(set), Set::empty(), set),
{
}

/// Registering makes a port that is listened to and shows nothing yet; closing it stops that,
/// with what it has shown last and what it has published before left as they were; and handing
/// over empties what was published and nothing else.
pub proof fn law_binding_begins_and_ends(binding: BindingView)
    ensures
        listened_to(binding.bound()),
        forall|kind: u8| !#[trigger] binding.bound().readiness->0.contains(kind),
        binding.bound().published == binding.published,
        !listened_to(binding.close()),
        binding.close().readiness == binding.readiness,
        binding.close().published == binding.published,
        binding.handed_over().published.len() == 0,
        binding.handed_over().readiness == binding.readiness,
        binding.handed_over().closed == binding.closed,
{
}

/// What was added and removed again is not shown, and what was removed and added again is; a
/// closed port is deaf to all of it.
pub proof fn law_adding_and_removing(binding: BindingView, set: Set<u8>, kind: u8)
    requires
        listened_to(binding),
        set.contains(kind),
    ensures
        !binding.raise(set).clear(set).readiness->0.contains(kind),
        binding.clear(set).raise(set).readiness->0.contains(kind),
        binding.raise(set).raise(set).readiness->0 =~= binding.raise(set).readiness->0,
        binding.clear(set).clear(set).readiness->0 =~= binding.clear(set).readiness->0,
        binding.close().raise(set) == binding.close(),
        binding.close().clear(set) == binding.close(),
        binding.close().show(set) == binding.close(),
{
}

} // verus!
