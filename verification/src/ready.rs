//! Readiness sets, as the event loop defines them.
//!
//! A [`mio::Ready`] is a set of readiness kinds. Its representation is private to mio, so a
//! set is known here by the kinds it holds: [`kinds`] names them, and the items below say
//! what each of mio's operations does to them.

use mio::Ready;
use vstd::prelude::*;

verus! {

/// The kind of readiness that `Ready::readable()` holds.
pub const READABLE: u8 = 0;

/// The kind of readiness that `Ready::writable()` holds.
pub const WRITABLE: u8 = 1;

/// The kind of readiness that `Ready::hup()` holds.
pub const HUP: u8 = 3;

/// `mio::Ready`, a set of readiness kinds.
#[verifier::external_type_specification]
#[verifier::external_body]
pub struct ExReady(mio::Ready);

/// The kinds of readiness in a set: the positions of the bits that mio keeps for it.
pub uninterp spec fn kinds(ready: mio::Ready) -> Set<u8>;

/// `mio::Ready::empty` is the set without any kind.
pub assume_specification[ mio::Ready::empty ]() -> (ready: mio::Ready)
    ensures
        kinds(ready) == Set::<u8>::empty(),
;

/// `mio::Ready::readable` is the set that holds readable readiness alone.
pub assume_specification[ mio::Ready::readable ]() -> (ready: mio::Ready)
    ensures
        kinds(ready) == set![READABLE],
;

/// `mio::Ready::writable` is the set that holds writable readiness alone.
pub assume_specification[ mio::Ready::writable ]() -> (ready: mio::Ready)
    ensures
        kinds(ready) == set![WRITABLE],
;

/// `mio::Ready::is_readable` tells whether readable readiness is in the set.
pub assume_specification[ mio::Ready::is_readable ](ready: &mio::Ready) -> (res: bool)
    ensures
        res == kinds(*ready).contains(READABLE),
;

/// `mio::Ready::is_writable` tells whether writable readiness is in the set.
pub assume_specification[ mio::Ready::is_writable ](ready: &mio::Ready) -> (res: bool)
    ensures
        res == kinds(*ready).contains(WRITABLE),
;

/// Calls `mio::Ready::hup`, the set that holds hang-up readiness alone.
#[verifier::external_body]
#[allow(deprecated)]
pub(crate) fn hup() -> (ready: Ready)
    ensures
        kinds(ready) == set![HUP],
{
    Ready::hup()
}

/// Calls the `|` of `mio::Ready`: the kinds that are in either set.
#[verifier::external_body]
pub(crate) fn union(a: Ready, b: Ready) -> (ready: Ready)
    ensures
        kinds(ready) == kinds(a).union(kinds(b)),
{
    a | b
}

/// Calls the `-` of `mio::Ready`: the kinds of the first set that are not in the second.
#[verifier::external_body]
pub(crate) fn difference(a: Ready, b: Ready) -> (ready: Ready)
    ensures
        kinds(ready) == kinds(a).difference(kinds(b)),
{
    a - b
}

} // verus!
