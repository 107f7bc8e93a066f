//! Which file-system notices become change signals. The watcher itself runs
//! on a thread of its own outside this library and hands each notice here.

use vstd::prelude::*;
use crate::broadcast::Broadcaster;

verus! {

/// The kind of a file-system event, as the watcher reports it.
#[derive(PartialEq, Eq, Structural, Clone, Copy, Debug)]
pub enum ChangeKind {
    Any,
    Access,
    Create,
    Modify,
    Remove,
    Other,
}

/// What the watcher hands over: an event of some kind, or an error.
#[derive(PartialEq, Eq, Structural, Clone, Copy, Debug)]
pub enum WatchNotice {
    Event(ChangeKind),
    Error,
}

/// Whether a notice means that the tree changed: a creation, modification or
/// removal. Errors and other kinds of event are dropped.
pub open spec fn signals_change(n: WatchNotice) -> bool {
    match n {
        WatchNotice::Event(k) => k == ChangeKind::Create || k == ChangeKind::Modify || k
            == ChangeKind::Remove,
        WatchNotice::Error => false,
    }
}

/// Whether `n` is a change that sessions are told about.
pub fn is_change(n: WatchNotice) -> (r: bool)
    ensures
        r == signals_change(n),
{
    match n {
        WatchNotice::Event(ChangeKind::Create) => true,
        WatchNotice::Event(ChangeKind::Modify) => true,
        WatchNotice::Event(ChangeKind::Remove) => true,
        _ => false,
    }
}

/// Publishes one change signal on `b` for a notice that is a change, and
/// nothing for the others; says whether it published. A signal that no
/// session is there to receive is dropped, and the next change is published
/// all the same.
pub fn forward(b: &mut Broadcaster, n: WatchNotice) -> (published: bool)
    ensures
        published == signals_change(n),
        final(b).sent() == old(b).sent() + if signals_change(n) {
            1nat
        } else {
            0nat
        },
        final(b).channel() == old(b).channel(),
{
    if is_change(n) {
        let _ = b.publish();
        true
    } else {
        false
    }
}

} // verus!
