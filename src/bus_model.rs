//! The bus as sets of type keys: which payload types have a publish side,
//! and which of those still hold a receive side that nobody has claimed.
use vstd::prelude::*;

use std::any::TypeId;

verus! {

#[verifier::external_type_specification]
#[verifier::external_body]
pub struct ExTypeId(TypeId);

/// The state of the bus, seen through the type keys it knows.
pub struct BusView {
    /// Keys with a publish side.
    pub senders: Set<TypeId>,
    /// Keys whose receive side waits to be claimed by a subscriber.
    pub unclaimed: Set<TypeId>,
}

/// Where one payload type stands in its life on the bus.
pub enum Slot {
    /// Neither published nor subscribed yet.
    Unknown,
    /// Published, its receive side waiting for the subscriber.
    Unclaimed,
    /// Its receive side has been handed to the one subscriber.
    Claimed,
}

/// The bus before anything is published or subscribed.
pub open spec fn empty_view() -> BusView {
    BusView { senders: Set::empty(), unclaimed: Set::empty() }
}

/// An unclaimed receive side always has a publish side beside it.
pub open spec fn view_wf(v: BusView) -> bool {
    v.unclaimed.subset_of(v.senders)
}

pub open spec fn slot(v: BusView, k: TypeId) -> Slot {
    if !v.senders.contains(k) {
        Slot::Unknown
    } else if v.unclaimed.contains(k) {
        Slot::Unclaimed
    } else {
        Slot::Claimed
    }
}

/// A publish under `k`: the first one creates the channel and stashes its
/// receive side; later ones reuse the channel.
pub open spec fn publish_view(v: BusView, k: TypeId) -> BusView {
    BusView {
        senders: v.senders.insert(k),
        unclaimed: if v.senders.contains(k) {
            v.unclaimed
        } else {
            v.unclaimed.insert(k)
        },
    }
}

/// A subscribe under `k` is honoured unless the receive side was already
/// handed out.
pub open spec fn subscribe_accepted(v: BusView, k: TypeId) -> bool {
    v.unclaimed.contains(k) || !v.senders.contains(k)
}

/// A subscribe under `k`: it takes the stashed receive side, or creates the
/// channel and keeps its publish side; a refused one changes nothing.
pub open spec fn subscribe_view(v: BusView, k: TypeId) -> BusView {
    if v.unclaimed.contains(k) {
        BusView { senders: v.senders, unclaimed: v.unclaimed.remove(k) }
    } else if v.senders.contains(k) {
        v
    } else {
        BusView { senders: v.senders.insert(k), unclaimed: v.unclaimed }
    }
}

/// Publishing and subscribing keep the bus well formed.
pub proof fn lemma_steps_keep_wf(v: BusView, k: TypeId)
    requires
        view_wf(v),
    ensures
        view_wf(publish_view(v, k)),
        view_wf(subscribe_view(v, k)),
{
}

/// What is done under one type key leaves every other type's slot as it was,
/// so nothing published for one type reaches the subscriber of another.
pub proof fn lemma_types_are_isolated(v: BusView, k1: TypeId, k2: TypeId)
    requires
        k1 != k2,
    ensures
        slot(publish_view(v, k1), k2) == slot(v, k2),
        slot(subscribe_view(v, k1), k2) == slot(v, k2),
        subscribe_accepted(publish_view(v, k1), k2) == subscribe_accepted(v, k2),
        subscribe_accepted(subscribe_view(v, k1), k2) == subscribe_accepted(v, k2),
{
}

/// A publish before any subscribe stashes the receive side of the new
/// channel; further publishes keep using that channel, and the first
/// subscribe afterwards is honoured by handing that receive side out.
pub proof fn lemma_early_publish_is_kept(v: BusView, k: TypeId)
    requires
        view_wf(v),
        slot(v, k) == Slot::Unknown,
    ensures
        slot(publish_view(v, k), k) == Slot::Unclaimed,
        publish_view(publish_view(v, k), k) == publish_view(v, k),
        subscribe_accepted(publish_view(v, k), k),
        slot(subscribe_view(publish_view(v, k), k), k) == Slot::Claimed,
{
    let v1 = publish_view(v, k);
    assert(v1.senders.insert(k) =~= v1.senders);
}

/// Once a subscribe for `k` is honoured, every later subscribe for `k` is
/// refused, whatever is published in between.
pub proof fn lemma_second_subscribe_refused(v: BusView, k: TypeId)
    requires
        view_wf(v),
        subscribe_accepted(v, k),
    ensures
        slot(subscribe_view(v, k), k) == Slot::Claimed,
        !subscribe_accepted(subscribe_view(v, k), k),
        !subscribe_accepted(publish_view(subscribe_view(v, k), k), k),
        subscribe_view(subscribe_view(v, k), k) == subscribe_view(v, k),
{
}

/// A claimed slot is final: publishing and subscribing leave it claimed.
pub proof fn lemma_claimed_is_final(v: BusView, k: TypeId, k2: TypeId)
    requires
        slot(v, k) == Slot::Claimed,
    ensures
        slot(publish_view(v, k2), k) == Slot::Claimed,
        slot(subscribe_view(v, k2), k) == Slot::Claimed,
{
}

} // verus!
