//! The type-indexed bus: one unbounded channel per payload type, created by
//! whichever of the first publish or the first subscribe comes first.
use vstd::prelude::*;

use std::any::TypeId;
use std::collections::HashMap;

use tokio::sync::mpsc::{unbounded_channel, UnboundedReceiver, UnboundedSender};

use crate::bus_model::{publish_view, subscribe_accepted, subscribe_view, view_wf, BusView};
use crate::channel_utils::LoggingTx;

verus! {

#[verifier::external_type_specification]
#[verifier::external_body]
#[verifier::reject_recursive_types(T)]
pub struct ExUnboundedReceiver<T>(UnboundedReceiver<T>);

/// Relies on `TypeId::of`: the identifier of a type.
pub assume_specification<T: ?Sized + 'static>[ TypeId::of::<T> ]() -> TypeId;

/// Relies on tokio's `unbounded_channel`: a fresh connected pair.
pub assume_specification<T>[ unbounded_channel::<T> ]() -> (UnboundedSender<T>, UnboundedReceiver<T>);

/// Relies on the `Debug` rendering of `TypeId`, as a channel label.
#[verifier::external_body]
fn key_label(key: &TypeId) -> String {
    format!("{:?}", key)
}

/// A type-erased slot: it holds one value of any payload-carrying type and
/// hands it back only as the type it was stored as. Trait objects stay
/// outside the verified code, so the embedding program supplies the slot
/// (typically a `Box<dyn Any + Send>`, where `holds::<V>()` means that the
/// boxed value has type `V`, which is what `downcast` checks).
pub trait ErasedSlot: Sized {
    /// Whether the held value has type `V`.
    spec fn holds<V: 'static>(&self) -> bool;

    /// A slot holding `value`.
    fn hold<V: Send + 'static>(value: V) -> (r: Self)
        ensures
            r.holds::<V>(),
    ;

    /// The held value, exactly when it has type `V`.
    fn view_as<V: Send + 'static>(&self) -> (r: Option<&V>)
        ensures
            r is Some <==> self.holds::<V>(),
    ;

    /// The held value, exactly when it has type `V`.
    fn take_as<V: Send + 'static>(self) -> (r: Option<V>)
        ensures
            r is Some <==> self.holds::<V>(),
    ;
}

/// The position of each payload type's slot.
#[verifier::external_body]
pub struct KeyIndex {
    map: HashMap<TypeId, usize>,
}

/// The positions that a `KeyIndex` holds.
pub uninterp spec fn key_positions(m: KeyIndex) -> Map<TypeId, usize>;

impl KeyIndex {
    /// Relies on `HashMap::new`: an empty map.
    #[verifier::external_body]
    fn new() -> (r: Self)
        ensures
            key_positions(r) =~= Map::empty(),
    {
        KeyIndex { map: HashMap::new() }
    }

    /// Relies on `HashMap::get`: the position stored under `key`.
    #[verifier::external_body]
    fn get(&self, key: &TypeId) -> (r: Option<usize>)
        ensures
            r == (if key_positions(*self).contains_key(*key) {
                Some(key_positions(*self)[*key])
            } else {
                None
            }),
    {
        self.map.get(key).copied()
    }

    /// Relies on `HashMap::insert`: `key` now maps to `pos`.
    #[verifier::external_body]
    fn insert(&mut self, key: TypeId, pos: usize)
        ensures
            key_positions(*final(self)) == key_positions(*old(self)).insert(key, pos),
    {
        self.map.insert(key, pos);
    }
}

/// Slots keyed by the identifier of their payload type. A taken slot leaves
/// `None` behind, so positions never move.
#[verifier::reject_recursive_types(S)]
struct SlotMap<S> {
    index: KeyIndex,
    slots: Vec<Option<S>>,
}

impl<S> SlotMap<S> {
    /// Each key has its own position inside `slots`.
    spec fn wf(&self) -> bool {
        let pos = key_positions(self.index);
        &&& forall|k: TypeId| #[trigger] pos.contains_key(k) ==> pos[k] < self.slots@.len()
        &&& forall|k1: TypeId, k2: TypeId|
            #[trigger] pos.contains_key(k1) && #[trigger] pos.contains_key(k2) && pos[k1]
                == pos[k2] ==> k1 == k2
    }

    /// The slot stored under `k`, if any.
    spec fn at(&self, k: TypeId) -> Option<S> {
        if key_positions(self.index).contains_key(k) {
            self.slots@[key_positions(self.index)[k] as int]
        } else {
            None
        }
    }

    /// The keys whose slot is filled.
    spec fn keys(&self) -> Set<TypeId> {
        Set::new(|k: TypeId| self.at(k) is Some)
    }

    fn new() -> (r: Self)
        ensures
            r.wf(),
            forall|k: TypeId| r.at(k) is None,
    {
        SlotMap { index: KeyIndex::new(), slots: Vec::new() }
    }

    fn contains(&self, key: &TypeId) -> (r: bool)
        requires
            self.wf(),
        ensures
            r == self.at(*key) is Some,
    {
        match self.index.get(key) {
            Some(pos) => self.slots[pos].is_some(),
            None => false,
        }
    }

    fn get(&self, key: &TypeId) -> (r: Option<&S>)
        requires
            self.wf(),
        ensures
            r is Some <==> self.at(*key) is Some,
            r is Some ==> *r->Some_0 == self.at(*key)->Some_0,
    {
        match self.index.get(key) {
            Some(pos) => self.slots[pos].as_ref(),
            None => None,
        }
    }

    fn insert(&mut self, key: TypeId, slot: S)
        requires
            old(self).wf(),
        ensures
            final(self).wf(),
            final(self).at(key) == Some(slot),
            forall|k: TypeId| k != key ==> #[trigger] final(self).at(k) == old(self).at(k),
    {
        match self.index.get(&key) {
            Some(pos) => {
                self.slots.set(pos, Some(slot));
            },
            None => {
                let pos = self.slots.len();
                self.slots.push(Some(slot));
                self.index.insert(key, pos);
            },
        }
    }

    fn remove(&mut self, key: &TypeId) -> (r: Option<S>)
        requires
            old(self).wf(),
        ensures
            final(self).wf(),
            r == old(self).at(*key),
            final(self).at(*key) is None,
            forall|k: TypeId| k != *key ==> #[trigger] final(self).at(k) == old(self).at(k),
    {
        match self.index.get(key) {
            Some(pos) => {
                let mut taken: Option<S> = None;
                std::mem::swap(&mut taken, &mut self.slots[pos]);
                taken
            },
            None => None,
        }
    }
}

/// Why a publish did not reach the queue; the value comes back to the caller.
#[derive(Debug)]
pub enum PublishError<T> {
    /// The subscriber has dropped its receive side.
    PeerGone(T),
    /// The channel stored under the key is not one for this payload type.
    TypeMismatch(T),
}

/// Why a subscribe handed out no receive side.
#[derive(Debug)]
pub enum SubscribeError {
    /// The receive side for this type was already handed out.
    AlreadyRegistered,
    /// The receive side stored under the key is not one for this payload type.
    TypeMismatch,
}

/// The bus: the publish side of each known payload type, and the receive
/// sides that no subscriber has claimed yet.
#[verifier::reject_recursive_types(S)]
pub struct EventAggregator<S> {
    parent_senders: SlotMap<S>,
    unclaimed_receivers: SlotMap<S>,
}

impl<S> View for EventAggregator<S> {
    type V = BusView;

    closed spec fn view(&self) -> BusView {
        BusView {
            senders: self.parent_senders.keys(),
            unclaimed: self.unclaimed_receivers.keys(),
        }
    }
}

impl<S> EventAggregator<S> {
    pub closed spec fn wf(&self) -> bool {
        &&& self.parent_senders.wf()
        &&& self.unclaimed_receivers.wf()
        &&& view_wf(self@)
    }

    /// The publish side stored under `k`, if any.
    pub closed spec fn sender_slot(&self, k: TypeId) -> Option<S> {
        self.parent_senders.at(k)
    }

    /// The unclaimed receive side stored under `k`, if any.
    pub closed spec fn receiver_slot(&self, k: TypeId) -> Option<S> {
        self.unclaimed_receivers.at(k)
    }

    /// A key is known exactly when its publish side is stored, and waits to
    /// be claimed exactly when its receive side is stored.
    pub broadcast proof fn lemma_view_matches_slots(&self, k: TypeId)
        ensures
            #![trigger self.sender_slot(k)]
            #![trigger self.receiver_slot(k)]
            self@.senders.contains(k) <==> self.sender_slot(k) is Some,
            self@.unclaimed.contains(k) <==> self.receiver_slot(k) is Some,
    {
    }

    /// Every type key other than `key` keeps the endpoints it had.
    pub open spec fn others_unchanged(&self, before: &Self, key: TypeId) -> bool {
        forall|k: TypeId|
            k != key ==> #[trigger] self.sender_slot(k) == before.sender_slot(k)
                && self.receiver_slot(k) == before.receiver_slot(k)
    }
}

impl<S: ErasedSlot> EventAggregator<S> {
    /// What a publish of `event` under `key` leaves behind, for each outcome.
    pub open spec fn publish_outcome<T>(
        &self,
        before: &Self,
        key: TypeId,
        event: T,
        r: Result<(), PublishError<T>>,
    ) -> bool {
        &&& self.others_unchanged(before, key)
        &&& match r {
            Err(PublishError::PeerGone(v)) => v == event,
            Err(PublishError::TypeMismatch(v)) => v == event,
            Ok(()) => true,
        }
        &&& if before.sender_slot(key) is Some {
            &&& self.sender_slot(key) == before.sender_slot(key)
            &&& self.receiver_slot(key) == before.receiver_slot(key)
            &&& (r is Err && r->Err_0 is TypeMismatch) <==> !before.sender_slot(
                key,
            )->Some_0.holds::<LoggingTx<T>>()
        } else {
            &&& self.sender_slot(key) is Some
            &&& self.sender_slot(key)->Some_0.holds::<LoggingTx<T>>()
            &&& self.receiver_slot(key) is Some
            &&& self.receiver_slot(key)->Some_0.holds::<UnboundedReceiver<T>>()
            &&& !(r is Err && r->Err_0 is TypeMismatch)
        }
    }

    /// What an accepted subscribe under `key` leaves behind.
    pub open spec fn subscribe_outcome<T>(
        &self,
        before: &Self,
        key: TypeId,
        r: Result<UnboundedReceiver<T>, SubscribeError>,
    ) -> bool {
        &&& self.others_unchanged(before, key)
        &&& self.sender_slot(key) is Some
        &&& self.receiver_slot(key) is None
        &&& !(r is Err && r->Err_0 is AlreadyRegistered)
        &&& if before.receiver_slot(key) is Some {
            &&& self.sender_slot(key) == before.sender_slot(key)
            &&& r is Ok <==> before.receiver_slot(key)->Some_0.holds::<UnboundedReceiver<T>>()
        } else {
            &&& self.sender_slot(key)->Some_0.holds::<LoggingTx<T>>()
            &&& r is Ok
        }
    }

    /// Publishes `event` on the channel stored under `key`, creating that
    /// channel under `label` and stashing its receive side when `key` is new.
    pub fn send_keyed<T: Send + 'static>(&mut self, key: TypeId, label: String, event: T) -> (r: Result<
        (),
        PublishError<T>,
    >)
        requires
            old(self).wf(),
        ensures
            final(self).wf(),
            final(self)@ == publish_view(old(self)@, key) || (r is Err && r->Err_0 is TypeMismatch
                && final(self)@ == old(self)@),
            final(self).publish_outcome(&*old(self), key, event, r),
    {
        if let Some(slot) = self.parent_senders.get(&key) {
            assert(self@.senders.insert(key) =~= self@.senders);
            match slot.view_as::<LoggingTx<T>>() {
                Some(tx) => match tx.send(event) {
                    Ok(()) => Ok(()),
                    Err(e) => Err(PublishError::PeerGone(e.0)),
                },
                None => Err(PublishError::TypeMismatch(event)),
            }
        } else {
            let (sender, receiver) = unbounded_channel::<T>();
            let tx = LoggingTx::attach(sender, label);
            let sent = tx.send(event);
            self.parent_senders.insert(key, S::hold(tx));
            self.unclaimed_receivers.insert(key, S::hold(receiver));
            assert(self@.senders =~= old(self)@.senders.insert(key));
            assert(self@.unclaimed =~= old(self)@.unclaimed.insert(key));
            match sent {
                Ok(()) => Ok(()),
                Err(e) => Err(PublishError::PeerGone(e.0)),
            }
        }
    }

    /// Whether the receive side for `key` has already been handed out.
    pub fn is_claimed(&self, key: &TypeId) -> (r: bool)
        requires
            self.wf(),
        ensures
            r == !subscribe_accepted(self@, *key),
    {
        self.parent_senders.contains(key) && !self.unclaimed_receivers.contains(key)
    }

    /// Hands out the receive side of the channel stored under `key`: the
    /// stashed one if a publish came first, else that of a new channel,
    /// labelled `label`. A second subscribe for one key is a caller's fault.
    pub fn register_event_keyed<T: Send + 'static>(&mut self, key: TypeId, label: String) -> (r: Result<
        UnboundedReceiver<T>,
        SubscribeError,
    >)
        requires
            old(self).wf(),
            subscribe_accepted(old(self)@, key),
        ensures
            final(self).wf(),
            final(self)@ == subscribe_view(old(self)@, key),
            final(self).subscribe_outcome(&*old(self), key, r),
    {
        if let Some(slot) = self.unclaimed_receivers.remove(&key) {
            assert(self@.unclaimed =~= old(self)@.unclaimed.remove(key));
            match slot.take_as::<UnboundedReceiver<T>>() {
                Some(receiver) => Ok(receiver),
                None => Err(SubscribeError::TypeMismatch),
            }
        } else {
            let (sender, receiver) = unbounded_channel::<T>();
            let tx = LoggingTx::attach(sender, label);
            self.parent_senders.insert(key, S::hold(tx));
            assert(self@.unclaimed =~= old(self)@.unclaimed);
            assert(self@.senders =~= old(self)@.senders.insert(key));
            Ok(receiver)
        }
    }

    /// Publishes `event` to the subscriber of its type, now or later.
    pub fn send<T: Send + 'static>(&mut self, event: T) -> (r: Result<(), PublishError<T>>)
        requires
            old(self).wf(),
        ensures
            final(self).wf(),
            exists|key: TypeId|
                (final(self)@ == publish_view(old(self)@, key) || (r is Err && r->Err_0 is TypeMismatch
                    && final(self)@ == old(self)@)) && #[trigger] final(self).publish_outcome(
                    &*old(self),
                    key,
                    event,
                    r,
                ),
    {
        let key = TypeId::of::<T>();
        let label = key_label(&key);
        self.send_keyed(key, label, event)
    }

    /// The receive side for payload type `T`; honoured once per type, and
    /// refused with `AlreadyRegistered`, changing nothing, after that.
    pub fn register_event<T: Send + 'static>(&mut self) -> (r: Result<
        UnboundedReceiver<T>,
        SubscribeError,
    >)
        requires
            old(self).wf(),
        ensures
            final(self).wf(),
            exists|key: TypeId|
                if #[trigger] subscribe_accepted(old(self)@, key) {
                    final(self)@ == subscribe_view(old(self)@, key)
                        && final(self).subscribe_outcome(&*old(self), key, r)
                } else {
                    *final(self) == *old(self) && r is Err && r->Err_0 is AlreadyRegistered
                },
    {
        let key = TypeId::of::<T>();
        if self.is_claimed(&key) {
            return Err(SubscribeError::AlreadyRegistered);
        }
        let label = key_label(&key);
        self.register_event_keyed(key, label)
    }
}

impl<S> Default for EventAggregator<S> {
    fn default() -> (r: Self)
        ensures
            r.wf(),
            r@ == crate::bus_model::empty_view(),
            forall|k: TypeId| r.sender_slot(k) is None && r.receiver_slot(k) is None,
    {
        let r = EventAggregator { parent_senders: SlotMap::new(), unclaimed_receivers: SlotMap::new() };
        assert(r@.senders =~= Set::<TypeId>::empty());
        assert(r@.unclaimed =~= Set::<TypeId>::empty());
        r
    }
}

} // verus!
