//! The registry of devices whose events are being read.

use evdev::EventStream;
use std::task::Context;
use tokio_stream::StreamMap;
use vstd::prelude::*;

use crate::event::{capable, reported_codes, InputEvent, TargetKeySet};
use crate::hotplug::DeviceIdentity;
use crate::streams::{
    entries, first_at, holds_key, same_keys, streams_contains_key, streams_insert, streams_is_empty,
    streams_new, streams_poll_next, streams_remove, swap_removed, Polled,
};

verus! {

/// Whether no two entries have the same key.
spec fn distinct_keys(held: Seq<(Seq<u8>, EventStream)>) -> bool {
    forall|i: int, j: int| 0 <= i < j < held.len() ==> (#[trigger] held[i]).0 != (#[trigger] held[j]).0
}

/// The stream of the entry with the key `key`.
spec fn stream_under(held: Seq<(Seq<u8>, EventStream)>, key: Seq<u8>) -> EventStream {
    held[choose|i: int| 0 <= i < held.len() && (#[trigger] held[i]).0 == key].1
}

/// The entries as a map from key to stream.
spec fn keyed(held: Seq<(Seq<u8>, EventStream)>) -> Map<Seq<u8>, EventStream> {
    Map::new(|key: Seq<u8>| holds_key(held, key), |key: Seq<u8>| stream_under(held, key))
}

proof fn lemma_stream_under(held: Seq<(Seq<u8>, EventStream)>, i: int)
    requires
        distinct_keys(held),
        0 <= i < held.len(),
    ensures
        holds_key(held, held[i].0),
        stream_under(held, held[i].0) == held[i].1,
{
    let key = held[i].0;
    let j = choose|j: int| 0 <= j < held.len() && (#[trigger] held[j]).0 == key;
    assert(j == i) by {
        if j < i {
            assert(held[j].0 != held[i].0);
        } else if i < j {
            assert(held[i].0 != held[j].0);
        }
    }
}

proof fn lemma_push(held: Seq<(Seq<u8>, EventStream)>, key: Seq<u8>, stream: EventStream)
    requires
        distinct_keys(held),
        !holds_key(held, key),
    ensures
        distinct_keys(held.push((key, stream))),
        keyed(held.push((key, stream))) == keyed(held).insert(key, stream),
{
    let grown = held.push((key, stream));
    assert forall|i: int, j: int| 0 <= i < j < grown.len() implies (#[trigger] grown[i]).0 != (
    #[trigger] grown[j]).0 by {
        if j == held.len() {
            assert(held[i].0 != key);
        } else {
            assert(held[i].0 != held[j].0);
        }
    }
    assert forall|k: Seq<u8>|
        keyed(grown).dom().contains(k) == keyed(held).insert(key, stream).dom().contains(
            k,
        ) by {
        if holds_key(held, k) {
            let i = choose|i: int| 0 <= i < held.len() && (#[trigger] held[i]).0 == k;
            assert(grown[i].0 == k);
        }
        if k == key {
            assert(grown[held.len() as int].0 == k);
        }
        if holds_key(grown, k) && k != key {
            let i = choose|i: int| 0 <= i < grown.len() && (#[trigger] grown[i]).0 == k;
            assert(held[i].0 == k);
        }
    }
    assert forall|k: Seq<u8>| keyed(grown).dom().contains(k) implies #[trigger] keyed(grown)[k]
        == keyed(held).insert(key, stream)[k] by {
        let i = choose|i: int| 0 <= i < grown.len() && (#[trigger] grown[i]).0 == k;
        lemma_stream_under(grown, i);
        if i < held.len() {
            assert(held[i].0 == k);
            lemma_stream_under(held, i);
        }
    }
    assert(keyed(grown) =~= keyed(held).insert(key, stream));
}

proof fn lemma_swap_removed(held: Seq<(Seq<u8>, EventStream)>, i: int)
    requires
        distinct_keys(held),
        0 <= i < held.len(),
    ensures
        distinct_keys(swap_removed(held, i)),
        !holds_key(swap_removed(held, i), held[i].0),
        keyed(swap_removed(held, i)) == keyed(held).remove(held[i].0),
{
    let rest = swap_removed(held, i);
    let last = held.len() - 1;
    // Where the entry at `p` of `rest` stood in `held`.
    let origin = |p: int| if p == i { last } else { p };
    assert forall|p: int| 0 <= p < rest.len() implies #[trigger] rest[p] == held[origin(p)] && 0
        <= origin(p) < held.len() && origin(p) != i by {}
    assert forall|p: int, q: int| 0 <= p < q < rest.len() implies (#[trigger] rest[p]).0 != (
    #[trigger] rest[q]).0 by {
        let a = origin(p);
        let b = origin(q);
        assert(rest[p] == held[a] && rest[q] == held[b]);
        assert(a != b);
        if a < b {
            assert(held[a].0 != held[b].0);
        } else {
            assert(held[b].0 != held[a].0);
        }
    }
    assert(!holds_key(rest, held[i].0)) by {
        if holds_key(rest, held[i].0) {
            let p = choose|p: int| 0 <= p < rest.len() && (#[trigger] rest[p]).0 == held[i].0;
            let a = origin(p);
            assert(rest[p] == held[a]);
            if a < i {
                assert(held[a].0 != held[i].0);
            } else {
                assert(held[i].0 != held[a].0);
            }
        }
    }
    assert forall|k: Seq<u8>|
        keyed(rest).dom().contains(k) == keyed(held).remove(held[i].0).dom().contains(k) by {
        if holds_key(rest, k) {
            let p = choose|p: int| 0 <= p < rest.len() && (#[trigger] rest[p]).0 == k;
            assert(rest[p] == held[origin(p)]);
            assert(held[origin(p)].0 == k);
        }
        if holds_key(held, k) && k != held[i].0 {
            let a = choose|a: int| 0 <= a < held.len() && (#[trigger] held[a]).0 == k;
            let p = if a == last { i } else { a };
            assert(rest[p] == held[a]);
            assert(rest[p].0 == k);
        }
    }
    assert forall|k: Seq<u8>| keyed(rest).dom().contains(k) implies #[trigger] keyed(rest)[k]
        == keyed(held).remove(held[i].0)[k] by {
        let p = choose|p: int| 0 <= p < rest.len() && (#[trigger] rest[p]).0 == k;
        lemma_stream_under(rest, p);
        assert(rest[p] == held[origin(p)]);
        lemma_stream_under(held, origin(p));
    }
    assert(keyed(rest) =~= keyed(held).remove(held[i].0));
}

proof fn lemma_same_keys(a: Seq<(Seq<u8>, EventStream)>, b: Seq<(Seq<u8>, EventStream)>)
    requires
        same_keys(a, b),
        distinct_keys(a),
    ensures
        distinct_keys(b),
        keyed(a).dom() == keyed(b).dom(),
{
    assert forall|i: int, j: int| 0 <= i < j < b.len() implies (#[trigger] b[i]).0 != (
    #[trigger] b[j]).0 by {
        assert(a[i].0 == b[i].0 && a[j].0 == b[j].0);
        assert(a[i].0 != a[j].0);
    }
    assert forall|k: Seq<u8>| holds_key(a, k) == holds_key(b, k) by {
        if holds_key(a, k) {
            let i = choose|i: int| 0 <= i < a.len() && (#[trigger] a[i]).0 == k;
            assert(b[i].0 == k);
        }
        if holds_key(b, k) {
            let i = choose|i: int| 0 <= i < b.len() && (#[trigger] b[i]).0 == k;
            assert(a[i].0 == b[i].0);
        }
    }
    assert(keyed(a).dom() =~= keyed(b).dom());
}

/// Why a device that appeared is not registered. Such a failure concerns the
/// one device only: it is reported and the device is skipped.
#[derive(Clone, Copy, Debug, PartialEq, Eq, Structural)]
pub enum AddError {
    /// The device has no node to read events from.
    NoDevnode,
    /// The device reports none of the target keys.
    Unsupported,
}

/// Leave to register one device: proof that the capability predicate was
/// applied to it and accepted it. Only [`qualify`] makes one.
#[derive(Debug)]
pub struct Admission {
    identity: DeviceIdentity,
}

impl View for Admission {
    type V = Seq<u8>;

    closed spec fn view(&self) -> Seq<u8> {
        self.identity@
    }
}

impl Admission {
    /// The device that was admitted.
    pub fn identity(&self) -> (identity: &DeviceIdentity)
        ensures
            identity@ == self@,
    {
        &self.identity
    }
}

/// First half of adding a device: applies the capability predicate to the key
/// capabilities that the freshly opened device reported. A device that reports
/// none of the target keys is refused as unsupported; any other is accepted
/// under its identity. The registry is not touched: the caller wraps the
/// admitted device as an event stream and hands both to
/// [`Registry::reconcile_add`].
pub fn qualify(identity: DeviceIdentity, reported: &Option<Vec<u16>>, targets: &TargetKeySet) -> (outcome:
    Result<Admission, AddError>)
    ensures
        match outcome {
            Ok(admission) => capable(targets@, reported_codes(*reported)) && admission@
                == identity@,
            Err(error) => !capable(targets@, reported_codes(*reported)) && error
                == AddError::Unsupported,
        },
{
    if targets.supports(reported) {
        Ok(Admission { identity })
    } else {
        Err(AddError::Unsupported)
    }
}

/// The registry after `stream` is registered under `identity`.
pub open spec fn added(
    registry: Map<Seq<u8>, EventStream>,
    identity: Seq<u8>,
    stream: EventStream,
) -> Map<Seq<u8>, EventStream> {
    registry.insert(identity, stream)
}

/// The registry after `identity` is removed.
pub open spec fn removed(registry: Map<Seq<u8>, EventStream>, identity: Seq<u8>) -> Map<
    Seq<u8>,
    EventStream,
> {
    registry.remove(identity)
}

/// Registering an identity that is registered already replaces its entry: the
/// same identities are registered afterwards, the identity's stream is the new
/// one whatever the old one was, and every other entry is as before.
pub proof fn law_add_replaces(
    registry: Map<Seq<u8>, EventStream>,
    identity: Seq<u8>,
    stream: EventStream,
)
    requires
        registry.dom().contains(identity),
    ensures
        added(registry, identity, stream).dom() == registry.dom(),
        added(registry, identity, stream)[identity] == stream,
        forall|other: Seq<u8>|
            other != identity && registry.dom().contains(other) ==> #[trigger] added(
                registry,
                identity,
                stream,
            )[other] == registry[other],
{
    assert(added(registry, identity, stream).dom() =~= registry.dom());
}

/// Removing an identity that is not registered changes nothing.
pub proof fn law_remove_absent(registry: Map<Seq<u8>, EventStream>, identity: Seq<u8>)
    requires
        !registry.dom().contains(identity),
    ensures
        removed(registry, identity) == registry,
{
    assert(removed(registry, identity) =~= registry);
}

/// Removing an identity twice in a row is the same as removing it once.
pub proof fn law_remove_idempotent(registry: Map<Seq<u8>, EventStream>, identity: Seq<u8>)
    ensures
        removed(removed(registry, identity), identity) == removed(registry, identity),
        !removed(registry, identity).dom().contains(identity),
{
    assert(removed(removed(registry, identity), identity) =~= removed(registry, identity));
}

/// What the registry hands out for what its collection answered to a poll:
/// an item goes out under the identity whose bytes are the key that came with
/// it, and a collection that is not ready, or has ended for want of entries,
/// is not ready.
pub fn deliver(raw: Polled<Option<(Vec<u8>, Result<InputEvent, std::io::Error>)>>) -> (polled: Polled<
    (DeviceIdentity, Result<InputEvent, std::io::Error>),
>)
    ensures
        match raw {
            Polled::Ready(Some((key, item))) => polled matches Polled::Ready((identity, given))
                && identity@ == key@ && given == item,
            Polled::Ready(None) => polled is Pending,
            Polled::Pending => polled is Pending,
        },
{
    match raw {
        Polled::Ready(Some((key, item))) => Polled::Ready((DeviceIdentity::new(key), item)),
        Polled::Ready(None) => Polled::Pending,
        Polled::Pending => Polled::Pending,
    }
}

/// The devices whose events are being read: each registered identity with the
/// open event stream of its device.
///
/// An identity is registered at most once. The registry is created empty and
/// changes only through [`Registry::reconcile_add`] and [`Registry::remove`];
/// reading from it changes no membership.
pub struct Registry {
    streams: StreamMap<Vec<u8>, EventStream>,
}

impl View for Registry {
    type V = Map<Seq<u8>, EventStream>;

    closed spec fn view(&self) -> Map<Seq<u8>, EventStream> {
        keyed(entries(self.streams))
    }
}

impl Registry {
    #[verifier::type_invariant]
    spec fn registered_once(self) -> bool {
        distinct_keys(entries(self.streams))
    }

    /// Whether `identity` is registered.
    pub open spec fn has(&self, identity: Seq<u8>) -> bool {
        self@.dom().contains(identity)
    }

    /// Whether no device is registered.
    pub open spec fn vacant(&self) -> bool {
        forall|identity: Seq<u8>| !self.has(identity)
    }

    /// The registry without any device.
    pub fn new() -> (registry: Registry)
        ensures
            registry@ == Map::<Seq<u8>, EventStream>::empty(),
    {
        let streams = streams_new();
        assert(keyed(entries(streams)) =~= Map::<Seq<u8>, EventStream>::empty());
        Registry { streams }
    }

    /// Whether no device is registered. An empty registry has nothing to wait
    /// for and is left out of the race between the two sources.
    pub fn is_empty(&self) -> (empty: bool)
        ensures
            empty == self.vacant(),
            empty == (self@ == Map::<Seq<u8>, EventStream>::empty()),
    {
        let empty = streams_is_empty(&self.streams);
        proof {
            let held = entries(self.streams);
            if held.len() > 0 {
                assert(held[0].0 == held[0].0);
                assert(holds_key(held, held[0].0));
                assert(self.has(held[0].0));
            } else {
                assert(self@ =~= Map::<Seq<u8>, EventStream>::empty());
            }
        }
        empty
    }

    /// Whether `identity` is registered.
    pub fn contains(&self, identity: &DeviceIdentity) -> (found: bool)
        ensures
            found == self.has(identity@),
    {
        streams_contains_key(&self.streams, identity.as_bytes())
    }

    /// Second half of adding a device: registers `stream` under the admitted
    /// identity. Where the identity is registered already, its entry is
    /// replaced and the stream that it held is dropped, which closes it.
    pub fn reconcile_add(&mut self, admission: Admission, stream: EventStream)
        ensures
            final(self)@ == added(old(self)@, admission@, stream),
    {
        proof {
            use_type_invariant(&*self);
        }
        let ghost before = entries(self.streams);
        let ghost key = admission@;
        let mut streams = self.take();
        let replaced = streams_insert(&mut streams, admission.identity.into_bytes(), stream);
        proof {
            match replaced {
                Some(prior) => {
                    let i = choose|i: int|
                        {
                            &&& first_at(before, key, i)
                            &&& prior == before[i].1
                            &&& entries(streams) == swap_removed(before, i).push((key, stream))
                        };
                    lemma_swap_removed(before, i);
                    lemma_push(swap_removed(before, i), key, stream);
                    assert(keyed(before).remove(key).insert(key, stream) =~= keyed(before).insert(
                        key,
                        stream,
                    ));
                },
                None => {
                    lemma_push(before, key, stream);
                },
            }
        }
        self.streams = streams;
    }

    /// Drops the entry of `identity`, which closes its stream. Where the
    /// identity is not registered nothing changes; that is no error.
    pub fn remove(&mut self, identity: &DeviceIdentity)
        ensures
            final(self)@ == removed(old(self)@, identity@),
            !old(self).has(identity@) ==> final(self)@ == old(self)@,
            !final(self).has(identity@),
    {
        proof {
            use_type_invariant(&*self);
        }
        let ghost before = entries(self.streams);
        let mut streams = self.take();
        let removed = streams_remove(&mut streams, identity.as_bytes());
        proof {
            match removed {
                Some(stream) => {
                    let i = choose|i: int|
                        {
                            &&& first_at(before, identity@, i)
                            &&& stream == before[i].1
                            &&& entries(streams) == swap_removed(before, i)
                        };
                    lemma_swap_removed(before, i);
                },
                None => {
                    assert(keyed(before).remove(identity@) =~= keyed(before));
                },
            }
        }
        self.streams = streams;
    }

    /// Reads the registered devices once: hands out the next event, or the
    /// read failure, of whichever device has one ready, with the identity of
    /// that device, and otherwise registers the waker in `cx` and answers
    /// that nothing is ready.
    ///
    /// An empty registry is never ready. A read failure is handed out like
    /// an event and removes nothing: the caller reacts to it first and then
    /// calls [`Registry::remove`].
    pub fn poll_next(&mut self, cx: &mut Context<'_>) -> (polled: Polled<
        (DeviceIdentity, Result<InputEvent, std::io::Error>),
    >)
        ensures
            final(self)@.dom() == old(self)@.dom(),
            old(self).vacant() ==> polled is Pending,
            polled matches Polled::Ready((identity, _)) ==> old(self).has(identity@),
    {
        proof {
            use_type_invariant(&*self);
        }
        if self.is_empty() {
            return Polled::Pending;
        }
        let ghost before = entries(self.streams);
        let mut streams = self.take();
        let polled = streams_poll_next(&mut streams, cx);
        proof {
            lemma_same_keys(before, entries(streams));
        }
        self.streams = streams;
        deliver(polled)
    }

    /// Takes the streams out and leaves none behind, so that the collection
    /// can be changed and put back whole.
    fn take(&mut self) -> (streams: StreamMap<Vec<u8>, EventStream>)
        ensures
            streams == old(self).streams,
            entries(final(self).streams).len() == 0,
    {
        let mut streams = streams_new();
        core::mem::swap(&mut self.streams, &mut streams);
        streams
    }
}

} // verus!
