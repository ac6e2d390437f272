//! The collection that holds the event streams of the registered devices.
//!
//! The collection is `tokio_stream::StreamMap`, keyed by the bytes of a device
//! identity and holding one `evdev::EventStream` per key. Nothing in this file
//! is proved: each function states what the collection's own code does, and
//! the registry is proved against these statements.

use evdev::EventStream;
use std::pin::Pin;
use std::task::{Context, Poll};
use tokio_stream::{Stream, StreamMap};
use vstd::prelude::*;

use crate::event::InputEvent;

verus! {

/// `tokio_stream::StreamMap`, a keyed collection of streams that is polled as
/// one stream. Nothing is known of a value but what [`entries`] names.
#[verifier::external_type_specification]
#[verifier::external_body]
#[verifier::reject_recursive_types(K)]
#[verifier::reject_recursive_types(V)]
pub struct ExStreamMap<K, V>(StreamMap<K, V>);

/// `evdev::EventStream`, the open event source of one input device. A value
/// is carried through and never looked into.
#[verifier::external_type_specification]
#[verifier::external_body]
pub struct ExEventStream(EventStream);

/// `std::task::Context`, which carries the waker of the task that polls.
#[verifier::external_type_specification]
#[verifier::external_body]
pub struct ExContext<'a>(Context<'a>);

/// `std::io::Error`, carried through and never looked into.
#[verifier::external_type_specification]
#[verifier::external_body]
pub struct ExIoError(std::io::Error);

/// What a stream map holds: its entries in the order in which it keeps them,
/// each the bytes of a key with the stream stored under that key. The map
/// itself does not forbid two entries with one key.
pub uninterp spec fn entries(streams: StreamMap<Vec<u8>, EventStream>) -> Seq<
    (Seq<u8>, EventStream),
>;

/// Whether some entry has the key `key`.
pub open spec fn holds_key(held: Seq<(Seq<u8>, EventStream)>, key: Seq<u8>) -> bool {
    exists|i: int| 0 <= i < held.len() && (#[trigger] held[i]).0 == key
}

/// Whether `i` is the position of the first entry with the key `key`.
pub open spec fn first_at(held: Seq<(Seq<u8>, EventStream)>, key: Seq<u8>, i: int) -> bool {
    &&& 0 <= i < held.len()
    &&& held[i].0 == key
    &&& forall|j: int| 0 <= j < i ==> (#[trigger] held[j]).0 != key
}

/// The entries after the one at `i` is taken out and the last entry is moved
/// into its place.
pub open spec fn swap_removed(held: Seq<(Seq<u8>, EventStream)>, i: int) -> Seq<
    (Seq<u8>, EventStream),
> {
    held.update(i, held.last()).drop_last()
}

/// Whether two lists of entries have the same keys at the same positions.
pub open spec fn same_keys(a: Seq<(Seq<u8>, EventStream)>, b: Seq<(Seq<u8>, EventStream)>) -> bool {
    &&& a.len() == b.len()
    &&& forall|i: int| 0 <= i < a.len() ==> (#[trigger] a[i]).0 == b[i].0
}

/// Outcome of one poll: an item, or not ready yet. It mirrors
/// `std::task::Poll`.
pub enum Polled<T> {
    /// The item that was ready.
    Ready(T),
    /// Nothing is ready; the waker in the context has been registered.
    Pending,
}

/// `StreamMap::new`: a map without entries.
#[verifier::external_body]
pub(crate) fn streams_new() -> (streams: StreamMap<Vec<u8>, EventStream>)
    ensures
        entries(streams).len() == 0,
{
    StreamMap::new()
}

/// `StreamMap::is_empty`: whether the map has no entry.
#[verifier::external_body]
pub(crate) fn streams_is_empty(streams: &StreamMap<Vec<u8>, EventStream>) -> (empty: bool)
    ensures
        empty == (entries(*streams).len() == 0),
{
    streams.is_empty()
}

/// `StreamMap::contains_key`: whether some entry has a key equal to `key`.
#[verifier::external_body]
pub(crate) fn streams_contains_key(streams: &StreamMap<Vec<u8>, EventStream>, key: &Vec<u8>) -> (found:
    bool)
    ensures
        found == holds_key(entries(*streams), key@),
{
    streams.contains_key(key)
}

/// `StreamMap::remove`: takes out the first entry whose key equals `key`,
/// moving the last entry into its place, and returns that entry's stream.
/// Without such an entry the map is left as it was and `None` is returned.
#[verifier::external_body]
pub(crate) fn streams_remove(streams: &mut StreamMap<Vec<u8>, EventStream>, key: &Vec<u8>) -> (removed:
    Option<EventStream>)
    ensures
        match removed {
            Some(stream) => exists|i: int|
                {
                    &&& first_at(entries(*old(streams)), key@, i)
                    &&& stream == entries(*old(streams))[i].1
                    &&& entries(*final(streams)) == swap_removed(entries(*old(streams)), i)
                },
            None => {
                &&& !holds_key(entries(*old(streams)), key@)
                &&& entries(*final(streams)) == entries(*old(streams))
            },
        },
{
    streams.remove(key)
}

/// `StreamMap::insert`: removes as `StreamMap::remove` does, then appends the
/// entry of `key` and `stream` at the end. It returns what the removal
/// returned: the stream that was stored under the key, if there was one.
#[verifier::external_body]
pub(crate) fn streams_insert(
    streams: &mut StreamMap<Vec<u8>, EventStream>,
    key: Vec<u8>,
    stream: EventStream,
) -> (replaced: Option<EventStream>)
    ensures
        match replaced {
            Some(prior) => exists|i: int|
                {
                    &&& first_at(entries(*old(streams)), key@, i)
                    &&& prior == entries(*old(streams))[i].1
                    &&& entries(*final(streams)) == swap_removed(entries(*old(streams)), i).push(
                        (key@, stream),
                    )
                },
            None => {
                &&& !holds_key(entries(*old(streams)), key@)
                &&& entries(*final(streams)) == entries(*old(streams)).push((key@, stream))
            },
        },
{
    streams.insert(key, stream)
}

/// `StreamMap::poll_next`: polls the streams in turn, starting at a position
/// that it picks at random, and hands out the first item that is ready, with
/// a copy of the key of the entry that gave it. Which entry that is depends
/// on the devices and on chance, so nothing is said of it but that its key is
/// in the map. An entry leaves only when its stream ends, which an
/// `EventStream` never does, so the keys stay as they were; the streams
/// themselves are polled and so may differ afterwards. A map without entries
/// answers at once that it has ended, and a map with entries never does.
#[verifier::external_body]
pub(crate) fn streams_poll_next(
    streams: &mut StreamMap<Vec<u8>, EventStream>,
    cx: &mut Context<'_>,
) -> (polled: Polled<Option<(Vec<u8>, Result<InputEvent, std::io::Error>)>>)
    ensures
        same_keys(entries(*old(streams)), entries(*final(streams))),
        match polled {
            Polled::Ready(Some((key, _))) => holds_key(entries(*old(streams)), key@),
            Polled::Ready(None) => entries(*old(streams)).len() == 0,
            Polled::Pending => entries(*old(streams)).len() > 0,
        },
{
    match Stream::poll_next(Pin::new(streams), cx) {
        Poll::Ready(Some((key, Ok(ev)))) => Polled::Ready(
            Some((key, Ok(InputEvent { event_type: ev.event_type().0, code: ev.code(), value: ev.value() }))),
        ),
        Poll::Ready(Some((key, Err(error)))) => Polled::Ready(Some((key, Err(error)))),
        Poll::Ready(None) => Polled::Ready(None),
        Poll::Pending => Polled::Pending,
    }
}

} // verus!
