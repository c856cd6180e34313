//! The body slot of a response: an exclusive-ownership cell that holds either
//! a one-time stream or a buffered copy of the body.
//!
//! Every access first takes the contents out of the slot. A buffered access
//! puts a buffer back; a streaming access leaves the slot empty, so the body
//! can be streamed exactly once.
use vstd::prelude::*;

use bytes::Bytes;

use crate::buffer::bytes_of;
use crate::error::Error;

verus! {

/// What the body slot of a response holds.
#[derive(Debug)]
pub enum ResponseBody<S> {
    /// A stream that can be read once, not yet buffered.
    Streamable(S),
    /// The whole body, buffered; clones share it.
    Reusable(Bytes),
}

/// The abstract contents of a body slot.
pub enum SlotView<S> {
    /// Consumed by a streaming access, being drained, or closed.
    Empty,
    Streamable(S),
    Reusable(Seq<u8>),
}

/// What an access to the slot hands to its caller.
pub enum BodyAccess<S> {
    /// The stream itself, for a caller that asked to stream. Nothing is put back.
    Stream(S),
    /// The stream, for a caller that asked for the buffered body: it drains it
    /// and hands the bytes back through [`BodySlot::finish_drain`].
    Drain(S),
    /// A copy of the buffered body.
    Buffered(Bytes),
}

/// The abstract form of a [`BodyAccess`].
pub enum AccessView<S> {
    Stream(S),
    Drain(S),
    Buffered(Seq<u8>),
}

impl<S> View for BodyAccess<S> {
    type V = AccessView<S>;

    open spec fn view(&self) -> AccessView<S> {
        match self {
            BodyAccess::Stream(s) => AccessView::Stream(*s),
            BodyAccess::Drain(s) => AccessView::Drain(*s),
            BodyAccess::Buffered(b) => AccessView::Buffered(bytes_of(*b)),
        }
    }
}

pub open spec fn access_view<S>(r: Result<BodyAccess<S>, Error>) -> Result<AccessView<S>, Error> {
    match r {
        Ok(a) => Ok(a@),
        Err(e) => Err(e),
    }
}

pub open spec fn bytes_result_view(r: Result<Bytes, Error>) -> Result<Seq<u8>, Error> {
    match r {
        Ok(b) => Ok(bytes_of(b)),
        Err(e) => Err(e),
    }
}

/// The slot after an access: a buffer is put back, anything else leaves it empty.
pub open spec fn begin_next<S>(s: SlotView<S>, want_stream: bool) -> SlotView<S> {
    match s {
        SlotView::Reusable(d) => SlotView::Reusable(d),
        _ => SlotView::Empty,
    }
}

/// What an access hands out.
pub open spec fn begin_result<S>(s: SlotView<S>, want_stream: bool) -> Result<AccessView<S>, Error> {
    match s {
        SlotView::Empty => Err(Error::Memory),
        SlotView::Streamable(b) => Ok(
            if want_stream {
                AccessView::Stream(b)
            } else {
                AccessView::Drain(b)
            },
        ),
        SlotView::Reusable(d) => Ok(AccessView::Buffered(d)),
    }
}

/// The slot after the outcome of a drain is handed back.
pub open spec fn finish_next<S>(s: SlotView<S>, drained: Result<Seq<u8>, Error>) -> SlotView<S> {
    match drained {
        Ok(d) => SlotView::Reusable(d),
        Err(_) => s,
    }
}

/// The slot after `close`.
pub open spec fn close_next<S>(s: SlotView<S>) -> SlotView<S> {
    SlotView::Empty
}

/// The results of `n` buffered accesses in a row, starting from `s`.
pub open spec fn buffered_reads<S>(s: SlotView<S>, n: nat) -> Seq<Result<AccessView<S>, Error>>
    decreases n,
{
    if n == 0 {
        Seq::empty()
    } else {
        seq![begin_result(s, false)] + buffered_reads(begin_next(s, false), (n - 1) as nat)
    }
}

/// The slot after `n` buffered accesses in a row, starting from `s`.
pub open spec fn after_buffered_reads<S>(s: SlotView<S>, n: nat) -> SlotView<S>
    decreases n,
{
    if n == 0 {
        s
    } else {
        after_buffered_reads(begin_next(s, false), (n - 1) as nat)
    }
}

/// The body slot of one response.
#[derive(Debug)]
pub struct BodySlot<S> {
    body: Option<ResponseBody<S>>,
}

impl<S> View for BodySlot<S> {
    type V = SlotView<S>;

    closed spec fn view(&self) -> SlotView<S> {
        match self.body {
            None => SlotView::Empty,
            Some(ResponseBody::Streamable(s)) => SlotView::Streamable(s),
            Some(ResponseBody::Reusable(b)) => SlotView::Reusable(bytes_of(b)),
        }
    }
}

impl<S> BodySlot<S> {
    /// A slot that holds a body not yet read.
    pub fn new(stream: S) -> (r: BodySlot<S>)
        ensures
            r@ == SlotView::Streamable(stream),
    {
        BodySlot { body: Some(ResponseBody::Streamable(stream)) }
    }

    /// A slot that holds an already buffered body.
    pub fn buffered(bytes: Bytes) -> (r: BodySlot<S>)
        ensures
            r@ == SlotView::<S>::Reusable(bytes_of(bytes)),
    {
        BodySlot { body: Some(ResponseBody::Reusable(bytes)) }
    }

    /// Takes the contents of the slot for one access.
    ///
    /// An empty slot fails with [`Error::Memory`]. A stream is handed out and
    /// the slot left empty: as [`BodyAccess::Stream`] when `want_stream`, else
    /// as [`BodyAccess::Drain`]. A buffer is copied and put back.
    pub fn begin(&mut self, want_stream: bool) -> (r: Result<BodyAccess<S>, Error>)
        ensures
            final(self)@ == begin_next(old(self)@, want_stream),
            access_view(r) == begin_result(old(self)@, want_stream),
    {
        match self.body.take() {
            None => Err(Error::Memory),
            Some(ResponseBody::Streamable(s)) => {
                if want_stream {
                    Ok(BodyAccess::Stream(s))
                } else {
                    Ok(BodyAccess::Drain(s))
                }
            },
            Some(ResponseBody::Reusable(b)) => {
                let copy = b.clone();
                self.body = Some(ResponseBody::Reusable(b));
                Ok(BodyAccess::Buffered(copy))
            },
        }
    }

    /// Hands back the outcome of draining a stream that [`BodySlot::begin`]
    /// gave out as [`BodyAccess::Drain`].
    ///
    /// The drained bytes are stored as the reusable body and a copy is
    /// returned. A failed drain is returned as it is and leaves the slot as it
    /// was.
    pub fn finish_drain(&mut self, drained: Result<Bytes, Error>) -> (r: Result<Bytes, Error>)
        ensures
            final(self)@ == finish_next(old(self)@, bytes_result_view(drained)),
            bytes_result_view(r) == bytes_result_view(drained),
    {
        match drained {
            Ok(b) => {
                let copy = b.clone();
                self.body = Some(ResponseBody::Reusable(b));
                Ok(copy)
            },
            Err(e) => Err(e),
        }
    }

    /// Drops whatever the slot holds. Safe to call any number of times.
    pub fn close(&mut self)
        ensures
            final(self)@ == close_next(old(self)@),
    {
        self.body = None;
    }
}

proof fn lemma_reads_of_buffer<S>(d: Seq<u8>, n: nat)
    ensures
        buffered_reads(SlotView::<S>::Reusable(d), n) =~= Seq::new(
            n,
            |i: int| Ok::<AccessView<S>, Error>(AccessView::Buffered(d)),
        ),
        after_buffered_reads(SlotView::<S>::Reusable(d), n) == SlotView::<S>::Reusable(d),
    decreases n,
{
    if n > 0 {
        lemma_reads_of_buffer::<S>(d, (n - 1) as nat);
    }
}

/// A body that was buffered on its first access is drained once and then
/// served from the buffer: any number of later buffered accesses return the
/// same bytes, and none of them hands out the stream again.
pub proof fn law_buffered_body_is_reused<S>(stream: S, drained: Seq<u8>, n: nat)
    ensures
        ({
            let first = SlotView::Streamable(stream);
            let taken = begin_next(first, false);
            let stored = finish_next(taken, Ok(drained));
            &&& begin_result(first, false) == Ok::<AccessView<S>, Error>(AccessView::Drain(stream))
            &&& stored == SlotView::<S>::Reusable(drained)
            &&& forall|i: int|
                0 <= i < n ==> #[trigger] buffered_reads(stored, n)[i] == Ok::<
                    AccessView<S>,
                    Error,
                >(AccessView::Buffered(drained))
            &&& buffered_reads(stored, n).len() == n
            &&& after_buffered_reads(stored, n) == stored
        }),
{
    lemma_reads_of_buffer::<S>(drained, n);
}

/// After the one streaming access, every access fails with
/// [`Error::Memory`], streaming or buffered, and the slot stays empty.
pub proof fn law_stream_is_handed_out_once<S>(stream: S, want_stream: bool)
    ensures
        begin_result(SlotView::Streamable(stream), true) == Ok::<AccessView<S>, Error>(
            AccessView::Stream(stream),
        ),
        begin_next(SlotView::Streamable(stream), true) == SlotView::<S>::Empty,
        begin_result(SlotView::<S>::Empty, want_stream) == Err::<AccessView<S>, Error>(
            Error::Memory,
        ),
        begin_next(SlotView::<S>::Empty, want_stream) == SlotView::<S>::Empty,
{
}

/// After `close`, every access fails with [`Error::Memory`]; closing again
/// changes nothing.
pub proof fn law_close_ends_access<S>(s: SlotView<S>, want_stream: bool)
    ensures
        close_next(close_next(s)) == close_next(s),
        begin_result(close_next(s), want_stream) == Err::<AccessView<S>, Error>(Error::Memory),
        begin_next(close_next(s), want_stream) == close_next(s),
{
}

} // verus!
