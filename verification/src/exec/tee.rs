//! The stream tee: every chunk of a byte stream goes to a capture buffer and,
//! unless muted, to a live sink as well.
//!
//! The capture buffer is kept here.  The live sink belongs to the caller:
//! [`Tee::feed`] hands back what is to be written to it for each chunk, and
//! the tee keeps a ghost record of everything it has handed back, so that the
//! two destinations can be compared.

use vstd::prelude::*;

verus! {

/// A running tee.
pub struct Tee {
    mute: bool,
    captured: Vec<u8>,
    echoed: Ghost<Seq<u8>>,
}

/// The mathematical content of a [`Tee`].
pub struct TeeView {
    /// Whether the live sink is suppressed.
    pub mute: bool,
    /// What the capture buffer holds.
    pub captured: Seq<u8>,
    /// What has been handed out for the live sink.
    pub echoed: Seq<u8>,
}

/// A tee that has seen nothing yet.
pub open spec fn tee_start(mute: bool) -> TeeView {
    TeeView { mute, captured: Seq::empty(), echoed: Seq::empty() }
}

/// What goes to the live sink for one chunk.
pub open spec fn tee_echo(mute: bool, chunk: Seq<u8>) -> Seq<u8> {
    if mute {
        Seq::empty()
    } else {
        chunk
    }
}

/// The tee after one more chunk.
pub open spec fn tee_feed(t: TeeView, chunk: Seq<u8>) -> TeeView {
    TeeView {
        mute: t.mute,
        captured: t.captured + chunk,
        echoed: t.echoed + tee_echo(t.mute, chunk),
    }
}

/// The tee after a whole stream of chunks, fed in order.
pub open spec fn tee_feed_all(t: TeeView, chunks: Seq<Seq<u8>>) -> TeeView
    decreases chunks.len(),
{
    if chunks.len() == 0 {
        t
    } else {
        tee_feed(tee_feed_all(t, chunks.drop_last()), chunks.last())
    }
}

/// The bytes of a stream of chunks, one chunk after the other.
pub open spec fn stream_bytes(chunks: Seq<Seq<u8>>) -> Seq<u8>
    decreases chunks.len(),
{
    if chunks.len() == 0 {
        Seq::empty()
    } else {
        stream_bytes(chunks.drop_last()) + chunks.last()
    }
}

/// The two destinations agree: a muted tee has echoed nothing, any other has
/// echoed exactly what it captured.
pub open spec fn tee_in_step(t: TeeView) -> bool {
    t.echoed == tee_echo(t.mute, t.captured)
}

impl View for Tee {
    type V = TeeView;

    closed spec fn view(&self) -> TeeView {
        TeeView { mute: self.mute, captured: self.captured@, echoed: self.echoed@ }
    }
}

impl Tee {
    /// The two destinations of a tee agree at all times.
    #[verifier::type_invariant]
    spec fn in_step(self) -> bool {
        self.echoed@ == tee_echo(self.mute, self.captured@)
    }

    /// A tee that has seen nothing yet.
    pub fn new(mute: bool) -> (tee: Tee)
        ensures
            tee@ == tee_start(mute),
    {
        Tee { mute, captured: Vec::new(), echoed: Ghost(Seq::empty()) }
    }

    /// Whether the live sink is suppressed.  As of every tee, what has been
    /// echoed agrees with what has been captured.
    pub fn is_mute(&self) -> (mute: bool)
        ensures
            mute == self@.mute,
            tee_in_step(self@),
    {
        proof {
            use_type_invariant(self);
        }
        self.mute
    }

    /// Takes the next chunk of the stream: it is appended to the capture
    /// buffer, and handed back for the live sink unless the tee is muted.
    pub fn feed<'a>(&mut self, chunk: &'a [u8]) -> (live: Option<&'a [u8]>)
        ensures
            final(self)@ == tee_feed(old(self)@, chunk@),
            match live {
                Some(bytes) => !old(self)@.mute && bytes@ == chunk@,
                None => old(self)@.mute,
            },
    {
        let mut seen = Tee::new(self.mute);
        core::mem::swap(self, &mut seen);
        proof {
            use_type_invariant(&seen);
        }
        let Tee { mute, mut captured, echoed } = seen;
        let ghost before = captured@;
        captured.extend_from_slice(chunk);
        assert(captured@ =~= before + chunk@);
        if mute {
            assert(echoed@ + Seq::<u8>::empty() =~= echoed@);
            *self = Tee { mute, captured, echoed };
            None
        } else {
            *self = Tee { mute, captured, echoed: Ghost(echoed@ + chunk@) };
            Some(chunk)
        }
    }

    /// Ends the stream and gives up the capture buffer.
    pub fn finish(self) -> (captured: Vec<u8>)
        ensures
            captured@ == self@.captured,
    {
        self.captured
    }

    /// Takes the capture buffer out and starts afresh, as if nothing had
    /// been seen.
    pub fn take(&mut self) -> (captured: Vec<u8>)
        ensures
            captured@ == old(self)@.captured,
            final(self)@ == tee_start(old(self)@.mute),
    {
        let mut seen = Tee::new(self.mute);
        core::mem::swap(self, &mut seen);
        seen.captured
    }
}

/// Feeding keeps the two destinations in agreement.
pub proof fn lemma_feed_keeps_step(t: TeeView, chunk: Seq<u8>)
    requires
        tee_in_step(t),
    ensures
        tee_in_step(tee_feed(t, chunk)),
{
    assert(Seq::<u8>::empty() + Seq::<u8>::empty() =~= Seq::<u8>::empty());
}

/// After any stream of chunks the capture buffer holds every byte of the
/// stream, in order.  A tee that is not muted has echoed the very same
/// bytes; a muted tee has echoed nothing.
pub proof fn lemma_tee_copies_stream(mute: bool, chunks: Seq<Seq<u8>>)
    ensures
        tee_feed_all(tee_start(mute), chunks).mute == mute,
        tee_feed_all(tee_start(mute), chunks).captured == stream_bytes(chunks),
        !mute ==> tee_feed_all(tee_start(mute), chunks).echoed == stream_bytes(chunks),
        mute ==> tee_feed_all(tee_start(mute), chunks).echoed == Seq::<u8>::empty(),
    decreases chunks.len(),
{
    if chunks.len() == 0 {
    } else {
        lemma_tee_copies_stream(mute, chunks.drop_last());
        let before = tee_feed_all(tee_start(mute), chunks.drop_last());
        assert(before.echoed + Seq::<u8>::empty() =~= before.echoed);
    }
}

} // verus!
