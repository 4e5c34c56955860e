//! A stream of connections turned into a stream of codec streams.
use std::marker::PhantomData;
use vstd::prelude::*;

use crate::codec::builder::CodecBuilder;

verus! {

/// Wraps a stream `S` of connections (`Ok(I)`) and errors (`Err(E)`), and
/// builds a codec stream with `B` for every connection that it yields.
#[verifier::reject_recursive_types(I)]
#[verifier::reject_recursive_types(E)]
pub struct CodecTransport<B, I, E, S> {
    codec_builder: B,
    inner: S,
    _phantom: PhantomData<(I, E)>,
}

impl<B, I, E, S> CodecTransport<B, I, E, S> where B: CodecBuilder<Io = I> {
    /// The builder of the codec streams.
    pub closed spec fn builder(&self) -> B {
        self.codec_builder
    }

    /// The stream of connections.
    pub closed spec fn source(&self) -> S {
        self.inner
    }

    pub fn new(inner: S, codec_builder: B) -> (res: Self)
        ensures
            res.builder() == codec_builder,
            res.source() == inner,
    {
        Self { inner, codec_builder, _phantom: PhantomData }
    }

    /// The stream of connections, for polling.
    pub fn inner_mut(&mut self) -> (res: &mut S)
        ensures
            *res == old(self).source(),
            final(self).source() == *final(res),
            final(self).builder() == old(self).builder(),
    {
        &mut self.inner
    }

    /// What the stream yields for what the connection stream yielded: the
    /// end of the stream and errors pass through, and a connection becomes
    /// the codec stream that the builder builds for it.
    pub fn next_item(&self, polled: Option<Result<I, E>>) -> (res: Option<Result<B::Output, E>>)
        requires
            polled matches Some(Ok(io)) ==> self.builder().accepts(io),
        ensures
            match polled {
                None => res is None,
                Some(Err(e)) => res == Some(Err::<B::Output, E>(e)),
                Some(Ok(io)) => match res {
                    Some(Ok(codec)) => self.builder().builds(io, codec),
                    _ => false,
                },
            },
    {
        match polled {
            Some(Ok(stream)) => Some(Ok(self.codec_builder.build_codec(stream))),
            Some(Err(e)) => Some(Err(e)),
            None => None,
        }
    }
}

} // verus!
