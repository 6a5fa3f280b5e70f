//! The body of a request or a response.

use vstd::prelude::*;
use vstd::string::StrSliceExecFns;
use vstd::string::StringSliceAdditionalSpecFns;

verus! {

/// Why the bytes of a body cannot be had.
#[derive(Debug, Clone, Copy, PartialEq, Eq, Structural)]
pub enum InvalidBodyError {
    /// The body is a stream.
    Stream,
}

impl InvalidBodyError {
    /// The text that describes the error.
    pub open spec fn description(self) -> Seq<char> {
        "body is a stream"@
    }

    /// The text that describes the error.
    pub fn message(&self) -> (text: String)
        ensures
            text@ == self.description(),
    {
        "body is a stream".to_owned()
    }
}

/// The bytes of `chunks`, one chunk after the other.
pub open spec fn concat_chunks(chunks: Seq<Vec<u8>>) -> Seq<u8>
    decreases chunks.len(),
{
    if chunks.len() == 0 {
        Seq::empty()
    } else {
        concat_chunks(chunks.drop_last()) + chunks.last()@
    }
}

/// What a body holds: bytes that are all there, or a stream `S` that yields
/// them later. The stream is carried, never read.
#[derive(Debug)]
pub enum BodyInner<S> {
    /// The body bytes.
    Bytes(Vec<u8>),
    /// The body stream.
    Stream(S),
}

/// The body of a request or a response.
#[derive(Debug)]
pub struct Body<S>(pub BodyInner<S>);

impl<S> Body<S> {
    /// Whether the body is a stream.
    pub open spec fn spec_is_stream(self) -> bool {
        self.0 is Stream
    }

    /// The bytes of a body that is no stream; of a stream, the empty sequence.
    pub open spec fn bytes(self) -> Seq<u8> {
        match self.0 {
            BodyInner::Bytes(b) => b@,
            BodyInner::Stream(_) => Seq::empty(),
        }
    }

    /// An empty body.
    pub fn empty() -> (b: Body<S>)
        ensures
            !b.spec_is_stream(),
            b.bytes() == Seq::<u8>::empty(),
    {
        Body(BodyInner::Bytes(Vec::new()))
    }

    /// A body made of the given bytes.
    pub fn from_bytes(bytes: Vec<u8>) -> (b: Body<S>)
        ensures
            b.0 == BodyInner::<S>::Bytes(bytes),
    {
        Body(BodyInner::Bytes(bytes))
    }

    /// A body made of the UTF-8 encoding of `text`.
    pub fn from_text(text: &str) -> (b: Body<S>)
        ensures
            !b.spec_is_stream(),
            b.bytes() == text.spec_bytes(),
    {
        Body(BodyInner::Bytes(text.as_bytes_vec()))
    }

    /// A body that is the given stream.
    pub fn from_stream(stream: S) -> (b: Body<S>)
        ensures
            b.0 == BodyInner::<S>::Stream(stream),
    {
        Body(BodyInner::Stream(stream))
    }

    /// Returns `true` if the body is a stream.
    pub fn is_stream(&self) -> (r: bool)
        ensures
            r == self.spec_is_stream(),
    {
        match &self.0 {
            BodyInner::Bytes(_) => false,
            BodyInner::Stream(_) => true,
        }
    }

    /// Returns the inner body.
    pub fn into_inner(self) -> (inner: BodyInner<S>)
        ensures
            inner == self.0,
    {
        self.0
    }

    /// The bytes of the body; of a stream, the stream itself, for the caller
    /// to read to its end.
    pub fn into_bytes(self) -> (r: Result<Vec<u8>, S>)
        ensures
            match r {
                Ok(bytes) => self.0 == BodyInner::<S>::Bytes(bytes),
                Err(stream) => self.0 == BodyInner::<S>::Stream(stream),
            },
    {
        match self.0 {
            BodyInner::Bytes(bytes) => Ok(bytes),
            BodyInner::Stream(stream) => Err(stream),
        }
    }

    /// The bytes of a stream that has been read to its end: its chunks, one
    /// after the other.
    pub fn collect_chunks(chunks: &Vec<Vec<u8>>) -> (bytes: Vec<u8>)
        ensures
            bytes@ == concat_chunks(chunks@),
    {
        let mut bytes: Vec<u8> = Vec::new();
        let mut i: usize = 0;
        proof {
            assert(chunks@.take(0) =~= Seq::empty());
        }
        while i < chunks.len()
            invariant
                i <= chunks.len(),
                bytes@ == concat_chunks(chunks@.take(i as int)),
            decreases chunks.len() - i,
        {
            let chunk = &chunks[i];
            let ghost before = bytes@;
            let mut j: usize = 0;
            while j < chunk.len()
                invariant
                    j <= chunk.len(),
                    bytes@ == before + chunk@.take(j as int),
                decreases chunk.len() - j,
            {
                bytes.push(chunk[j]);
                j += 1;
                assert(bytes@ =~= before + chunk@.take(j as int));
            }
            proof {
                assert(chunk@.take(chunk@.len() as int) =~= chunk@);
                assert(chunks@.take(i as int + 1).drop_last() =~= chunks@.take(i as int));
                assert(chunks@.take(i as int + 1).last() == chunks@[i as int]);
            }
            i += 1;
        }
        proof {
            assert(chunks@.take(chunks@.len() as int) =~= chunks@);
        }
        bytes
    }

    /// The bytes of the body, unless it is a stream.
    pub fn try_as_bytes(&self) -> (r: Result<&Vec<u8>, InvalidBodyError>)
        ensures
            match r {
                Ok(bytes) => self.0 == BodyInner::<S>::Bytes(*bytes),
                Err(e) => self.spec_is_stream() && e == InvalidBodyError::Stream,
            },
    {
        match &self.0 {
            BodyInner::Bytes(bytes) => Ok(bytes),
            BodyInner::Stream(_) => Err(InvalidBodyError::Stream),
        }
    }
}

impl<S> From<Vec<u8>> for Body<S> {
    /// A body made of the given bytes.
    fn from(value: Vec<u8>) -> (b: Body<S>) {
        Body(BodyInner::Bytes(value))
    }
}

impl<S> vstd::std_specs::convert::FromSpecImpl<Vec<u8>> for Body<S> {
    open spec fn obeys_from_spec() -> bool {
        true
    }

    open spec fn from_spec(value: Vec<u8>) -> Body<S> {
        Body(BodyInner::Bytes(value))
    }
}

impl<S> Default for Body<S> {
    /// An empty body.
    fn default() -> (b: Body<S>)
        ensures
            !b.spec_is_stream(),
            b.bytes() == Seq::<u8>::empty(),
    {
        Body::empty()
    }
}

} // verus!
