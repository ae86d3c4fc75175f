//! The codec: how a message passes between the wire and a gRPC call, and how a
//! message that cannot be read is reported.
//!
//! The bytes are read and written by the protobuf library. The encoders and
//! decoders here take what it returned and say what the call gets.

use std::marker::PhantomData;
use vstd::prelude::*;

verus! {

/// The kind of a gRPC status that reports a failure.
#[derive(Debug, Clone, Copy, PartialEq, Eq, Structural)]
pub enum Code {
    Cancelled,
    Unknown,
    InvalidArgument,
    DeadlineExceeded,
    NotFound,
    AlreadyExists,
    PermissionDenied,
    ResourceExhausted,
    FailedPrecondition,
    Aborted,
    OutOfRange,
    Unimplemented,
    Internal,
    Unavailable,
    DataLoss,
    Unauthenticated,
}

/// A gRPC status: its kind, and a message for the reader.
#[derive(Debug, Clone, PartialEq, Eq)]
pub struct Status {
    pub code: Code,
    pub message: String,
}

impl Status {
    /// A status of the kind `code` with the message `message`.
    pub fn new(code: Code, message: String) -> (status: Status)
        ensures
            status.code == code,
            status.message == message,
    {
        Status { code, message }
    }

    /// The kind of the status.
    pub fn code(&self) -> (code: Code)
        ensures
            code == self.code,
    {
        self.code
    }

    /// The message of the status.
    pub fn message(&self) -> (message: &str)
        ensures
            message@ == self.message@,
    {
        self.message.as_str()
    }
}

/// The status for a message that could not be parsed, from what the parser
/// said of it. Parse errors are internal errors, as the gRPC status codes have
/// it.
pub fn from_decode_error(error: String) -> (status: Status)
    ensures
        status.code == Code::Internal,
        status.message == error,
{
    Status::new(Code::Internal, error)
}

/// What a decoder returns for a buffer of `remaining` bytes that the message
/// format read as `parsed`: no message where the buffer held no byte, else the
/// message, or the internal error that says why there is none.
pub open spec fn decoded<U>(remaining: nat, parsed: Result<U, String>) -> Result<
    Option<U>,
    Status,
> {
    if remaining == 0 {
        Ok(None)
    } else {
        match parsed {
            Ok(item) => Ok(Some(item)),
            Err(error) => Err(Status { code: Code::Internal, message: error }),
        }
    }
}

/// A codec that implements `application/grpc+proto` via the rust-protobuf v3
/// library, encoding `T` and decoding `U`.
#[derive(Debug, Default)]
pub struct ProtobufCodecV3<T, U> {
    _pd: PhantomData<(T, U)>,
}

impl<T, U> ProtobufCodecV3<T, U> {
    /// The encoder of the codec. The codec holds no state, and asking it for
    /// an encoder leaves it as it is.
    pub fn encoder(&mut self) -> (encoder: ProtobufEncoderV3<T>)
        ensures
            *final(self) == *old(self),
    {
        ProtobufEncoderV3 { _pd: PhantomData }
    }

    /// The decoder of the codec. The codec holds no state, and asking it for
    /// a decoder leaves it as it is.
    pub fn decoder(&mut self) -> (decoder: ProtobufDecoderV3<U>)
        ensures
            *final(self) == *old(self),
    {
        ProtobufDecoderV3 { _pd: PhantomData }
    }
}

/// An encoder that knows how to encode `T`.
#[derive(Debug, Default)]
pub struct ProtobufEncoderV3<T> {
    _pd: PhantomData<T>,
}

impl<T> ProtobufEncoderV3<T> {
    /// What encoding returns once the message has been written to the buffer.
    /// A message fails to be written only where the buffer has no room for it,
    /// and that is not an outcome of encoding: `written` is `Ok`.
    pub fn encode(&mut self, written: Result<(), String>) -> (encoded: Result<(), Status>)
        requires
            written is Ok,
        ensures
            encoded is Ok,
    {
        Ok(())
    }
}

/// A decoder that knows how to decode `U`.
#[derive(Debug, Default)]
pub struct ProtobufDecoderV3<U> {
    _pd: PhantomData<U>,
}

impl<U> ProtobufDecoderV3<U> {
    /// Get a new decoder.
    pub fn new() -> Self {
        Self { _pd: PhantomData }
    }

    /// What decoding returns for a buffer that held `remaining` bytes and that
    /// the message format read as `parsed`. A buffer without a byte holds no
    /// message, whatever was read from it: the stream has ended. Any other
    /// buffer gives its message, or an internal error with what the parser said.
    pub fn decode(&mut self, remaining: usize, parsed: Result<U, String>) -> (item: Result<
        Option<U>,
        Status,
    >)
        ensures
            item == decoded(remaining as nat, parsed),
            item matches Err(status) ==> status.code == Code::Internal,
    {
        if remaining == 0 {
            return Ok(None);
        }
        match parsed {
            Ok(item) => Ok(Some(item)),
            Err(error) => Err(from_decode_error(error)),
        }
    }
}

/// A codec that implements `application/grpc+proto` via the rust-protobuf v2
/// library, encoding `T` and decoding `U`.
#[derive(Debug, Default)]
pub struct ProtobufCodecV2<T, U> {
    _pd: PhantomData<(T, U)>,
}

impl<T, U> ProtobufCodecV2<T, U> {
    /// The encoder of the codec. The codec holds no state, and asking it for
    /// an encoder leaves it as it is.
    pub fn encoder(&mut self) -> (encoder: ProtobufEncoderV2<T>)
        ensures
            *final(self) == *old(self),
    {
        ProtobufEncoderV2 { _pd: PhantomData }
    }

    /// The decoder of the codec. The codec holds no state, and asking it for
    /// a decoder leaves it as it is.
    pub fn decoder(&mut self) -> (decoder: ProtobufDecoderV2<U>)
        ensures
            *final(self) == *old(self),
    {
        ProtobufDecoderV2 { _pd: PhantomData }
    }
}

/// An encoder that knows how to encode `T`.
#[derive(Debug, Default)]
pub struct ProtobufEncoderV2<T> {
    _pd: PhantomData<T>,
}

impl<T> ProtobufEncoderV2<T> {
    /// What encoding returns once the message has been written to the buffer.
    /// A message fails to be written only where the buffer has no room for it,
    /// and that is not an outcome of encoding: `written` is `Ok`.
    pub fn encode(&mut self, written: Result<(), String>) -> (encoded: Result<(), Status>)
        requires
            written is Ok,
        ensures
            encoded is Ok,
    {
        Ok(())
    }
}

/// A decoder that knows how to decode `U`.
#[derive(Debug, Default)]
pub struct ProtobufDecoderV2<U> {
    _pd: PhantomData<U>,
}

impl<U> ProtobufDecoderV2<U> {
    /// Get a new decoder.
    pub fn new() -> Self {
        Self { _pd: PhantomData }
    }

    /// What decoding returns for a buffer that held `remaining` bytes and that
    /// the message format read as `parsed`. A buffer without a byte holds no
    /// message, whatever was read from it: the stream has ended. Any other
    /// buffer gives its message, or an internal error with what the parser said.
    pub fn decode(&mut self, remaining: usize, parsed: Result<U, String>) -> (item: Result<
        Option<U>,
        Status,
    >)
        ensures
            item == decoded(remaining as nat, parsed),
            item matches Err(status) ==> status.code == Code::Internal,
    {
        if remaining == 0 {
            return Ok(None);
        }
        match parsed {
            Ok(item) => Ok(Some(item)),
            Err(error) => Err(from_decode_error(error)),
        }
    }
}

impl<T, U> Clone for ProtobufCodecV3<T, U> {
    fn clone(&self) -> Self {
        Self { _pd: PhantomData }
    }
}

impl<T> Clone for ProtobufEncoderV3<T> {
    fn clone(&self) -> Self {
        Self { _pd: PhantomData }
    }
}

impl<U> Clone for ProtobufDecoderV3<U> {
    fn clone(&self) -> Self {
        Self { _pd: PhantomData }
    }
}

impl<T, U> Clone for ProtobufCodecV2<T, U> {
    fn clone(&self) -> Self {
        Self { _pd: PhantomData }
    }
}

impl<T> Clone for ProtobufEncoderV2<T> {
    fn clone(&self) -> Self {
        Self { _pd: PhantomData }
    }
}

impl<U> Clone for ProtobufDecoderV2<U> {
    fn clone(&self) -> Self {
        Self { _pd: PhantomData }
    }
}

/// A codec holds no state: any two codecs for the same messages are the same
/// value, so one may be made wherever one is needed.
pub proof fn lemma_codec_v3_stateless<T, U>(a: ProtobufCodecV3<T, U>, b: ProtobufCodecV3<T, U>)
    ensures
        a == b,
{
}

/// An encoder holds no state: any two encoders of the same message are the
/// same value.
pub proof fn lemma_encoder_v3_stateless<T>(a: ProtobufEncoderV3<T>, b: ProtobufEncoderV3<T>)
    ensures
        a == b,
{
}

/// A decoder holds no state: any two decoders of the same message are the
/// same value.
pub proof fn lemma_decoder_v3_stateless<U>(a: ProtobufDecoderV3<U>, b: ProtobufDecoderV3<U>)
    ensures
        a == b,
{
}

/// A codec holds no state: any two codecs for the same messages are the same
/// value, so one may be made wherever one is needed.
pub proof fn lemma_codec_v2_stateless<T, U>(a: ProtobufCodecV2<T, U>, b: ProtobufCodecV2<T, U>)
    ensures
        a == b,
{
}

/// An encoder holds no state: any two encoders of the same message are the
/// same value.
pub proof fn lemma_encoder_v2_stateless<T>(a: ProtobufEncoderV2<T>, b: ProtobufEncoderV2<T>)
    ensures
        a == b,
{
}

/// A decoder holds no state: any two decoders of the same message are the
/// same value.
pub proof fn lemma_decoder_v2_stateless<U>(a: ProtobufDecoderV2<U>, b: ProtobufDecoderV2<U>)
    ensures
        a == b,
{
}

/// The codec takes nothing from a message and adds nothing to it: where the
/// message format reads `bytes`, of which there is one at least, as a message
/// that it writes as `bytes` again, decoding gives that message, and so
/// encoding what was decoded gives `bytes`.
pub proof fn lemma_round_trip_kept<U>(
    bytes: Seq<u8>,
    parse: spec_fn(Seq<u8>) -> Result<U, String>,
    write: spec_fn(U) -> Seq<u8>,
)
    requires
        bytes.len() > 0,
        parse(bytes) is Ok,
        write(parse(bytes)->Ok_0) == bytes,
    ensures
        decoded(bytes.len(), parse(bytes)) matches Ok(Some(item)) && write(item) == bytes,
{
}

} // verus!
