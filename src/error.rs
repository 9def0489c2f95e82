use vstd::prelude::*;

use crate::codec::CodecError;

verus! {

/// Why an advertising payload was refused.
#[derive(Debug, Clone, Copy, PartialEq, Eq, Structural)]
pub enum AdvertisementDataError {
    TooLong,
}

/// Errors surfaced by the host.
#[derive(Debug, Clone, Copy, PartialEq, Eq, Structural)]
pub enum Error {
    /// An HCI command parameter could not be encoded.
    HciEncode,
    /// An HCI event or return value could not be decoded.
    HciDecode,
    InsufficientSpace,
    InvalidValue,
    Advertisement(AdvertisementDataError),
    InvalidChannelId,
    NoChannelAvailable,
    NotFound,
    InvalidState,
    OutOfMemory,
    NotSupported,
    ChannelClosed,
    Timeout,
    Busy,
    NoPermits,
    Disconnected,
    Other,
}

/// An error of the controller transport, or of the host.
#[derive(Debug, Clone, Copy, PartialEq, Eq)]
pub enum AdapterError<E> {
    Controller(E),
    Adapter(Error),
}

pub open spec fn codec_error(e: CodecError) -> Error {
    match e {
        CodecError::InsufficientSpace => Error::InsufficientSpace,
        CodecError::InvalidValue => Error::InvalidValue,
    }
}

impl From<CodecError> for Error {
    fn from(error: CodecError) -> (r: Error) {
        match error {
            CodecError::InsufficientSpace => Error::InsufficientSpace,
            CodecError::InvalidValue => Error::InvalidValue,
        }
    }
}

impl vstd::std_specs::convert::FromSpecImpl<CodecError> for Error {
    open spec fn obeys_from_spec() -> bool {
        true
    }

    open spec fn from_spec(v: CodecError) -> Error {
        codec_error(v)
    }
}

impl<E> From<Error> for AdapterError<E> {
    fn from(value: Error) -> (r: AdapterError<E>) {
        AdapterError::Adapter(value)
    }
}

impl<E> vstd::std_specs::convert::FromSpecImpl<Error> for AdapterError<E> {
    open spec fn obeys_from_spec() -> bool {
        true
    }

    open spec fn from_spec(v: Error) -> AdapterError<E> {
        AdapterError::Adapter(v)
    }
}

impl<E> From<CodecError> for AdapterError<E> {
    fn from(error: CodecError) -> (r: AdapterError<E>) {
        match error {
            CodecError::InsufficientSpace => AdapterError::Adapter(Error::InsufficientSpace),
            CodecError::InvalidValue => AdapterError::Adapter(Error::InvalidValue),
        }
    }
}

impl<E> vstd::std_specs::convert::FromSpecImpl<CodecError> for AdapterError<E> {
    open spec fn obeys_from_spec() -> bool {
        true
    }

    open spec fn from_spec(v: CodecError) -> AdapterError<E> {
        AdapterError::Adapter(codec_error(v))
    }
}

} // verus!
