//! Response envelopes, and how each shape is unwrapped into its payload.

use vstd::prelude::*;

verus! {

/// The envelope that the service puts around most of its answers: a message
/// for people and the payload, either of which may be absent.
///
/// What counts is whether a field is there, not whether it is empty.
#[derive(Debug, Clone, PartialEq, Eq, Hash)]
pub struct Response<T> {
    /// What the service has to say about the answer, if anything.
    pub message: Option<String>,
    /// The payload. It is absent where the service answered with an error.
    pub data: Option<T>,
}

/// An envelope was read, and there was no payload in it.
///
/// The service's message is kept as it came, so that the caller can show it,
/// try again, or give up.
#[derive(Debug, Clone, PartialEq, Eq, Hash)]
pub struct MissingPayload {
    /// The message that stood in the envelope, if there was one.
    pub message: Option<String>,
}

/// An envelope shape that unwraps into an `UnwrappedType`.
///
/// There is one impl per shape, so a new shape is a new impl and leaves the
/// others as they are.
pub trait CvrApiUnwrapping<UnwrappedType>: Sized {
    /// What the envelope unwraps into.
    spec fn spec_unwrap_data(self) -> Result<UnwrappedType, MissingPayload>;

    /// Unwraps the data into a more meaningful value.
    fn unwrap_data(self) -> (unwrapped: Result<UnwrappedType, MissingPayload>)
        ensures
            unwrapped == self.spec_unwrap_data(),
    ;
}

/// A value with nothing around it is its own payload.
impl<T> CvrApiUnwrapping<T> for T {
    open spec fn spec_unwrap_data(self) -> Result<T, MissingPayload> {
        Ok(self)
    }

    fn unwrap_data(self) -> (unwrapped: Result<T, MissingPayload>) {
        Ok(self)
    }
}

/// The payload is taken out where it is there, whatever the message. Where it
/// is not, that is an error, which takes the message along.
impl<T> CvrApiUnwrapping<T> for Response<T> {
    open spec fn spec_unwrap_data(self) -> Result<T, MissingPayload> {
        match self.data {
            Some(data) => Ok(data),
            None => Err(MissingPayload { message: self.message }),
        }
    }

    fn unwrap_data(self) -> (unwrapped: Result<T, MissingPayload>) {
        match self.data {
            Some(data) => Ok(data),
            None => Err(MissingPayload { message: self.message }),
        }
    }
}

/// Unwrapping a value with nothing around it gives that value back, always.
pub proof fn bare_value_unwraps_to_itself<T>(value: T)
    ensures
        CvrApiUnwrapping::<T>::spec_unwrap_data(value) == Ok::<T, MissingPayload>(value),
{
}

/// An envelope with a payload unwraps into that payload, with a message
/// beside it or without.
pub proof fn payload_unwraps_whatever_the_message<T>(message: Option<String>, data: T)
    ensures
        CvrApiUnwrapping::<T>::spec_unwrap_data(Response { message, data: Some(data) }) == Ok::<
            T,
            MissingPayload,
        >(data),
{
}

/// An envelope without a payload does not unwrap, with a message in it or
/// without, and the error holds what the message field held.
pub proof fn absent_payload_fails_whatever_the_message<T>(message: Option<String>)
    ensures
        CvrApiUnwrapping::<T>::spec_unwrap_data(Response::<T> { message, data: None }) == Err::<
            T,
            MissingPayload,
        >(MissingPayload { message }),
{
}

/// An envelope unwraps exactly where its payload is there.
pub proof fn unwraps_iff_payload_present<T>(envelope: Response<T>)
    ensures
        CvrApiUnwrapping::<T>::spec_unwrap_data(envelope) is Ok <==> envelope.data is Some,
{
}

} // verus!
