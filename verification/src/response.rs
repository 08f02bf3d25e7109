//! What a handler answers: a status and a body, as success or as failure.

use vstd::prelude::*;

verus! {

/// The statuses a handler answers with.
#[derive(Clone, Copy, Debug, PartialEq, Eq, Structural)]
pub enum StatusCode {
    /// The hash was derived and encoded.
    Success,
    /// The caller's input was rejected before any derivation began.
    UnprocessableEntity,
    /// The input was accepted and the derivation or its encoding failed.
    InternalServerError,
}

impl StatusCode {
    /// The number that stands for this status on the wire.
    pub open spec fn code(self) -> int {
        match self {
            StatusCode::Success => 200,
            StatusCode::UnprocessableEntity => 422,
            StatusCode::InternalServerError => 500,
        }
    }

    /// The status as the number that goes out on the wire.
    pub fn as_u16(&self) -> (code: u16)
        ensures
            code == self.code(),
    {
        match self {
            StatusCode::Success => 200,
            StatusCode::UnprocessableEntity => 422,
            StatusCode::InternalServerError => 500,
        }
    }
}

/// A handler's answer: status and encoded hash, or status and message.
pub type Response = Result<(StatusCode, String), (StatusCode, String)>;

/// A `Response` with its texts as sequences of characters.
pub type ResponseView = Result<(StatusCode, Seq<char>), (StatusCode, Seq<char>)>;

/// The mathematical view of an answer.
pub open spec fn response_view(response: Response) -> ResponseView {
    match response {
        Ok((status, body)) => Ok((status, body@)),
        Err((status, message)) => Err((status, message@)),
    }
}

/// What a derivation returned, with its texts as sequences of characters.
pub open spec fn texts(derived: Result<String, String>) -> Result<Seq<char>, Seq<char>> {
    match derived {
        Ok(encoded) => Ok(encoded@),
        Err(message) => Err(message@),
    }
}

/// The answer to a request whose input was rejected.
pub open spec fn rejected(message: Seq<char>) -> ResponseView {
    Err((StatusCode::UnprocessableEntity, message))
}

/// The answer to an accepted request, given what the derivation returned:
/// its encoded hash as a success, its error as a server-side failure.
pub open spec fn answered(derived: Result<Seq<char>, Seq<char>>) -> ResponseView {
    match derived {
        Ok(encoded) => Ok((StatusCode::Success, encoded)),
        Err(message) => Err((StatusCode::InternalServerError, message)),
    }
}

/// Answers a request whose input is invalid.
pub fn validation_error(message: String) -> (response: Response)
    ensures
        response_view(response) == rejected(message@),
{
    Err((StatusCode::UnprocessableEntity, message))
}

/// Answers an accepted request with what its derivation returned.
pub fn respond(derived: Result<String, String>) -> (response: Response)
    ensures
        response_view(response) == answered(texts(derived)),
{
    match derived {
        Ok(encoded) => Ok((StatusCode::Success, encoded)),
        Err(message) => Err((StatusCode::InternalServerError, message)),
    }
}

} // verus!
