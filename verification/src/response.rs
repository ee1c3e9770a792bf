//! Extracting the assessment text from the evaluation service's reply.
//!
//! The surrounding binary sends the request and deserializes the reply's
//! JSON into [`ApiResponse`]; picking the assessment out of it — and saying
//! exactly which malformed shapes are rejected — is decided here.

use vstd::prelude::*;

verus! {

/// The assessment text of one reply choice.
pub struct Content {
    /// The assessment text itself.
    pub content: String,
}

/// One choice of the reply, whose message may be missing.
pub struct Choice {
    /// The choice's message, if the service supplied one.
    pub message: Option<Content>,
}

/// The evaluation service's reply: a list of choices that may be missing
/// altogether.
pub struct ApiResponse {
    /// The reply's choices, if the service supplied any.
    pub choices: Option<Vec<Choice>>,
}

/// The ways a reply can fail to carry an assessment.
#[derive(Clone, Copy, Debug, PartialEq, Eq, Structural)]
pub enum ApiResponseError {
    /// The reply has no choices list at all.
    MissingChoices,
    /// The choices list is empty.
    EmptyChoices,
    /// The first choice has no message content.
    MissingContent,
}

impl ApiResponseError {
    /// The diagnostic text reported for this failure.
    pub fn message(&self) -> (s: String)
        ensures
            *self is MissingChoices ==> s@ == "Missing choices in API response"@,
            *self is EmptyChoices ==> s@ == "Empty choices array in API response"@,
            *self is MissingContent ==> s@ == "Missing message content in API response"@,
    {
        match self {
            ApiResponseError::MissingChoices => "Missing choices in API response".to_owned(),
            ApiResponseError::EmptyChoices => "Empty choices array in API response".to_owned(),
            ApiResponseError::MissingContent => "Missing message content in API response".to_owned(),
        }
    }
}

/// Pick the assessment out of a reply: the first choice's message content.
/// Succeeds exactly when the choices list is present and non-empty and its
/// first choice carries a message; each malformed shape yields its own
/// error.
pub fn extract_ai_response(resp: &ApiResponse) -> (r: Result<String, ApiResponseError>)
    ensures
        r is Ok <==> (resp.choices is Some && resp.choices->0@.len() > 0
            && resp.choices->0@[0].message is Some),
        r is Ok ==> r->Ok_0@ == resp.choices->0@[0].message->0.content@,
        r is Err ==> r->Err_0 == (if resp.choices is None {
            ApiResponseError::MissingChoices
        } else if resp.choices->0@.len() == 0 {
            ApiResponseError::EmptyChoices
        } else {
            ApiResponseError::MissingContent
        }),
{
    match &resp.choices {
        Some(choices) => {
            if choices.len() == 0 {
                Err(ApiResponseError::EmptyChoices)
            } else {
                match &choices[0].message {
                    Some(message) => Ok(message.content.clone()),
                    None => Err(ApiResponseError::MissingContent),
                }
            }
        },
        None => Err(ApiResponseError::MissingChoices),
    }
}

} // verus!
