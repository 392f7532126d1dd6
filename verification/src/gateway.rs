//! The boundary to the completion service: what comes back from a request,
//! as far as the console reads it.

use vstd::prelude::*;

verus! {

/// Why the completion service gave no reply.
#[derive(Clone, Copy, Debug, PartialEq, Eq, Structural)]
pub enum GatewayError {
    /// The request did not get through, or the service refused it.
    Transport,
    /// The service answered, but with no candidate reply.
    Malformed,
}

/// The answer of the completion service to one request: the text of each
/// candidate reply in the order given, `None` for a candidate without text.
#[derive(Debug, PartialEq, Eq)]
pub struct Completion {
    pub choices: Vec<Option<String>>,
}

impl View for Completion {
    type V = Seq<Option<Seq<char>>>;

    open spec fn view(&self) -> Seq<Option<Seq<char>>> {
        self.choices@.map_values(
            |choice: Option<String>|
                match choice {
                    Some(text) => Some(text@),
                    None => None,
                },
        )
    }
}

/// The reply that an answer with these candidates stands for: the text of
/// the first candidate, empty where it has none. An answer without any
/// candidate is malformed.
pub open spec fn reply_text(candidates: Seq<Option<Seq<char>>>) -> Result<Seq<char>, GatewayError> {
    if candidates.len() == 0 {
        Err(GatewayError::Malformed)
    } else {
        match candidates[0] {
            Some(text) => Ok(text),
            None => Ok(Seq::empty()),
        }
    }
}

/// The text in a gateway outcome, where it holds a reply.
pub open spec fn reply_of(outcome: Result<String, GatewayError>) -> Option<Seq<char>> {
    match outcome {
        Ok(text) => Some(text@),
        Err(_) => None,
    }
}

/// Takes the reply out of an answer of the completion service.
pub fn first_reply(completion: Completion) -> (reply: Result<String, GatewayError>)
    ensures
        reply is Ok <==> completion@.len() > 0,
        reply matches Ok(text) ==> reply_text(completion@) == Ok::<Seq<char>, GatewayError>(text@),
        reply matches Err(error) ==> reply_text(completion@) == Err::<Seq<char>, GatewayError>(
            error,
        ),
{
    let mut choices = completion.choices;
    if choices.len() == 0 {
        return Err(GatewayError::Malformed);
    }
    match choices.swap_remove(0) {
        Some(text) => Ok(text),
        None => Ok(String::new()),
    }
}

} // verus!
