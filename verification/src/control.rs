//! Control requests: a navigation request is carried out for whoever presents
//! the shared secret, and refused for anyone else.

use crate::config::{passes, ServerState};
use crate::registry::{reaches_each_once, Attempt, Registry};
use vstd::prelude::*;

verus! {

/// A request to send every viewer to slide `page`.
#[derive(Debug, PartialEq, Eq)]
pub struct GotoMessage {
    pub page: usize,
    pub password: String,
}

/// How a request was answered.
#[derive(Debug, Clone, Copy, PartialEq, Eq, Structural)]
pub enum Status {
    Success,
    Unauthorized,
    NotFound,
}

impl Status {
    /// The HTTP status code of the answer.
    pub fn code(&self) -> (code: u16)
        ensures
            code == match *self {
                Status::Success => 200u16,
                Status::Unauthorized => 401u16,
                Status::NotFound => 404u16,
            },
    {
        match self {
            Status::Success => 200,
            Status::Unauthorized => 401,
            Status::NotFound => 404,
        }
    }
}

/// Handles a navigation request: if its password is the shared secret, the
/// requested slide is broadcast to every registered connection and the answer
/// is `Success`; if not, the answer is `Unauthorized` and nothing is offered to any
/// channel. The requested index is broadcast as it came.
pub fn goto(body: &GotoMessage, state: &ServerState, registry: &Registry) -> (answer: (
    Status,
    Vec<Attempt>,
))
    ensures
        answer.0 == if passes(state.password@, body.password@) {
            Status::Success
        } else {
            Status::Unauthorized
        },
        answer.0 == Status::Success ==> reaches_each_once(answer.1@, registry@.dom()),
        answer.0 == Status::Unauthorized ==> answer.1@.len() == 0,
{
    if state.authorize(body.password.as_str()) {
        (Status::Success, registry.dispatch(body.page))
    } else {
        (Status::Unauthorized, Vec::new())
    }
}

} // verus!
