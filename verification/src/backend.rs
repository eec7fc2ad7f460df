//! The data passed across the completion-backend boundary. The transport
//! itself (HTTP, JSON) is an external collaborator; the library only defines
//! the request payload built from a context snapshot and the reading of the
//! response's candidate list.

use vstd::prelude::*;
use crate::context::{AiRole, ContextContent, Turn, role_name};

verus! {

/// Why a backend call failed: the transport or protocol broke, or the
/// response arrived but made no sense. The session controller treats both
/// uniformly as non-fatal.
#[derive(Debug)]
pub enum BackendError {
    Transport(String),
    MalformedResponse(String),
}

/// The mathematical value of a `BackendError`: its kind and the characters
/// of its diagnostic text.
pub enum BackendErrorView {
    Transport(Seq<char>),
    MalformedResponse(Seq<char>),
}

impl View for BackendError {
    type V = BackendErrorView;

    open spec fn view(&self) -> BackendErrorView {
        match self {
            BackendError::Transport(msg) => BackendErrorView::Transport(msg@),
            BackendError::MalformedResponse(msg) => BackendErrorView::MalformedResponse(msg@),
        }
    }
}

impl BackendError {
    /// The diagnostic text carried by the error.
    pub fn message(&self) -> (r: &String)
        ensures
            self@ is Transport ==> r@ == self@->Transport_0,
            self@ is MalformedResponse ==> r@ == self@->MalformedResponse_0,
    {
        match self {
            BackendError::Transport(msg) => msg,
            BackendError::MalformedResponse(msg) => msg,
        }
    }
}

/// The fixed model identifier sent with every request.
pub fn model_identifier() -> (r: String)
    ensures
        r@ == "gpt-3.5-turbo"@,
{
    String::from_str("gpt-3.5-turbo")
}

/// The request payload for the completion backend: every turn of the
/// snapshot, in order, as a (wire role name, content) pair.
pub fn request_pairs(snapshot: &ContextContent) -> (r: Vec<(String, String)>)
    ensures
        r@.len() == snapshot@.len(),
        forall|i: int|
            0 <= i < r@.len() ==> (#[trigger] r@[i]).0@ == role_name(snapshot@[i].role)
                && r@[i].1@ == snapshot@[i].content,
{
    let mut r: Vec<(String, String)> = Vec::new();
    let n = snapshot.len();
    let mut i: usize = 0;
    while i < n
        invariant
            n == snapshot@.len(),
            i <= n,
            r@.len() == i,
            forall|j: int|
                0 <= j < i ==> (#[trigger] r@[j]).0@ == role_name(snapshot@[j].role)
                    && r@[j].1@ == snapshot@[j].content,
        decreases n - i,
    {
        let turn = snapshot.turn_at(i);
        r.push((AiRole::get_string(&turn.role), turn.content.clone()));
        i += 1;
    }
    r
}

/// The response is an ordered list of candidate replies; the core consumes
/// only the first candidate. An empty candidate list is a malformed
/// response.
pub fn extract_reply(choices: &Vec<Turn>) -> (r: Result<Turn, BackendError>)
    ensures
        0 < choices@.len() ==> (r matches Ok(t) && t@ == choices@[0]@),
        choices@.len() == 0 ==> (r matches Err(e) && e@ == BackendErrorView::MalformedResponse(
            "response contained no candidates"@,
        )),
{
    if choices.len() == 0 {
        Err(BackendError::MalformedResponse(String::from_str("response contained no candidates")))
    } else {
        Ok(choices[0].duplicate())
    }
}

} // verus!
