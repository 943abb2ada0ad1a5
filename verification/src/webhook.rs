//! The decisions on an inbound webhook delivery: which events are handled,
//! which run they name, and how a refusal is answered.

use vstd::prelude::*;
use vstd::string::*;
use crate::github::{Config, ConfigView};
use crate::text::{chars_of, same_text, string_of};

verus! {

/// Why a delivery was not turned into a projection.
#[derive(Clone, Debug)]
pub enum ErrorWrapper {
    /// The projection failed; the text says why.
    Failure(String),
    /// The delivery does not say what kind of event it is.
    MissingHeader,
    /// The event is of a kind that is not handled.
    IgnoredType(String),
    /// The event is a workflow run, but not its completion.
    IgnoredAction(String),
    /// The payload does not have the expected shape; the text says why.
    JsonFailure(String),
}

impl ErrorWrapper {
    /// The HTTP status that answers a refusal.
    pub open spec fn status_spec(self) -> u16 {
        match self {
            ErrorWrapper::Failure(_) => 500,
            ErrorWrapper::MissingHeader => 400,
            ErrorWrapper::IgnoredType(_) => 203,
            ErrorWrapper::IgnoredAction(_) => 203,
            ErrorWrapper::JsonFailure(_) => 422,
        }
    }

    /// The text that answers a refusal.
    pub open spec fn body_spec(self) -> Seq<char> {
        match self {
            ErrorWrapper::Failure(detail) => detail@,
            ErrorWrapper::MissingHeader => "Missing X-GitHub-Event header"@,
            ErrorWrapper::IgnoredType(what) => "Ignoring '"@ + what@ + "' event"@,
            ErrorWrapper::IgnoredAction(what) => "Ignoring '"@ + what@ + "' action"@,
            ErrorWrapper::JsonFailure(detail) => detail@,
        }
    }

    /// The HTTP status that answers the refusal: 500 for a failed
    /// projection, 400 for a missing header, 422 for a payload of the wrong
    /// shape, and 203 for what is ignored on purpose, so that the sender
    /// does not deliver it again.
    pub fn status_code(&self) -> (out: u16)
        ensures
            out == self.status_spec(),
    {
        match self {
            ErrorWrapper::Failure(_) => 500,
            ErrorWrapper::MissingHeader => 400,
            ErrorWrapper::IgnoredType(_) => 203,
            ErrorWrapper::IgnoredAction(_) => 203,
            ErrorWrapper::JsonFailure(_) => 422,
        }
    }

    /// The text that answers the refusal. An ignored kind of event and an
    /// ignored action are answered in different words.
    pub fn body(&self) -> (out: String)
        ensures
            out@ == self.body_spec(),
    {
        match self {
            ErrorWrapper::Failure(detail) => detail.clone(),
            ErrorWrapper::MissingHeader => String::from_str("Missing X-GitHub-Event header"),
            ErrorWrapper::IgnoredType(what) => {
                let mut out = String::from_str("Ignoring '");
                out.append(what.as_str());
                out.append("' event");
                out
            },
            ErrorWrapper::IgnoredAction(what) => {
                let mut out = String::from_str("Ignoring '");
                out.append(what.as_str());
                out.append("' action");
                out
            },
            ErrorWrapper::JsonFailure(detail) => detail.clone(),
        }
    }
}

/// Checks the kind of event that a delivery names in its `X-GitHub-Event`
/// header: only `workflow_run` is handled. A delivery without the header is
/// refused as such, one of another kind is ignored under its name.
pub fn check_event_type(header: Option<&str>) -> (out: Result<(), ErrorWrapper>)
    ensures
        header is None ==> out is Err && out->Err_0 is MissingHeader,
        header is Some && header.unwrap()@ == "workflow_run"@ ==> out is Ok,
        header is Some && header.unwrap()@ != "workflow_run"@ ==> out is Err
            && out->Err_0 is IgnoredType && out->Err_0->IgnoredType_0@ == header.unwrap()@,
{
    match header {
        None => Err(ErrorWrapper::MissingHeader),
        Some(event) => {
            if same_text(event, "workflow_run") {
                Ok(())
            } else {
                Err(ErrorWrapper::IgnoredType(String::from_str(event)))
            }
        },
    }
}

/// Where the last segment of a path starts: after its last slash, or at its
/// beginning where it has none.
pub open spec fn segment_start(path: Seq<char>) -> int
    decreases path.len(),
{
    if path.len() == 0 {
        0
    } else if path.last() == '/' {
        path.len() as int
    } else {
        segment_start(path.drop_last())
    }
}

/// The last segment of a path: what follows its last slash, or the whole
/// path where it has none.
pub open spec fn last_segment(path: Seq<char>) -> Seq<char> {
    path.skip(segment_start(path))
}

/// The last segment starts within the path, directly after a slash unless at
/// the beginning, and holds no slash.
pub proof fn lemma_segment_start(path: Seq<char>)
    ensures
        0 <= segment_start(path) <= path.len(),
        segment_start(path) > 0 ==> path[segment_start(path) - 1] == '/',
        forall|k: int| segment_start(path) <= k < path.len() ==> path[k] != '/',
    decreases path.len(),
{
    if path.len() > 0 && path.last() != '/' {
        let front = path.drop_last();
        lemma_segment_start(front);
        assert forall|k: int| segment_start(path) <= k < path.len() implies path[k] != '/' by {
            if k < front.len() {
                assert(path[k] == front[k]);
            }
        }
    }
}

/// The file name of a workflow: the last segment of the path of its
/// definition.
pub fn workflow_filename(path: &str) -> (out: String)
    ensures
        out@ == last_segment(path@),
{
    let chars = chars_of(path);
    let mut start: usize = chars.len();
    assert(chars@.take(start as int) == chars@);
    while start > 0 && chars[start - 1] != '/'
        invariant
            start <= chars.len(),
            chars@ == path@,
            segment_start(chars@) == segment_start(chars@.take(start as int)),
        decreases start,
    {
        assert(chars@.take(start as int).drop_last() == chars@.take(start - 1));
        start = start - 1;
    }
    let out = string_of(&chars, start, chars.len());
    out
}

/// Whether a payload is handled: whether its action is `completed`.
pub open spec fn is_completion(action: Seq<char>) -> bool {
    action == "completed"@
}

/// Decides on the payload of a `workflow_run` event. Only the action
/// `completed` is handled; any other is ignored under its name. For a
/// completion, returns the configuration under which the run is projected:
/// the organization as owner, the repository, the file name of the
/// workflow's definition, and never development mode.
pub fn accept_payload(action: &str, organization: &str, repository: &str, path: &str) -> (out:
    Result<Config, ErrorWrapper>)
    ensures
        is_completion(action@) ==> out is Ok && out->Ok_0@ == (ConfigView {
            owner: organization@,
            repository: repository@,
            workflow: last_segment(path@),
            devel: false,
        }),
        !is_completion(action@) ==> out is Err && out->Err_0 is IgnoredAction
            && out->Err_0->IgnoredAction_0@ == action@,
{
    if !same_text(action, "completed") {
        return Err(ErrorWrapper::IgnoredAction(String::from_str(action)));
    }
    Ok(
        Config {
            owner: String::from_str(organization),
            repository: String::from_str(repository),
            workflow: workflow_filename(path),
            devel: false,
        },
    )
}

/// What a handled delivery is answered with once the projection has ended:
/// success, or the failure of the projection under its description.
pub fn conclude(outcome: Result<String, String>) -> (out: Result<(), ErrorWrapper>)
    ensures
        outcome is Ok ==> out is Ok,
        outcome is Err ==> out is Err && out->Err_0 is Failure && out->Err_0->Failure_0@
            == outcome->Err_0@,
{
    match outcome {
        Ok(_) => Ok(()),
        Err(detail) => Err(ErrorWrapper::Failure(detail)),
    }
}

} // verus!
