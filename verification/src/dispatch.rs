//! Sorting a reply into the command's declared outcome.
//!
//! Every operation carries its expected status sets as plain data, so one
//! function decides every exchange: a status in the success set keeps the
//! response, one in the expected-failure set becomes `CommandFailed`, and
//! anything else is a protocol anomaly, `UnexpectedResponse`.

use vstd::prelude::*;

use crate::command::Command;
use crate::command::CommandView;
use crate::error::BeanstalkcError;
use crate::error::BeanstalkcResult;
use crate::response::Response;
use crate::status::spec_status_label;
use crate::status::Status;

verus! {

/// Whether `s` is one of the listed statuses.
fn contains_status(list: &Vec<Status>, s: Status) -> (r: bool)
    ensures
        r == list@.contains(s),
{
    let mut i: usize = 0;
    while i < list.len()
        invariant
            i <= list@.len(),
            forall|j: int| 0 <= j < i ==> list@[j] != s,
        decreases list@.len() - i,
    {
        if list[i] == s {
            proof {
                assert(list@.contains(s));
            }
            return true;
        }
        i = i + 1;
    }
    proof {
        if list@.contains(s) {
            let j = choose|j: int| 0 <= j < list@.len() && list@[j] == s;
            assert(false);
        }
    }
    false
}

/// Classify one reply against the command that was sent: success keeps the
/// response; an expected failure or an unanticipated status becomes the
/// matching error, carrying the status's name.
pub fn classify(cmd: &Command, resp: Response) -> (r: BeanstalkcResult<Response>)
    ensures
        cmd@.ok.contains(resp.status) ==> r == Ok::<Response, BeanstalkcError>(resp),
        !cmd@.ok.contains(resp.status) && cmd@.err.contains(resp.status) ==> (r matches Err(e)
            && e matches BeanstalkcError::CommandFailed(m) && m@ == spec_status_label(
            resp.status,
        )),
        !cmd@.ok.contains(resp.status) && !cmd@.err.contains(resp.status) ==> (r matches Err(e)
            && e matches BeanstalkcError::UnexpectedResponse(m) && m@ == spec_status_label(
            resp.status,
        )),
{
    let st = resp.status;
    if contains_status(cmd.expected_ok_status(), st) {
        Ok(resp)
    } else if contains_status(cmd.expected_error_status(), st) {
        Err(BeanstalkcError::CommandFailed(String::from_str(st.label())))
    } else {
        Err(BeanstalkcError::UnexpectedResponse(String::from_str(st.label())))
    }
}

/// For the release operation — success set `[Released, Buried]`, expected
/// failures `[NotFound]` — both `RELEASED` and `BURIED` are success
/// outcomes, `NOT_FOUND` is an expected domain failure, and every other
/// status falls outside both sets, so `classify` reports it as a protocol
/// anomaly.
pub proof fn lemma_release_outcomes(c: CommandView, s: Status)
    requires
        c.ok == seq![Status::Released, Status::Buried],
        c.err == seq![Status::NotFound],
    ensures
        c.ok.contains(Status::Released),
        c.ok.contains(Status::Buried),
        c.err.contains(Status::NotFound),
        c.ok.contains(s) <==> (s == Status::Released || s == Status::Buried),
        c.err.contains(s) <==> s == Status::NotFound,
{
    assert(c.ok[0] == Status::Released);
    assert(c.ok[1] == Status::Buried);
    assert(c.err[0] == Status::NotFound);
    if c.ok.contains(s) {
        let i = choose|i: int| 0 <= i < c.ok.len() && c.ok[i] == s;
        assert(s == Status::Released || s == Status::Buried);
    }
    if c.err.contains(s) {
        let i = choose|i: int| 0 <= i < c.err.len() && c.err[i] == s;
        assert(s == Status::NotFound);
    }
}

/// Ignoring a tube the client does not watch draws `NOT_IGNORED`, which the
/// ignore command — success set `[Watching]`, expected failures
/// `[NotIgnored]` — lists as an expected failure and never as a success.
/// The sets are fixed data, so `classify` reports `CommandFailed` for it on
/// every invocation.
pub proof fn lemma_ignore_not_ignored(c: CommandView)
    requires
        c.ok == seq![Status::Watching],
        c.err == seq![Status::NotIgnored],
    ensures
        !c.ok.contains(Status::NotIgnored),
        c.err.contains(Status::NotIgnored),
{
    assert(c.err[0] == Status::NotIgnored);
    if c.ok.contains(Status::NotIgnored) {
        let i = choose|i: int| 0 <= i < c.ok.len() && c.ok[i] == Status::NotIgnored;
        assert(c.ok[i] == Status::Watching);
    }
}

} // verus!
