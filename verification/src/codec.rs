//! Decoding one reply: the status line, then the announced body.
//!
//! The transport reads a full line off the wire and hands its bytes here;
//! `parse_reply_line` turns them into a `Response` without a body.  When the
//! status carries a body, `body_length` says how many bytes were announced,
//! the transport reads exactly that many plus the 2-byte terminator, and
//! `trim_body` checks the count and strips the terminator.

use vstd::prelude::*;
use vstd::utf8::valid_utf8;

use crate::error::BeanstalkcError;
use crate::error::BeanstalkcResult;
use crate::numbers::spec_parse_u64;
use crate::response::Response;
use crate::scan::split_bytes;
use crate::scan::spec_split;
use crate::scan::string_bytes;
use crate::scan::utf8_to_string;
use crate::scan::FieldSep;
use crate::status::spec_body_length_param;
use crate::status::spec_status_of;
use crate::status::Status;

verus! {

/// Every token after the status keyword is valid UTF-8, so all of them can
/// be kept as string parameters.
pub open spec fn params_utf8(toks: Seq<Seq<u8>>) -> bool {
    forall|i: int| 1 <= i < toks.len() ==> valid_utf8(#[trigger] toks[i])
}

/// Decode one reply line.  The first whitespace-separated token must be a
/// status keyword; the remaining tokens become the parameters, kept in
/// their original string form.  The body, when the status announces one, is
/// attached separately after `body_length` and `trim_body`.
#[verifier::loop_isolation(false)]
pub fn parse_reply_line(line: &[u8]) -> (r: BeanstalkcResult<Response>)
    ensures
        ({
            let toks = spec_split(FieldSep::Whitespace, line@);
            match r {
                Ok(resp) => toks.len() > 0 && spec_status_of(toks[0]) == Some(resp.status)
                    && resp.params@.len() == toks.len() - 1 && (forall|i: int|
                    0 <= i < resp.params@.len() ==> string_bytes(#[trigger] resp.params@[i])
                        == toks[i + 1]) && resp.body is None,
                Err(e) => e is UnexpectedResponse && (toks.len() == 0 || spec_status_of(
                    toks[0],
                ) is None || !params_utf8(toks)),
            }
        }),
{
    let toks = split_bytes(FieldSep::Whitespace, line);
    let ghost tv = spec_split(FieldSep::Whitespace, line@);
    if toks.len() == 0 {
        return Err(BeanstalkcError::UnexpectedResponse(String::from_str("empty reply")));
    }
    proof {
        assert(toks@[0]@ == tv[0]);
    }
    let status = match Status::from_token(toks[0].as_slice()) {
        Option::Some(s) => s,
        Option::None => {
            return Err(
                BeanstalkcError::UnexpectedResponse(String::from_str("unknown status keyword")),
            );
        },
    };
    let mut params: Vec<String> = Vec::new();
    let mut i: usize = 1;
    while i < toks.len()
        invariant
            1 <= i <= toks@.len(),
            params@.len() == i - 1,
            forall|j: int|
                0 <= j < i - 1 ==> string_bytes(#[trigger] params@[j]) == tv[j + 1] && valid_utf8(
                    tv[j + 1],
                ),
        decreases toks@.len() - i,
    {
        proof {
            assert(toks@[i as int]@ == tv[i as int]);
        }
        match utf8_to_string(toks[i].as_slice()) {
            Option::Some(s) => {
                params.push(s);
            },
            Option::None => {
                proof {
                    assert(!valid_utf8(tv[i as int]));
                }
                return Err(
                    BeanstalkcError::UnexpectedResponse(
                        String::from_str("parameter is not UTF-8"),
                    ),
                );
            },
        }
        i = i + 1;
    }
    Ok(Response { status, params, body: Option::None })
}

/// The number of body bytes the reply announces, read from the status's
/// length parameter; `None` when the status carries no body.
pub fn body_length(resp: &Response) -> (r: BeanstalkcResult<Option<u64>>)
    ensures
        match spec_body_length_param(resp.status) {
            Option::None => r == Ok::<Option<u64>, BeanstalkcError>(Option::None),
            Option::Some(idx) => match r {
                Ok(n) => n matches Some(v) && idx < resp.params@.len() && spec_parse_u64(
                    string_bytes(resp.params@[idx as int]),
                ) == Some(v),
                Err(e) => (idx >= resp.params@.len() || spec_parse_u64(
                    string_bytes(resp.params@[idx as int]),
                ) is None) && e is UnexpectedResponse,
            },
        },
{
    let idx = match resp.status.body_length_param() {
        Option::None => {
            return Ok(Option::None);
        },
        Option::Some(idx) => idx,
    };
    match resp.get_int_param(idx) {
        Ok(n) => Ok(Option::Some(n)),
        Err(e) => Err(e),
    }
}

/// Strip the trailing line terminator from a body buffer read off the
/// wire.  The buffer must hold exactly the announced bytes plus the 2-byte
/// terminator; the announced bytes come back unchanged, and any other
/// length is a framing error.
pub fn trim_body(buf: Vec<u8>, announced: usize) -> (r: BeanstalkcResult<Vec<u8>>)
    ensures
        match r {
            Ok(body) => buf@.len() == announced + 2 && body@ == buf@.subrange(
                0,
                announced as int,
            ),
            Err(e) => buf@.len() != announced + 2 && e is UnexpectedResponse,
        },
{
    let buf_len = buf.len();
    if announced <= usize::MAX - 2 && buf_len == announced + 2 {
        let mut body = buf;
        body.truncate(announced);
        Ok(body)
    } else {
        Err(BeanstalkcError::UnexpectedResponse(String::from_str("body length mismatch")))
    }
}

} // verus!
