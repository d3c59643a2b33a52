//! Interpreting the upstream resolver's responses.
//!
//! Every round-trip of the resolution protocol answers with an HTTP status
//! and a JSON envelope: a `code` member (zero on success), an optional `msg`,
//! and a payload under `data`. The functions here take the status and the
//! raw body and classify the outcome; the network calls that produce them
//! live outside the library.

use vstd::prelude::*;

verus! {

use crate::types::ResolutionError;

/// Whether `s` parses as a JSON document.
pub uninterp spec fn json_wellformed(s: Seq<char>) -> bool;

/// The integer `code` member of the JSON document `s`, when present.
pub uninterp spec fn json_code(s: Seq<char>) -> Option<i64>;

/// The string `msg` member of the JSON document `s`, when present.
pub uninterp spec fn json_msg(s: Seq<char>) -> Option<Seq<char>>;

/// The string `data.task_id` member of the JSON document `s`, when present.
pub uninterp spec fn json_task_id(s: Seq<char>) -> Option<Seq<char>>;

/// The string `data.detail.play_url` member of the JSON document `s`, when
/// present.
pub uninterp spec fn json_play_url(s: Seq<char>) -> Option<Seq<char>>;

/// The `data.images` member of the JSON document `s`, when it is an array
/// of strings: those strings, in order.
pub uninterp spec fn json_images(s: Seq<char>) -> Option<Seq<Seq<char>>>;

/// The envelope members every response carries.
struct EnvelopeHead {
    code: Option<i64>,
    msg: Option<String>,
}

/// The view of an optional string.
pub open spec fn opt_str_view(o: Option<String>) -> Option<Seq<char>> {
    match o {
        Some(s) => Some(s@),
        None => None,
    }
}

/// Relies on serde_json::from_str, whose result is a function of the text
/// alone, and on Value::get, Value::as_i64 and Value::as_str, which only read
/// members out of the parsed document.
#[verifier::external_body]
fn extract_envelope_head(body: &str) -> (r: Option<EnvelopeHead>)
    ensures
        r is Some <==> json_wellformed(body@),
        r matches Some(h) ==> h.code == json_code(body@),
        r matches Some(h) ==> opt_str_view(h.msg) == json_msg(body@),
{
    match serde_json::from_str::<serde_json::Value>(body) {
        Ok(v) => Some(EnvelopeHead {
            code: v.get("code").and_then(|c| c.as_i64()),
            msg: v.get("msg").and_then(|m| m.as_str()).map(|s| s.to_string()),
        }),
        Err(_) => None,
    }
}

/// Relies on serde_json::from_str and on Value::get and Value::as_str,
/// reaching the `data.task_id` member of the parsed document.
#[verifier::external_body]
fn extract_task_id(body: &str) -> (r: Option<String>)
    ensures
        r is Some <==> (json_wellformed(body@) && json_task_id(body@) is Some),
        r matches Some(t) ==> json_task_id(body@) == Some(t@),
{
    let v: serde_json::Value = match serde_json::from_str(body) {
        Ok(v) => v,
        Err(_) => {
            return None;
        },
    };
    v.get("data").and_then(|d| d.get("task_id")).and_then(|t| t.as_str()).map(|s| s.to_string())
}

/// Relies on serde_json::from_str and on Value::get and Value::as_str,
/// reaching the `data.detail.play_url` member of the parsed document.
#[verifier::external_body]
fn extract_play_url(body: &str) -> (r: Option<String>)
    ensures
        r is Some <==> (json_wellformed(body@) && json_play_url(body@) is Some),
        r matches Some(u) ==> json_play_url(body@) == Some(u@),
{
    let v: serde_json::Value = match serde_json::from_str(body) {
        Ok(v) => v,
        Err(_) => {
            return None;
        },
    };
    v.get("data")
        .and_then(|d| d.get("detail"))
        .and_then(|d| d.get("play_url"))
        .and_then(|u| u.as_str())
        .map(|s| s.to_string())
}

/// Relies on serde_json::from_str and on Value::get, Value::as_array and
/// Value::as_str: the `data.images` member's strings, in the array's order,
/// and None when the member is absent, not an array, or holds a non-string.
#[verifier::external_body]
fn extract_images(body: &str) -> (r: Option<Vec<String>>)
    ensures
        r is Some <==> (json_wellformed(body@) && json_images(body@) is Some),
        r matches Some(v) ==> json_images(body@) == Some(v.deep_view()),
{
    let v: serde_json::Value = match serde_json::from_str(body) {
        Ok(v) => v,
        Err(_) => {
            return None;
        },
    };
    let arr = match v.get("data").and_then(|d| d.get("images")).and_then(|a| a.as_array()) {
        Some(a) => a,
        None => {
            return None;
        },
    };
    arr.iter().map(|x| x.as_str().map(|s| s.to_string())).collect::<Option<Vec<String>>>()
}

/// Success statuses of an HTTP exchange.
pub open spec fn http_success(status: u16) -> bool {
    200 <= status < 300
}

/// Whether `status` is a success status.
pub fn is_http_success(status: u16) -> (r: bool)
    ensures
        r == http_success(status),
{
    200 <= status && status < 300
}

/// The message a remote failure surfaces: the envelope's `msg`, or a
/// placeholder when the envelope carries none.
pub open spec fn remote_message(s: Seq<char>) -> Seq<char> {
    match json_msg(s) {
        Some(m) => m,
        None => "No 'msg' field provided."@,
    }
}

/// The classification every round-trip's envelope goes through, given which
/// payload member the round-trip expects: a non-success status is `Http`, a
/// body that is not JSON is `MalformedResponse`, a non-zero `code` is
/// `Remote` with the code and message verbatim, an absent payload member is
/// `MissingField`, and otherwise the payload is returned.
pub open spec fn envelope_outcome<T>(
    status: u16,
    b: Seq<char>,
    payload: Option<Seq<T>>,
    field: Seq<char>,
    r: Result<Seq<T>, ResolutionError>,
) -> bool {
    if !http_success(status) {
        r matches Err(ResolutionError::Http(st)) && st == status
    } else if !json_wellformed(b) {
        r matches Err(e) && e is MalformedResponse
    } else if json_code(b) matches Some(c) && c != 0 {
        r matches Err(ResolutionError::Remote { code, message }) && json_code(b) == Some(code)
            && message@ == remote_message(b)
    } else if payload is None {
        r matches Err(ResolutionError::MissingField(f)) && f@ == field
    } else {
        r matches Ok(p) && payload == Some(p)
    }
}

/// Interprets the response of the task-submission round-trip: on a success
/// envelope the task id correlated to the submitted item, else the error the
/// envelope classification assigns, with the expected member `task_id`.
pub fn interpret_submit_response(status: u16, body: &str) -> (r: Result<String, ResolutionError>)
    ensures
        envelope_outcome(
            status,
            body@,
            json_task_id(body@),
            "task_id"@,
            match r {
                Ok(t) => Ok(t@),
                Err(e) => Err(e),
            },
        ),
{
    if !is_http_success(status) {
        return Err(ResolutionError::Http(status));
    }
    let head = match extract_envelope_head(body) {
        Some(h) => h,
        None => {
            return Err(ResolutionError::MalformedResponse);
        },
    };
    if let Some(c) = head.code {
        if c != 0 {
            let message = match head.msg {
                Some(m) => m,
                None => default_message(),
            };
            return Err(ResolutionError::Remote { code: c, message });
        }
    }
    match extract_task_id(body) {
        Some(t) => Ok(t),
        None => Err(ResolutionError::MissingField("task_id".to_owned())),
    }
}

/// Interprets the response of the result-fetch round-trip: on a success
/// envelope the media URL of the resolved video, else the error the envelope
/// classification assigns, with the expected member `play_url`.
pub fn interpret_result_response(status: u16, body: &str) -> (r: Result<String, ResolutionError>)
    ensures
        envelope_outcome(
            status,
            body@,
            json_play_url(body@),
            "play_url"@,
            match r {
                Ok(u) => Ok(u@),
                Err(e) => Err(e),
            },
        ),
{
    if !is_http_success(status) {
        return Err(ResolutionError::Http(status));
    }
    let head = match extract_envelope_head(body) {
        Some(h) => h,
        None => {
            return Err(ResolutionError::MalformedResponse);
        },
    };
    if let Some(c) = head.code {
        if c != 0 {
            let message = match head.msg {
                Some(m) => m,
                None => default_message(),
            };
            return Err(ResolutionError::Remote { code: c, message });
        }
    }
    match extract_play_url(body) {
        Some(u) => Ok(u),
        None => Err(ResolutionError::MissingField("play_url".to_owned())),
    }
}

/// Interprets the response of the media-listing round-trip: on a success
/// envelope the photo URLs in the listed order, else the error the envelope
/// classification assigns, with the expected member `images`.
pub fn interpret_photos_response(status: u16, body: &str) -> (r: Result<
    Vec<String>,
    ResolutionError,
>)
    ensures
        envelope_outcome(
            status,
            body@,
            json_images(body@),
            "images"@,
            match r {
                Ok(v) => Ok(v.deep_view()),
                Err(e) => Err(e),
            },
        ),
{
    if !is_http_success(status) {
        return Err(ResolutionError::Http(status));
    }
    let head = match extract_envelope_head(body) {
        Some(h) => h,
        None => {
            return Err(ResolutionError::MalformedResponse);
        },
    };
    if let Some(c) = head.code {
        if c != 0 {
            let message = match head.msg {
                Some(m) => m,
                None => default_message(),
            };
            return Err(ResolutionError::Remote { code: c, message });
        }
    }
    match extract_images(body) {
        Some(v) => Ok(v),
        None => Err(ResolutionError::MissingField("images".to_owned())),
    }
}

fn default_message() -> (r: String)
    ensures
        r@ == "No 'msg' field provided."@,
{
    "No 'msg' field provided.".to_owned()
}

} // verus!
