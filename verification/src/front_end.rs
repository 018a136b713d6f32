//! The front end's decision logic: route a request by its exact path, build
//! the answer for each route, and map the diagnostic command's outcome to a
//! response and an optional warning line.
//!
//! The functions here are pure: the surrounding program accepts connections,
//! runs the diagnostic command and writes the log, then hands the plain
//! values over and sends back whatever `Response` comes out.

use vstd::prelude::*;
use vstd::string::StrSliceExecFns;
use vstd::string::StringExecFns;
use vstd::string::StringSliceAdditionalSpecFns;

use crate::response::ContentType;
use crate::response::Response;

verus! {

/// Where a request goes: the liveness greeting, the diagnostic dump, or
/// nowhere (no such route).
#[derive(Clone, Copy, Debug, PartialEq, Eq, Structural)]
pub enum Route {
    Root,
    Dmesg,
    NotFound,
}

/// The routing rule: an exact match on the path, nothing else of the request
/// is looked at.
pub open spec fn spec_route(path: Seq<char>) -> Route {
    if path == "/"@ {
        Route::Root
    } else if path == "/dmesg"@ {
        Route::Dmesg
    } else {
        Route::NotFound
    }
}

/// The bytes of the greeting body, `Hello world!`.
pub open spec fn spec_greeting() -> Seq<u8> {
    "Hello world!".spec_bytes()
}

/// The warning line written when the diagnostic command cannot be launched,
/// with the launch error's message appended.
pub open spec fn spec_warning(err: Seq<char>) -> Seq<char> {
    "Failed to run dmesg: "@ + err
}

/// What a diagnostic outcome amounts to: the captured bytes on a completed
/// launch, the error's message otherwise.
pub open spec fn outcome_model(outcome: Result<Vec<u8>, String>) -> Result<Seq<u8>, Seq<char>> {
    match outcome {
        Ok(bytes) => Ok(bytes@),
        Err(err) => Err(err@),
    }
}

/// The response owed to a diagnostic outcome: any completed launch - exit
/// code ignored - is answered 200 with the captured bytes as a `plain/text`
/// body; a failed launch is answered 500 with an empty body.
pub open spec fn spec_dmesg(outcome: Result<Seq<u8>, Seq<char>>) -> (u16, ContentType, Seq<u8>) {
    match outcome {
        Ok(bytes) => (200u16, ContentType::PlainText, bytes),
        Err(_) => (500u16, ContentType::DefaultType, Seq::<u8>::empty()),
    }
}

/// The whole front end as one function: what the service answers to a request
/// with the given path, when the diagnostic command (if it is consulted at
/// all) comes out as `outcome`.
pub open spec fn spec_handle(path: Seq<char>, outcome: Result<Seq<u8>, Seq<char>>) -> (
    u16,
    ContentType,
    Seq<u8>,
) {
    match spec_route(path) {
        Route::Root => (200u16, ContentType::DefaultType, spec_greeting()),
        Route::Dmesg => spec_dmesg(outcome),
        Route::NotFound => (404u16, ContentType::DefaultType, Seq::<u8>::empty()),
    }
}

/// The fixed address the service listens on: every interface, port 5000.
pub fn bind_address() -> (r: &'static str)
    ensures
        r@ == "0.0.0.0:5000"@,
{
    "0.0.0.0:5000"
}

/// The one informational line written before the service starts accepting
/// connections.
pub fn startup_message() -> (r: &'static str)
    ensures
        r@ == "Starting web server!!"@,
{
    "Starting web server!!"
}

/// Character-for-character equality of two strings.
fn str_eq(a: &str, b: &str) -> (r: bool)
    ensures
        r == (a@ == b@),
{
    let a_len = a.unicode_len();
    let b_len = b.unicode_len();
    if a_len != b_len {
        proof {
            assert(a@ != b@) by {
                if a@ == b@ {
                    assert(a@.len() == b@.len());
                }
            }
        }
        return false;
    }
    let mut i: usize = 0;
    while i < a_len
        invariant
            a_len == a@.len(),
            b_len == b@.len(),
            a_len == b_len,
            i <= a_len,
            forall|j: int| 0 <= j < i ==> a@[j] == b@[j],
        decreases a_len - i,
    {
        if a.get_char(i) != b.get_char(i) {
            proof {
                assert(a@ != b@) by {
                    if a@ == b@ {
                        assert(a@[i as int] == b@[i as int]);
                    }
                }
            }
            return false;
        }
        i += 1;
    }
    proof {
        assert(a@ =~= b@);
    }
    true
}

/// Route a request by its path: `/` and `/dmesg` match exactly, every other
/// path is unknown.
pub fn route(path: &str) -> (r: Route)
    ensures
        r == spec_route(path@),
{
    if str_eq(path, "/") {
        Route::Root
    } else if str_eq(path, "/dmesg") {
        Route::Dmesg
    } else {
        Route::NotFound
    }
}

/// The answer to `GET /`: status 200, no content type beyond the default,
/// body exactly `Hello world!`.
pub fn hello_response() -> (r: Response)
    ensures
        r.model() == (200u16, ContentType::DefaultType, spec_greeting()),
{
    Response {
        status: 200,
        content_type: ContentType::DefaultType,
        body: "Hello world!".as_bytes_vec(),
    }
}

/// The answer to a path no route claims: status 404 with an empty body.
pub fn not_found_response() -> (r: Response)
    ensures
        r.model() == (404u16, ContentType::DefaultType, Seq::<u8>::empty()),
{
    Response { status: 404, content_type: ContentType::DefaultType, body: Vec::new() }
}

/// The answer to `GET /dmesg`, given the outcome of launching the diagnostic
/// command: on a completed launch, status 200 with content type `plain/text`
/// and the captured standard output - empty output included - as the body; on
/// a failed launch, status 500 with an empty body, together with exactly one
/// warning line carrying the error's message.
pub fn dmesg_response(outcome: Result<Vec<u8>, String>) -> (r: (Response, Option<String>))
    ensures
        r.0.model() == spec_dmesg(outcome_model(outcome)),
        outcome is Ok ==> r.1 is None,
        outcome matches Err(err) ==> (r.1 matches Some(w) && w@ == spec_warning(err@)),
{
    match outcome {
        Ok(bytes) => {
            let resp = Response { status: 200, content_type: ContentType::PlainText, body: bytes };
            (resp, None)
        },
        Err(err) => {
            let mut warning = String::from_str("Failed to run dmesg: ");
            warning.append(err.as_str());
            let resp = Response {
                status: 500,
                content_type: ContentType::DefaultType,
                body: Vec::new(),
            };
            (resp, Some(warning))
        },
    }
}

/// Law: every request for `/` is answered 200 with the greeting body, no
/// matter how the diagnostic command would have come out.
pub proof fn lemma_root_always_greeting(path: Seq<char>, outcome: Result<Seq<u8>, Seq<char>>)
    requires
        path == "/"@,
    ensures
        spec_handle(path, outcome) == (200u16, ContentType::DefaultType, spec_greeting()),
{
}

/// Law: a request for `/dmesg` whose diagnostic command completes with output
/// `bytes` is answered 200, content type `plain/text`, body exactly `bytes`.
pub proof fn lemma_dmesg_success(path: Seq<char>, bytes: Seq<u8>)
    requires
        path == "/dmesg"@,
    ensures
        spec_handle(path, Ok(bytes)) == (200u16, ContentType::PlainText, bytes),
{
    reveal_strlit("/");
    reveal_strlit("/dmesg");
    assert("/"@.len() == 1);
    assert("/dmesg"@.len() == 6);
}

/// Law: a request for `/dmesg` whose diagnostic command cannot be launched is
/// answered 500 with an empty body.
pub proof fn lemma_dmesg_failure(path: Seq<char>, err: Seq<char>)
    requires
        path == "/dmesg"@,
    ensures
        spec_handle(path, Err(err)) == (500u16, ContentType::DefaultType, Seq::<u8>::empty()),
{
    reveal_strlit("/");
    reveal_strlit("/dmesg");
    assert("/"@.len() == 1);
    assert("/dmesg"@.len() == 6);
}

/// Law: a path no route claims is answered 404 with an empty body, whatever
/// the diagnostic command would have produced.
pub proof fn lemma_unknown_path(path: Seq<char>, outcome: Result<Seq<u8>, Seq<char>>)
    requires
        path != "/"@,
        path != "/dmesg"@,
    ensures
        spec_handle(path, outcome) == (404u16, ContentType::DefaultType, Seq::<u8>::empty()),
{
}

/// Law: the answer is a function of the path and the diagnostic outcome
/// alone, so repeating an identical request with an identical diagnostic
/// outcome yields an identical response.
pub proof fn lemma_idempotent(
    path1: Seq<char>,
    outcome1: Result<Seq<u8>, Seq<char>>,
    path2: Seq<char>,
    outcome2: Result<Seq<u8>, Seq<char>>,
)
    requires
        path1 == path2,
        outcome1 == outcome2,
    ensures
        spec_handle(path1, outcome1) == spec_handle(path2, outcome2),
{
}

} // verus!
