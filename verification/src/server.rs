//! Answers of the relay's HTTP routes that do not depend on the drive, and
//! what the share routes do with a request.

use vstd::prelude::*;
use crate::server_type::{ServerType, spec_from_url_segment};
use crate::text::concat;

verus! {

/// A complete answer: status code, headers (name and value) and body.
#[derive(Debug)]
pub struct HttpAnswer {
    pub status: u16,
    pub headers: Vec<(String, String)>,
    pub body: String,
}

/// `a` has this status, no header, and this body.
pub open spec fn is_plain_answer(a: HttpAnswer, status: u16, body: Seq<char>) -> bool {
    &&& a.status == status
    &&& a.headers@.len() == 0
    &&& a.body@ == body
}

/// The administrator's email address, or the error given before it is set.
pub fn admin_email_result(admin_email: Option<&String>) -> (r: Result<String, String>)
    ensures
        match admin_email {
            Some(e) => r matches Ok(x) && x@ == e@,
            None => r matches Err(m) && m@ == "Admin email not set"@,
        },
{
    match admin_email {
        Some(e) => Ok(e.clone()),
        None => Err(String::from_str("Admin email not set")),
    }
}

/// The answer to `/<server type>` without a share identifier: 404 Not
/// Found with the body `No share id provided`.
pub fn no_share_id_answer() -> (a: HttpAnswer)
    ensures
        is_plain_answer(a, 404, "No share id provided"@),
{
    HttpAnswer { status: 404, headers: Vec::new(), body: String::from_str("No share id provided") }
}

/// Where a request for `/<server type>/<id>` is sent: the same URI with a
/// trailing slash.
pub fn trailing_slash_redirect(uri: &str) -> (target: String)
    ensures
        target@ == uri@ + "/"@,
{
    concat(uri, "/")
}

/// The shape of a path matched by one of the share routes.
#[derive(Debug)]
pub enum SharePath {
    /// `/<segment>`
    TypeOnly { segment: String },
    /// `/<segment>/<id>`, without a trailing slash.
    WithoutSlash { segment: String, id: String },
    /// `/<segment>/<id>/` or anything below it.
    WithinShare { segment: String, id: String },
}

/// What a share route does with a request.
#[derive(Debug)]
pub enum RouteAction {
    /// Answer at once, without forwarding the request.
    Answer(HttpAnswer),
    /// Answer with a permanent redirect to this location, without
    /// forwarding the request.
    PermanentRedirect(String),
    /// Forward the request to the server of this type for the share with
    /// this (short) identifier.
    Forward(ServerType, String),
    /// The segment names no server type; the path parameter is refused
    /// with this message.
    RefuseSegment(String),
}

/// The segment of a matched share path.
pub open spec fn spec_segment_of(p: SharePath) -> Seq<char> {
    match p {
        SharePath::TypeOnly { segment } => segment@,
        SharePath::WithoutSlash { segment, .. } => segment@,
        SharePath::WithinShare { segment, .. } => segment@,
    }
}

/// Decides what a share route does with a request for `uri` whose path
/// matched `path`: a segment that names no server type is refused; without
/// a share identifier the answer is 404; without the trailing slash the
/// request is permanently redirected to `uri` with a slash added; and
/// only a request within a share is forwarded, to that server type and
/// share.
pub fn share_route_action(path: SharePath, uri: &str) -> (a: RouteAction)
    ensures
        spec_from_url_segment(spec_segment_of(path)) is None ==> (a matches RouteAction::RefuseSegment(m)
            && m@ == "Unknown server type: "@ + spec_segment_of(path)),
        spec_from_url_segment(spec_segment_of(path)) is Some ==> match path {
            SharePath::TypeOnly { .. } => a matches RouteAction::Answer(ans) && is_plain_answer(
                ans,
                404,
                "No share id provided"@,
            ),
            SharePath::WithoutSlash { .. } => a matches RouteAction::PermanentRedirect(l) && l@
                == uri@ + "/"@,
            SharePath::WithinShare { id, .. } => a matches RouteAction::Forward(t, i) && Some(t)
                == spec_from_url_segment(spec_segment_of(path)) && i@ == id@,
        },
{
    match path {
        SharePath::TypeOnly { segment } => match ServerType::from_url_segment(segment.as_str()) {
            Ok(_) => RouteAction::Answer(no_share_id_answer()),
            Err(m) => RouteAction::RefuseSegment(m),
        },
        SharePath::WithoutSlash { segment, id } => match ServerType::from_url_segment(segment.as_str()) {
            Ok(_) => RouteAction::PermanentRedirect(trailing_slash_redirect(uri)),
            Err(m) => RouteAction::RefuseSegment(m),
        },
        SharePath::WithinShare { segment, id } => match ServerType::from_url_segment(segment.as_str()) {
            Ok(t) => RouteAction::Forward(t, id),
            Err(m) => RouteAction::RefuseSegment(m),
        },
    }
}

/// What a share's server answered, or why forwarding failed.
#[derive(Debug)]
pub enum ForwardedAnswer<R> {
    /// The server's own answer, passed on unchanged.
    Passed(R),
    /// The answer given when forwarding failed.
    Failed(HttpAnswer),
}

/// The answer to a forwarded request: the server's answer unchanged when
/// forwarding succeeded; otherwise 500 Internal Server Error with the body
/// `Failed to process request: <error>`.
pub fn forwarded_answer<R>(forwarded: Result<R, String>) -> (a: ForwardedAnswer<R>)
    ensures
        match forwarded {
            Ok(r) => a == ForwardedAnswer::Passed(r),
            Err(e) => a matches ForwardedAnswer::Failed(ans) && is_plain_answer(
                ans,
                500,
                "Failed to process request: "@ + e@,
            ),
        },
{
    match forwarded {
        Ok(r) => ForwardedAnswer::Passed(r),
        Err(e) => ForwardedAnswer::Failed(
            HttpAnswer {
                status: 500,
                headers: Vec::new(),
                body: concat("Failed to process request: ", e.as_str()),
            },
        ),
    }
}

/// The answer to logout: 200 OK, a `Set-Cookie` header that empties the
/// session cookie, and an empty body.
pub fn logout_answer() -> (a: HttpAnswer)
    ensures
        a.status == 200,
        a.headers@.len() == 1,
        a.headers@[0].0@ == "Set-Cookie"@,
        a.headers@[0].1@ == "Session=; HttpOnly; Path=/"@,
        a.body@ == Seq::<char>::empty(),
{
    let mut headers: Vec<(String, String)> = Vec::new();
    headers.push((String::from_str("Set-Cookie"), String::from_str("Session=; HttpOnly; Path=/")));
    HttpAnswer { status: 200, headers, body: String::new() }
}

} // verus!
