//! What the HTTP endpoints decide: the answer to a request to start a
//! capture, and the steps of the callback that completes the identity
//! exchange. Requests are read and answers are written elsewhere.

use crate::monitor::MonitorTask;
use crate::structs::AuthResponse;
use vstd::prelude::*;

verus! {

/// The status of an answer to a request that was carried out.
pub const STATUS_OK: u16 = 200;

/// The status of an answer to a request that lacks something.
pub const STATUS_BAD_REQUEST: u16 = 400;

/// The status of an answer to a request that failed further up.
pub const STATUS_INTERNAL_SERVER_ERROR: u16 = 500;

/// The answer to a request that started a capture.
pub const CAPTURE_STARTED: &'static str = "Started monitoring Twitch channel";

/// The answer to a request to start a capture that names no channel.
pub const MISSING_CHANNEL: &'static str = "Missing channel name";

/// The answer to a callback that carries no authorization code.
pub const MISSING_CODE: &'static str = "Missing authorization code";

/// What opens the answer where the code could not be exchanged; the
/// diagnosis follows.
pub const EXCHANGE_FAILED: &'static str = "Error exchanging code: ";

/// What opens the answer where the profile could not be fetched; the
/// diagnosis follows.
pub const USER_INFO_FAILED: &'static str = "Error fetching user info: ";

/// The page of a completed exchange up to the profile. Its script posts the
/// profile to the window that opened it, at the one origin that is trusted.
pub const PAGE_HEAD: &'static str =
    "\n                        <html>\n                        <body>\n                            <script>\n                                window.opener.postMessage({ type: 'AUTH_SUCCESS', userInfo: ";

/// The page of a completed exchange after the profile.
pub const PAGE_TAIL: &'static str =
    " }, 'http://localhost:3000');\n                                window.close();\n                            </script>\n                        </body>\n                        </html>\n                        ";

/// An answer to an HTTP request.
pub struct HttpReply {
    /// The status code.
    pub status: u16,
    /// Whether the body is an HTML document; if not, it is plain text.
    pub html: bool,
    /// The body.
    pub body: String,
}

/// What a request to start a capture leads to.
pub enum CaptureStep {
    /// The monitor to run for the channel, and the answer, which does not
    /// wait for the monitor.
    Start(MonitorTask, HttpReply),
    /// No monitor; the answer says why.
    Refuse(HttpReply),
}

/// What comes next in the callback of the identity exchange.
pub enum CallbackStep {
    /// Exchange this authorization code for a token.
    ExchangeCode(String),
    /// Fetch the profile that belongs to this access token.
    FetchUserInfo(String),
    /// Answer the request.
    Reply(HttpReply),
}

/// The page that hands the profile `profile`, written as JSON, to the window
/// that opened it.
pub open spec fn success_page(profile: Seq<char>) -> Seq<char> {
    PAGE_HEAD@ + profile + PAGE_TAIL@
}

/// `reply` is a plain-text answer with the given status and body.
pub open spec fn is_plain_reply(reply: HttpReply, status: u16, body: Seq<char>) -> bool {
    reply.status == status && !reply.html && reply.body@ == body
}

/// A plain-text answer.
fn plain_reply(status: u16, body: String) -> (reply: HttpReply)
    ensures
        is_plain_reply(reply, status, body@),
{
    HttpReply { status, html: false, body }
}

/// A request to start a capture of the channel `display_name`: a channel
/// with a name gets a monitor and an acknowledgement at once; a request
/// without a name is refused as the client's error.
pub fn start_capture(display_name: String) -> (step: CaptureStep)
    ensures
        match step {
            CaptureStep::Start(task, reply) => {
                &&& display_name@.len() > 0
                &&& task.spec_channel() == display_name@
                &&& task.state() is Connecting
                &&& is_plain_reply(reply, STATUS_OK, CAPTURE_STARTED@)
            },
            CaptureStep::Refuse(reply) => {
                &&& display_name@.len() == 0
                &&& is_plain_reply(reply, STATUS_BAD_REQUEST, MISSING_CHANNEL@)
            },
        },
{
    if display_name.as_str().is_empty() {
        CaptureStep::Refuse(plain_reply(STATUS_BAD_REQUEST, String::from_str(MISSING_CHANNEL)))
    } else {
        CaptureStep::Start(
            MonitorTask::new(display_name),
            plain_reply(STATUS_OK, String::from_str(CAPTURE_STARTED)),
        )
    }
}

/// The callback has been called, with or without an authorization code: a
/// code is to be exchanged, a missing one is the client's error.
pub fn oauth_callback(code: Option<&str>) -> (step: CallbackStep)
    ensures
        match code {
            Some(c) => step matches CallbackStep::ExchangeCode(sent) && sent@ == c@,
            None => step matches CallbackStep::Reply(reply) && is_plain_reply(
                reply,
                STATUS_BAD_REQUEST,
                MISSING_CODE@,
            ),
        },
{
    match code {
        Some(c) => CallbackStep::ExchangeCode(String::from_str(c)),
        None => CallbackStep::Reply(
            plain_reply(STATUS_BAD_REQUEST, String::from_str(MISSING_CODE)),
        ),
    }
}

/// The exchange of the code has ended, with a token or with a diagnosis: the
/// token's user is to be fetched, a failure is answered as a server error.
pub fn code_exchanged(outcome: Result<AuthResponse, String>) -> (step: CallbackStep)
    ensures
        match outcome {
            Ok(token) => step matches CallbackStep::FetchUserInfo(sent) && sent@
                == token.access_token@,
            Err(diagnosis) => step matches CallbackStep::Reply(reply) && is_plain_reply(
                reply,
                STATUS_INTERNAL_SERVER_ERROR,
                EXCHANGE_FAILED@ + diagnosis@,
            ),
        },
{
    match outcome {
        Ok(token) => CallbackStep::FetchUserInfo(token.access_token),
        Err(diagnosis) => CallbackStep::Reply(
            plain_reply(
                STATUS_INTERNAL_SERVER_ERROR,
                String::from_str(EXCHANGE_FAILED).concat(diagnosis.as_str()),
            ),
        ),
    }
}

/// The fetch of the profile has ended, with the profile written as JSON or
/// with a diagnosis: the profile is answered inside the page that posts it to
/// the opening window and closes, a failure is answered as a server error.
pub fn user_info_fetched(outcome: Result<String, String>) -> (reply: HttpReply)
    ensures
        match outcome {
            Ok(profile) => {
                &&& reply.status == STATUS_OK
                &&& reply.html
                &&& reply.body@ == success_page(profile@)
            },
            Err(diagnosis) => is_plain_reply(
                reply,
                STATUS_INTERNAL_SERVER_ERROR,
                USER_INFO_FAILED@ + diagnosis@,
            ),
        },
{
    match outcome {
        Ok(profile) => HttpReply {
            status: STATUS_OK,
            html: true,
            body: String::from_str(PAGE_HEAD).concat(profile.as_str()).concat(PAGE_TAIL),
        },
        Err(diagnosis) => plain_reply(
            STATUS_INTERNAL_SERVER_ERROR,
            String::from_str(USER_INFO_FAILED).concat(diagnosis.as_str()),
        ),
    }
}

} // verus!
