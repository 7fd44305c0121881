//! The comment dispatcher's decisions: what one submission sends, and what
//! the platform's answer means. Sending is the caller's part.

use crate::batch::{TaskOutcome, TaskOutcomeView};
use crate::client::{request_headers, BiliClient};
use crate::error::{api_error_message, api_error_text, user_message, BiliApiError, BiliApiErrorView};
use crate::models::{pairs_view, CommentResult, CommentResultView};
use crate::text::{decimal, u64_to_string};
use vstd::prelude::*;

verus! {

/// Where comments are posted.
pub open spec fn comment_add_url() -> Seq<char> {
    "https://api.bilibili.com/x/v2/reply/add"@
}

/// The form of one comment submission: the video's numeric id, the kind of
/// target (`1` for a video), the text, and the session's token.
pub open spec fn comment_form(aid: u64, content: Seq<char>, csrf: Seq<char>) -> Seq<
    (Seq<char>, Seq<char>),
> {
    seq![
        ("oid"@, decimal(aid as nat)),
        ("type"@, "1"@),
        ("message"@, content),
        ("csrf"@, csrf),
    ]
}

/// One comment submission, ready to be sent as a form by `POST`.
#[derive(Debug)]
pub struct CommentRequest {
    pub url: String,
    pub headers: Vec<(String, String)>,
    pub form: Vec<(String, String)>,
}

pub struct CommentRequestView {
    pub url: Seq<char>,
    pub headers: Seq<(Seq<char>, Seq<char>)>,
    pub form: Seq<(Seq<char>, Seq<char>)>,
}

impl View for CommentRequest {
    type V = CommentRequestView;

    open spec fn view(&self) -> CommentRequestView {
        CommentRequestView {
            url: self.url@,
            headers: pairs_view(self.headers@),
            form: pairs_view(self.form@),
        }
    }
}

/// Builds the request that posts `content` on the video `aid`. Fails with
/// `NotLoggedIn` exactly when the client is not signed in.
pub fn prepare_comment(client: &BiliClient, aid: u64, content: &str) -> (r: Result<
    CommentRequest,
    BiliApiError,
>)
    ensures
        match r {
            Ok(request) => client@ is Some && request@ == (CommentRequestView {
                url: comment_add_url(),
                headers: request_headers(client@),
                form: comment_form(aid, content@, client@->0.bili_jct),
            }),
            Err(e) => client@ is None && e@ == BiliApiErrorView::NotLoggedIn,
        },
{
    if !client.is_logged_in() {
        return Err(BiliApiError::NotLoggedIn);
    }
    let csrf = match client.get_csrf() {
        Some(token) => token,
        None => {
            return Err(BiliApiError::NotLoggedIn);
        },
    };
    let headers = client.build_headers();
    let mut form: Vec<(String, String)> = Vec::new();
    form.push((String::from_str("oid"), u64_to_string(aid)));
    form.push((String::from_str("type"), String::from_str("1")));
    form.push((String::from_str("message"), String::from_str(content)));
    form.push((String::from_str("csrf"), csrf));
    assert(pairs_view(form@) =~= comment_form(aid, content@, client@->0.bili_jct));
    Ok(CommentRequest { url: String::from_str("https://api.bilibili.com/x/v2/reply/add"), headers, form })
}

/// What the platform's answer to a submission means: code zero is
/// acceptance, with the new comment's id where the answer carried one; any
/// other code is a rejection, with the text shown for that code.
pub open spec fn classified(code: i32, message: Seq<char>, rpid: Option<u64>) -> CommentResultView {
    if code != 0 {
        CommentResultView {
            success: false,
            rpid: None,
            error_msg: Some(api_error_text(code, message)),
        }
    } else {
        CommentResultView { success: true, rpid, error_msg: None }
    }
}

/// Reads the platform's answer to a submission.
pub fn classify_response(code: i32, message: String, rpid: Option<u64>) -> (result: CommentResult)
    ensures
        result@ == classified(code, message@, rpid),
{
    if code != 0 {
        CommentResult {
            success: false,
            rpid: None,
            error_msg: Some(api_error_message(code, message.as_str())),
        }
    } else {
        CommentResult { success: true, rpid, error_msg: None }
    }
}

/// The view of what a submission attempt returned.
pub open spec fn attempt_view(r: Result<CommentResult, BiliApiError>) -> Result<
    CommentResultView,
    BiliApiErrorView,
> {
    match r {
        Ok(result) => Ok(result@),
        Err(e) => Err(e@),
    }
}

/// The text of a failure that came without one.
pub open spec fn unexplained_failure_text() -> Seq<char> {
    "评论失败"@
}

/// The outcome of a submission attempt. An accepted comment is a success.
/// A rejected one fails with the message it carries, an attempt that ended
/// in an error fails with the text shown for that error. Every failure has
/// a message.
pub open spec fn outcome_of(r: Result<CommentResultView, BiliApiErrorView>) -> TaskOutcomeView {
    match r {
        Ok(result) => if result.success {
            TaskOutcomeView::Success(result.rpid)
        } else {
            match result.error_msg {
                Some(msg) => TaskOutcomeView::Failed(msg),
                None => TaskOutcomeView::Failed(unexplained_failure_text()),
            }
        },
        Err(e) => TaskOutcomeView::Failed(user_message(e)),
    }
}

/// Turns what a submission attempt returned into the task's outcome. No
/// attempt, however it ended, is anything but a success or a failure with a
/// message.
pub fn task_outcome(attempt: Result<CommentResult, BiliApiError>) -> (outcome: TaskOutcome)
    ensures
        outcome@ == outcome_of(attempt_view(attempt)),
{
    match attempt {
        Ok(result) => {
            if result.success {
                TaskOutcome::Success(result.rpid)
            } else {
                match result.error_msg {
                    Some(msg) => TaskOutcome::Failed(msg),
                    None => TaskOutcome::Failed(String::from_str("评论失败")),
                }
            }
        },
        Err(e) => TaskOutcome::Failed(e.to_user_message()),
    }
}

} // verus!
