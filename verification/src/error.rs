//! The errors of the remote platform's API and the texts shown for them.

use crate::text::{push_signed_decimal, signed_decimal};
use vstd::prelude::*;

verus! {

/// What can go wrong while talking to the platform. Failures of the
/// transport and of the file system are kept by their description.
#[derive(Debug)]
pub enum BiliApiError {
    /// The request did not get through; the text describes why.
    Network(String),
    /// There is no session, or it has lapsed.
    NotLoggedIn,
    /// The platform answered with a non-zero code.
    ApiError { code: i32, message: String },
    /// The platform asks to slow down.
    RateLimited,
    /// The comment was not accepted.
    CommentFailed(String),
    /// The login QR code is no longer valid.
    QrCodeExpired,
    /// The answer could not be understood.
    ParseError(String),
    /// Reading or writing a file failed; the text describes why.
    IoError(String),
    /// Anything else.
    Other(String),
}

pub enum BiliApiErrorView {
    Network(Seq<char>),
    NotLoggedIn,
    ApiError { code: i32, message: Seq<char> },
    RateLimited,
    CommentFailed(Seq<char>),
    QrCodeExpired,
    ParseError(Seq<char>),
    IoError(Seq<char>),
    Other(Seq<char>),
}

impl View for BiliApiError {
    type V = BiliApiErrorView;

    open spec fn view(&self) -> BiliApiErrorView {
        match self {
            BiliApiError::Network(m) => BiliApiErrorView::Network(m@),
            BiliApiError::NotLoggedIn => BiliApiErrorView::NotLoggedIn,
            BiliApiError::ApiError { code, message } => BiliApiErrorView::ApiError {
                code: *code,
                message: message@,
            },
            BiliApiError::RateLimited => BiliApiErrorView::RateLimited,
            BiliApiError::CommentFailed(m) => BiliApiErrorView::CommentFailed(m@),
            BiliApiError::QrCodeExpired => BiliApiErrorView::QrCodeExpired,
            BiliApiError::ParseError(m) => BiliApiErrorView::ParseError(m@),
            BiliApiError::IoError(m) => BiliApiErrorView::IoError(m@),
            BiliApiError::Other(m) => BiliApiErrorView::Other(m@),
        }
    }
}

/// The text for a code that the table does not know: the code, a colon and
/// the platform's own message.
pub open spec fn unknown_code_text(code: i32, message: Seq<char>) -> Seq<char> {
    "错误 "@ + signed_decimal(code as int) + ": "@ + message
}

/// The text shown for a rejection by the platform: a fixed text for each
/// known code, and the code with the platform's message for any other.
pub open spec fn api_error_text(code: i32, message: Seq<char>) -> Seq<char> {
    if code == -101 {
        "账号未登录"@
    } else if code == -111 {
        "csrf校验失败"@
    } else if code == -400 {
        "请求错误"@
    } else if code == -404 {
        "视频不存在"@
    } else if code == 12002 {
        "评论内容包含敏感词"@
    } else if code == 12009 {
        "评论发送太频繁"@
    } else if code == 12015 {
        "需要输入验证码"@
    } else if code == 12016 {
        "您的账号存在异常，请完成验证后重试"@
    } else if code == 12025 {
        "评论区已关闭"@
    } else {
        unknown_code_text(code, message)
    }
}

/// The full description of an error.
pub open spec fn display_text(e: BiliApiErrorView) -> Seq<char> {
    match e {
        BiliApiErrorView::Network(m) => "网络请求失败: "@ + m,
        BiliApiErrorView::NotLoggedIn => "未登录或登录已过期"@,
        BiliApiErrorView::ApiError { code, message } => "B站返回错误: "@ + signed_decimal(
            code as int,
        ) + " - "@ + message,
        BiliApiErrorView::RateLimited => "请求过于频繁，请稍后再试"@,
        BiliApiErrorView::CommentFailed(m) => "评论失败: "@ + m,
        BiliApiErrorView::QrCodeExpired => "二维码已过期"@,
        BiliApiErrorView::ParseError(m) => "数据解析失败: "@ + m,
        BiliApiErrorView::IoError(m) => "IO错误: "@ + m,
        BiliApiErrorView::Other(m) => m,
    }
}

/// The text shown to the user for an error.
pub open spec fn user_message(e: BiliApiErrorView) -> Seq<char> {
    match e {
        BiliApiErrorView::NotLoggedIn => "请先登录"@,
        BiliApiErrorView::RateLimited => "操作过于频繁，请稍等几秒后重试"@,
        BiliApiErrorView::QrCodeExpired => "二维码已过期，请刷新"@,
        BiliApiErrorView::ApiError { code, message } => api_error_text(code, message),
        _ => display_text(e),
    }
}

/// The text shown for a rejection by the platform with this code and
/// message.
pub fn api_error_message(code: i32, message: &str) -> (text: String)
    ensures
        text@ == api_error_text(code, message@),
{
    if code == -101 {
        String::from_str("账号未登录")
    } else if code == -111 {
        String::from_str("csrf校验失败")
    } else if code == -400 {
        String::from_str("请求错误")
    } else if code == -404 {
        String::from_str("视频不存在")
    } else if code == 12002 {
        String::from_str("评论内容包含敏感词")
    } else if code == 12009 {
        String::from_str("评论发送太频繁")
    } else if code == 12015 {
        String::from_str("需要输入验证码")
    } else if code == 12016 {
        String::from_str("您的账号存在异常，请完成验证后重试")
    } else if code == 12025 {
        String::from_str("评论区已关闭")
    } else {
        let mut text = String::from_str("错误 ");
        push_signed_decimal(&mut text, code as i64);
        text.append(": ");
        text.append(message);
        text
    }
}

fn prefixed(prefix: &str, rest: &str) -> (text: String)
    ensures
        text@ == prefix@ + rest@,
{
    let mut text = String::from_str(prefix);
    text.append(rest);
    text
}

impl BiliApiError {
    /// The full description of the error.
    pub fn to_string(&self) -> (text: String)
        ensures
            text@ == display_text(self@),
    {
        match self {
            BiliApiError::Network(m) => prefixed("网络请求失败: ", m.as_str()),
            BiliApiError::NotLoggedIn => String::from_str("未登录或登录已过期"),
            BiliApiError::ApiError { code, message } => {
                let mut text = String::from_str("B站返回错误: ");
                push_signed_decimal(&mut text, *code as i64);
                text.append(" - ");
                text.append(message.as_str());
                text
            },
            BiliApiError::RateLimited => String::from_str("请求过于频繁，请稍后再试"),
            BiliApiError::CommentFailed(m) => prefixed("评论失败: ", m.as_str()),
            BiliApiError::QrCodeExpired => String::from_str("二维码已过期"),
            BiliApiError::ParseError(m) => prefixed("数据解析失败: ", m.as_str()),
            BiliApiError::IoError(m) => prefixed("IO错误: ", m.as_str()),
            BiliApiError::Other(m) => m.clone(),
        }
    }

    /// The text shown to the user: a short fixed text for a missing
    /// session, a rate limit and an expired QR code, the table's text for a
    /// rejection by the platform, and the full description otherwise.
    pub fn to_user_message(&self) -> (text: String)
        ensures
            text@ == user_message(self@),
    {
        match self {
            BiliApiError::NotLoggedIn => String::from_str("请先登录"),
            BiliApiError::RateLimited => String::from_str("操作过于频繁，请稍等几秒后重试"),
            BiliApiError::QrCodeExpired => String::from_str("二维码已过期，请刷新"),
            BiliApiError::ApiError { code, message } => api_error_message(*code, message.as_str()),
            _ => self.to_string(),
        }
    }
}

} // verus!
