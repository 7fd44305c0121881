//! The records that cross the library's boundary, each with the
//! mathematical view that the contracts speak of.

use vstd::prelude::*;

verus! {

/// The view of an optional string.
pub open spec fn opt_str_view(o: Option<String>) -> Option<Seq<char>> {
    match o {
        Some(s) => Some(s@),
        None => None,
    }
}

/// The views of a list of name and value pairs, in order.
pub open spec fn pairs_view(pairs: Seq<(String, String)>) -> Seq<(Seq<char>, Seq<char>)> {
    pairs.map_values(|p: (String, String)| (p.0@, p.1@))
}

/// The view of an optional list of name and value pairs.
pub open spec fn opt_pairs_view(o: Option<Vec<(String, String)>>) -> Option<
    Seq<(Seq<char>, Seq<char>)>,
> {
    match o {
        Some(pairs) => Some(pairs_view(pairs@)),
        None => None,
    }
}

/// Copies an optional string.
pub fn clone_opt_string(o: &Option<String>) -> (r: Option<String>)
    ensures
        r == *o,
{
    match o {
        Some(s) => Some(s.clone()),
        None => None,
    }
}

/// The signed-in user as the platform reports it.
#[derive(Debug)]
pub struct UserInfo {
    pub mid: u64,
    pub uname: String,
    pub face: String,
    pub is_login: bool,
}

pub struct UserInfoView {
    pub mid: u64,
    pub uname: Seq<char>,
    pub face: Seq<char>,
    pub is_login: bool,
}

impl View for UserInfo {
    type V = UserInfoView;

    open spec fn view(&self) -> UserInfoView {
        UserInfoView {
            mid: self.mid,
            uname: self.uname@,
            face: self.face@,
            is_login: self.is_login,
        }
    }
}

impl Clone for UserInfo {
    fn clone(&self) -> (r: Self)
        ensures
            r == *self,
    {
        UserInfo {
            mid: self.mid,
            uname: self.uname.clone(),
            face: self.face.clone(),
            is_login: self.is_login,
        }
    }
}

/// The three cookies that authenticate a session, and when they lapse.
#[derive(Debug)]
pub struct LoginCredential {
    pub sessdata: String,
    pub bili_jct: String,
    pub dedeuserid: String,
    pub expires_at: i64,
}

pub struct LoginCredentialView {
    pub sessdata: Seq<char>,
    pub bili_jct: Seq<char>,
    pub dedeuserid: Seq<char>,
    pub expires_at: i64,
}

impl View for LoginCredential {
    type V = LoginCredentialView;

    open spec fn view(&self) -> LoginCredentialView {
        LoginCredentialView {
            sessdata: self.sessdata@,
            bili_jct: self.bili_jct@,
            dedeuserid: self.dedeuserid@,
            expires_at: self.expires_at,
        }
    }
}

impl Clone for LoginCredential {
    fn clone(&self) -> (r: Self)
        ensures
            r == *self,
    {
        LoginCredential {
            sessdata: self.sessdata.clone(),
            bili_jct: self.bili_jct.clone(),
            dedeuserid: self.dedeuserid.clone(),
            expires_at: self.expires_at,
        }
    }
}

/// The text of the `Cookie` header that carries a credential.
pub open spec fn cookie_text(c: LoginCredentialView) -> Seq<char> {
    "SESSDATA="@ + c.sessdata + "; bili_jct="@ + c.bili_jct + "; DedeUserID="@ + c.dedeuserid
}

impl LoginCredential {
    /// Renders the credential as one `Cookie` header value.
    pub fn to_cookie_string(&self) -> (cookie: String)
        ensures
            cookie@ == cookie_text(self@),
    {
        let mut cookie = String::from_str("SESSDATA=");
        cookie.append(self.sessdata.as_str());
        cookie.append("; bili_jct=");
        cookie.append(self.bili_jct.as_str());
        cookie.append("; DedeUserID=");
        cookie.append(self.dedeuserid.as_str());
        cookie
    }
}

/// A login QR code: the address it encodes, the key to poll with, and the
/// rendered image as a data URI.
#[derive(Debug)]
pub struct QrCodeData {
    pub url: String,
    pub qrcode_key: String,
    pub image_base64: String,
}

pub struct QrCodeDataView {
    pub url: Seq<char>,
    pub qrcode_key: Seq<char>,
    pub image_base64: Seq<char>,
}

impl View for QrCodeData {
    type V = QrCodeDataView;

    open spec fn view(&self) -> QrCodeDataView {
        QrCodeDataView {
            url: self.url@,
            qrcode_key: self.qrcode_key@,
            image_base64: self.image_base64@,
        }
    }
}

impl Clone for QrCodeData {
    fn clone(&self) -> (r: Self)
        ensures
            r == *self,
    {
        QrCodeData {
            url: self.url.clone(),
            qrcode_key: self.qrcode_key.clone(),
            image_base64: self.image_base64.clone(),
        }
    }
}

/// Where a QR-code login stands.
#[derive(Debug, Clone, Copy, PartialEq, Eq, Structural)]
pub enum LoginStatus {
    Waiting,
    Scanned,
    Confirmed,
    Expired,
    Error,
}

/// One answer to a login poll.
#[derive(Debug)]
pub struct LoginPollResult {
    pub status: LoginStatus,
    pub message: String,
}

pub struct LoginPollResultView {
    pub status: LoginStatus,
    pub message: Seq<char>,
}

impl View for LoginPollResult {
    type V = LoginPollResultView;

    open spec fn view(&self) -> LoginPollResultView {
        LoginPollResultView { status: self.status, message: self.message@ }
    }
}

impl Clone for LoginPollResult {
    fn clone(&self) -> (r: Self)
        ensures
            r == *self,
    {
        LoginPollResult { status: self.status, message: self.message.clone() }
    }
}

/// A video that can be commented on.
#[derive(Debug)]
pub struct VideoItem {
    pub aid: u64,
    pub bvid: String,
    pub title: String,
    pub author: String,
    pub mid: u64,
    pub pic: String,
    pub play: u64,
    pub danmaku: u64,
    pub pubdate: i64,
    pub duration: String,
    pub description: String,
}

pub struct VideoItemView {
    pub aid: u64,
    pub bvid: Seq<char>,
    pub title: Seq<char>,
    pub author: Seq<char>,
    pub mid: u64,
    pub pic: Seq<char>,
    pub play: u64,
    pub danmaku: u64,
    pub pubdate: i64,
    pub duration: Seq<char>,
    pub description: Seq<char>,
}

impl View for VideoItem {
    type V = VideoItemView;

    open spec fn view(&self) -> VideoItemView {
        VideoItemView {
            aid: self.aid,
            bvid: self.bvid@,
            title: self.title@,
            author: self.author@,
            mid: self.mid,
            pic: self.pic@,
            play: self.play,
            danmaku: self.danmaku,
            pubdate: self.pubdate,
            duration: self.duration@,
            description: self.description@,
        }
    }
}

impl Clone for VideoItem {
    fn clone(&self) -> (r: Self)
        ensures
            r == *self,
    {
        VideoItem {
            aid: self.aid,
            bvid: self.bvid.clone(),
            title: self.title.clone(),
            author: self.author.clone(),
            mid: self.mid,
            pic: self.pic.clone(),
            play: self.play,
            danmaku: self.danmaku,
            pubdate: self.pubdate,
            duration: self.duration.clone(),
            description: self.description.clone(),
        }
    }
}

/// The views of a list of videos, in order.
pub open spec fn video_views(videos: Seq<VideoItem>) -> Seq<VideoItemView> {
    videos.map_values(|v: VideoItem| v@)
}

/// One page of search results.
#[derive(Debug)]
pub struct SearchResult {
    pub page: u32,
    pub page_size: u32,
    pub total: u32,
    pub items: Vec<VideoItem>,
}

pub struct SearchResultView {
    pub page: u32,
    pub page_size: u32,
    pub total: u32,
    pub items: Seq<VideoItemView>,
}

impl View for SearchResult {
    type V = SearchResultView;

    open spec fn view(&self) -> SearchResultView {
        SearchResultView {
            page: self.page,
            page_size: self.page_size,
            total: self.total,
            items: video_views(self.items@),
        }
    }
}

impl Clone for SearchResult {
    fn clone(&self) -> (r: Self)
        ensures
            r@ == self@,
    {
        let items = self.items.clone();
        assert(items@ =~= self.items@);
        SearchResult { page: self.page, page_size: self.page_size, total: self.total, items }
    }
}

/// A stored comment text with a name.
#[derive(Debug)]
pub struct CommentTemplate {
    pub id: String,
    pub name: String,
    pub content: String,
    pub created_at: i64,
    pub updated_at: i64,
}

pub struct CommentTemplateView {
    pub id: Seq<char>,
    pub name: Seq<char>,
    pub content: Seq<char>,
    pub created_at: i64,
    pub updated_at: i64,
}

impl View for CommentTemplate {
    type V = CommentTemplateView;

    open spec fn view(&self) -> CommentTemplateView {
        CommentTemplateView {
            id: self.id@,
            name: self.name@,
            content: self.content@,
            created_at: self.created_at,
            updated_at: self.updated_at,
        }
    }
}

impl Clone for CommentTemplate {
    fn clone(&self) -> (r: Self)
        ensures
            r == *self,
    {
        CommentTemplate {
            id: self.id.clone(),
            name: self.name.clone(),
            content: self.content.clone(),
            created_at: self.created_at,
            updated_at: self.updated_at,
        }
    }
}

/// The life cycle of one task: `Pending`, then `Running`, then one of the
/// three terminal states. A task that is cancelled goes from `Pending`
/// straight to `Cancelled`.
#[derive(Debug, Clone, Copy, PartialEq, Eq, Structural)]
pub enum TaskStatus {
    Pending,
    Running,
    Success,
    Failed,
    Cancelled,
}

/// A status that no transition leaves.
pub open spec fn is_terminal(s: TaskStatus) -> bool {
    s == TaskStatus::Success || s == TaskStatus::Failed || s == TaskStatus::Cancelled
}

impl TaskStatus {
    /// Whether this status is one that no transition leaves.
    pub fn is_terminal(&self) -> (t: bool)
        ensures
            t == is_terminal(*self),
    {
        match self {
            TaskStatus::Success => true,
            TaskStatus::Failed => true,
            TaskStatus::Cancelled => true,
            TaskStatus::Pending => false,
            TaskStatus::Running => false,
        }
    }
}

/// One comment to post on one video.
#[derive(Debug)]
pub struct CommentTask {
    pub id: String,
    pub video: VideoItem,
    pub content: String,
    pub status: TaskStatus,
    pub error_msg: Option<String>,
    pub created_at: i64,
    pub completed_at: Option<i64>,
}

pub struct CommentTaskView {
    pub id: Seq<char>,
    pub video: VideoItemView,
    pub content: Seq<char>,
    pub status: TaskStatus,
    pub error_msg: Option<Seq<char>>,
    pub created_at: i64,
    pub completed_at: Option<i64>,
}

impl View for CommentTask {
    type V = CommentTaskView;

    open spec fn view(&self) -> CommentTaskView {
        CommentTaskView {
            id: self.id@,
            video: self.video@,
            content: self.content@,
            status: self.status,
            error_msg: opt_str_view(self.error_msg),
            created_at: self.created_at,
            completed_at: self.completed_at,
        }
    }
}

impl Clone for CommentTask {
    fn clone(&self) -> (r: Self)
        ensures
            r == *self,
    {
        CommentTask {
            id: self.id.clone(),
            video: self.video.clone(),
            content: self.content.clone(),
            status: self.status,
            error_msg: clone_opt_string(&self.error_msg),
            created_at: self.created_at,
            completed_at: self.completed_at,
        }
    }
}

/// The views of a list of tasks, in order.
pub open spec fn task_views(tasks: Seq<CommentTask>) -> Seq<CommentTaskView> {
    tasks.map_values(|t: CommentTask| t@)
}

/// What one submission attempt came to, as the remote call reports it.
#[derive(Debug)]
pub struct CommentResult {
    pub success: bool,
    pub rpid: Option<u64>,
    pub error_msg: Option<String>,
}

pub struct CommentResultView {
    pub success: bool,
    pub rpid: Option<u64>,
    pub error_msg: Option<Seq<char>>,
}

impl View for CommentResult {
    type V = CommentResultView;

    open spec fn view(&self) -> CommentResultView {
        CommentResultView {
            success: self.success,
            rpid: self.rpid,
            error_msg: opt_str_view(self.error_msg),
        }
    }
}

impl Clone for CommentResult {
    fn clone(&self) -> (r: Self)
        ensures
            r == *self,
    {
        CommentResult {
            success: self.success,
            rpid: self.rpid,
            error_msg: clone_opt_string(&self.error_msg),
        }
    }
}

/// A batch: the tasks submitted together, in execution order, and the
/// counters that summarise their progress.
#[derive(Debug)]
pub struct BatchStatus {
    pub batch_id: String,
    pub total: usize,
    pub completed: usize,
    pub success: usize,
    pub failed: usize,
    pub tasks: Vec<CommentTask>,
}

pub struct BatchView {
    pub batch_id: Seq<char>,
    pub total: nat,
    pub completed: nat,
    pub success: nat,
    pub failed: nat,
    pub tasks: Seq<CommentTaskView>,
}

impl View for BatchStatus {
    type V = BatchView;

    open spec fn view(&self) -> BatchView {
        BatchView {
            batch_id: self.batch_id@,
            total: self.total as nat,
            completed: self.completed as nat,
            success: self.success as nat,
            failed: self.failed as nat,
            tasks: task_views(self.tasks@),
        }
    }
}

impl Clone for BatchStatus {
    fn clone(&self) -> (r: Self)
        ensures
            r@ == self@,
    {
        let tasks = self.tasks.clone();
        assert(tasks@ =~= self.tasks@);
        BatchStatus {
            batch_id: self.batch_id.clone(),
            total: self.total,
            completed: self.completed,
            success: self.success,
            failed: self.failed,
            tasks,
        }
    }
}

} // verus!
