//! On-demand operations: answers to a caller's queries, from what the caller
//! found on disk.
use vstd::prelude::*;
use vstd::string::{StrSliceExecFns, StringExecFns};
use crate::session::{Notice, NoticeView, notice_views, opt_view};

verus! {

/// File name of the live log.
pub open spec fn log_file_name() -> Seq<char> {
    "latest.log"@
}

/// A failure of an on-demand operation.
#[derive(Debug, PartialEq, Eq)]
pub enum LogError {
    /// None of the candidate paths exists.
    NotFound,
    /// The path handed in does not exist.
    FileMissing,
    /// The file exists but could not be read; holds the reason.
    ReadFailed(String),
}

/// The mathematical value of an error.
pub enum LogErrorView {
    NotFound,
    FileMissing,
    ReadFailed(Seq<char>),
}

impl View for LogError {
    type V = LogErrorView;

    open spec fn view(&self) -> LogErrorView {
        match self {
            LogError::NotFound => LogErrorView::NotFound,
            LogError::FileMissing => LogErrorView::FileMissing,
            LogError::ReadFailed(r) => LogErrorView::ReadFailed(r@),
        }
    }
}

/// The text shown for an error.
pub open spec fn error_message(e: LogErrorView) -> Seq<char> {
    match e {
        LogErrorView::NotFound => "Could not find Minecraft log file"@,
        LogErrorView::FileMissing => "File not found"@,
        LogErrorView::ReadFailed(r) => "Failed to read log: "@ + r,
    }
}

impl LogError {
    /// The text shown for this error.
    pub fn message(&self) -> (r: String)
        ensures
            r@ == error_message(self@),
    {
        match self {
            LogError::NotFound => String::from_str("Could not find Minecraft log file"),
            LogError::FileMissing => String::from_str("File not found"),
            LogError::ReadFailed(reason) => {
                let mut m = String::from_str("Failed to read log: ");
                m.append(reason.as_str());
                m
            },
        }
    }
}

/// Whether a file name is the log's.
pub fn is_log_name(name: &str) -> (r: bool)
    ensures
        r == (name@ == log_file_name()),
{
    let expected = "latest.log";
    proof {
        reveal_strlit("latest.log");
        assert(expected@ == log_file_name());
    }
    let n = name.unicode_len();
    if n != expected.unicode_len() {
        return false;
    }
    let mut i: usize = 0;
    while i < n
        invariant
            i <= n,
            n == name@.len(),
            n == expected@.len(),
            expected@ == log_file_name(),
            forall|j: int| 0 <= j < i ==> name@[j] == expected@[j],
        decreases n - i,
    {
        if name.get_char(i) != expected.get_char(i) {
            assert(name@[i as int] != log_file_name()[i as int]);
            return false;
        }
        i = i + 1;
    }
    assert(name@ =~= expected@);
    true
}

/// Whether a change signal that names these files concerns the log.
pub fn names_log(names: &Vec<String>) -> (r: bool)
    ensures
        r == exists|i: int| 0 <= i < names@.len() && #[trigger] names@[i]@ == log_file_name(),
{
    let mut i: usize = 0;
    while i < names.len()
        invariant
            i <= names@.len(),
            forall|j: int| 0 <= j < i ==> #[trigger] names@[j]@ != log_file_name(),
        decreases names@.len() - i,
    {
        if is_log_name(names[i].as_str()) {
            return true;
        }
        i = i + 1;
    }
    false
}

/// The located log path as an answer: `NotFound` where none was located.
pub fn location_result(found: Option<String>) -> (r: Result<String, LogError>)
    ensures
        match found {
            Some(p) => r is Ok && r->Ok_0@ == p@,
            None => r is Err && r->Err_0@ == LogErrorView::NotFound,
        },
{
    match found {
        Some(p) => Ok(p),
        None => Err(LogError::NotFound),
    }
}

/// The log's content as an answer, from the lookup (`None`: nothing located)
/// and the read of the located file (`Err` holds the reason it failed).
pub fn content_result(read: Option<Result<String, String>>) -> (r: Result<String, LogError>)
    ensures
        match read {
            None => r is Err && r->Err_0@ == LogErrorView::NotFound,
            Some(Ok(c)) => r is Ok && r->Ok_0@ == c@,
            Some(Err(reason)) => r is Err && r->Err_0@ == LogErrorView::ReadFailed(reason@),
        },
{
    match read {
        None => Err(LogError::NotFound),
        Some(Ok(c)) => Ok(c),
        Some(Err(reason)) => Err(LogError::ReadFailed(reason)),
    }
}

/// The notices that announce a path the caller supplied: its location, then
/// its content where it could be read.
pub open spec fn announce_spec(path: Seq<char>, content: Option<Seq<char>>) -> Seq<NoticeView> {
    match content {
        Some(c) => seq![NoticeView::Location(path), NoticeView::Content(c)],
        None => seq![NoticeView::Location(path)],
    }
}

/// Announces a path the caller supplied, given whether it exists and its
/// content where it could be read: `FileMissing` if it does not exist.
pub fn announce(path: String, exists: bool, content: Option<String>) -> (r: Result<
    Vec<Notice>,
    LogError,
>)
    ensures
        !exists ==> r is Err && r->Err_0@ == LogErrorView::FileMissing,
        exists ==> r is Ok && notice_views(r->Ok_0@) == announce_spec(path@, opt_view(content)),
{
    if !exists {
        return Err(LogError::FileMissing);
    }
    let ghost cv = opt_view(content);
    let ghost pv = path@;
    let mut notices: Vec<Notice> = Vec::new();
    notices.push(Notice::Location(path));
    match content {
        Some(c) => notices.push(Notice::Content(c)),
        None => {},
    }
    assert(notice_views(notices@) =~= announce_spec(pv, cv));
    Ok(notices)
}

} // verus!
