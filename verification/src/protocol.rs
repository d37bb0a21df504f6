use crate::io::FileStamp;
use crate::model::{EntryKind, EventView, FaultView, NoticeView, Operation, RequestView};
use crate::text::texts;
use vstd::prelude::*;

verus! {

/// The answer to the piece of work that a walk handed out.
#[derive(Clone, Debug, PartialEq, Eq)]
pub enum Event {
    /// To `Inspect`: what stands at the source place.
    Found(EntryKind),
    /// To `CreateDirectory`: the destination directory is there.
    Created,
    /// To `ProbeDestination`: whether the destination directory exists.
    Present(bool),
    /// To `ListDirectory`: the names of the children, in the order in which
    /// they are to be visited.
    Children(Vec<String>),
    /// To `ReadStamps`: the record of the source file, and that of the
    /// destination file unless there is none.
    Stamps { source: FileStamp, destination: Option<FileStamp> },
    /// To `CompareContents`: whether the two files hold the same bytes.
    Contents(bool),
    /// To `Confirm`: the line that the operator typed.
    Answer(String),
    /// To `Copy`: the record of the destination file after the copy.
    Copied(FileStamp),
    /// To any: the work could not be done, and why.
    Failed(String),
}

impl View for Event {
    type V = EventView;

    open spec fn view(&self) -> EventView {
        match self {
            Event::Found(kind) => EventView::Found(*kind),
            Event::Created => EventView::Created,
            Event::Present(present) => EventView::Present(*present),
            Event::Children(names) => EventView::Children(texts(names@)),
            Event::Stamps { source, destination } => EventView::Stamps {
                source: *source,
                destination: *destination,
            },
            Event::Contents(equal) => EventView::Contents(*equal),
            Event::Answer(line) => EventView::Answer(line@),
            Event::Copied(stamp) => EventView::Copied(*stamp),
            Event::Failed(detail) => EventView::Failed(detail@),
        }
    }
}

/// A line for the report. Each names the place it is about.
#[derive(Clone, Debug, PartialEq, Eq)]
pub enum Notice {
    /// Nothing stands at the source place.
    MissingSource(Vec<String>),
    /// What stands at the source place is neither a directory nor a file.
    UnknownEntry(Vec<String>),
    /// The destination directory is being created or, in a dry run, would be.
    NewDirectory(Vec<String>),
    /// The file is unchanged and left alone.
    Ignored(Vec<String>),
    /// The file would be copied if this were no dry run.
    WouldUpdate(Vec<String>),
    /// The file has been copied; the record is that of the destination.
    Copied { relative: Vec<String>, stamp: FileStamp },
}

impl View for Notice {
    type V = NoticeView;

    open spec fn view(&self) -> NoticeView {
        match self {
            Notice::MissingSource(relative) => NoticeView::MissingSource(texts(relative@)),
            Notice::UnknownEntry(relative) => NoticeView::UnknownEntry(texts(relative@)),
            Notice::NewDirectory(relative) => NoticeView::NewDirectory(texts(relative@)),
            Notice::Ignored(relative) => NoticeView::Ignored(texts(relative@)),
            Notice::WouldUpdate(relative) => NoticeView::WouldUpdate(texts(relative@)),
            Notice::Copied { relative, stamp } => NoticeView::Copied {
                relative: texts(relative@),
                stamp: *stamp,
            },
        }
    }
}

/// A notice that may be missing, as plain mathematical values.
pub open spec fn notice_view(notice: Option<Notice>) -> Option<NoticeView> {
    match notice {
        Some(notice) => Some(notice@),
        None => None,
    }
}

/// The failure that ended a walk: the work that failed, the place it was
/// about, and the reason as the file system gave it.
#[derive(Clone, Debug, PartialEq, Eq)]
pub struct Fault {
    pub operation: Operation,
    pub relative: Vec<String>,
    pub detail: String,
}

impl View for Fault {
    type V = FaultView;

    open spec fn view(&self) -> FaultView {
        FaultView {
            operation: self.operation,
            relative: texts(self.relative@),
            detail: self.detail@,
        }
    }
}

/// What a walk wants next.
#[derive(Clone, Debug, PartialEq, Eq)]
pub enum Request {
    /// A piece of work on the place `relative`, below the source root for
    /// what is read and below the destination root for what is written.
    Perform { operation: Operation, relative: Vec<String> },
    /// Nothing: the walk is complete, and this many files were affected.
    Finish { affected: i32 },
    /// Nothing: the walk has failed.
    Abort { fault: Fault },
}

impl View for Request {
    type V = RequestView;

    open spec fn view(&self) -> RequestView {
        match self {
            Request::Perform { operation, relative } => RequestView::Perform {
                operation: *operation,
                relative: texts(relative@),
            },
            Request::Finish { affected } => RequestView::Finish { affected: *affected as int },
            Request::Abort { fault } => RequestView::Abort { fault: fault@ },
        }
    }
}

} // verus!
