use crate::configuration::ConfigurationView;
use crate::io::{likeness, FileStamp, Likeness};
use crate::prompt::affirmative;
use vstd::prelude::*;

verus! {

/// A place below the two roots: the names to follow from a root, outermost
/// first. The empty trail is the root itself.
pub type Trail = Seq<Seq<char>>;

/// The work that the walk asks of the file system and of the operator, one
/// piece at a time.
#[derive(Clone, Copy, Debug, PartialEq, Eq, Structural)]
pub enum Operation {
    /// Find out what stands at the source place.
    Inspect,
    /// Create the destination directory with every missing ancestor.
    CreateDirectory,
    /// Find out whether the destination directory exists.
    ProbeDestination,
    /// Name the immediate children of the source directory.
    ListDirectory,
    /// Read the records of the source file and of the destination file.
    ReadStamps,
    /// Compare the contents of the two files byte for byte.
    CompareContents,
    /// Ask the operator whether the destination file may be overwritten.
    Confirm,
    /// Copy the source file over the destination file and read the record
    /// that the destination file then has. A pause of `PACING_MILLIS`
    /// follows every copy.
    Copy,
}

/// What the file system finds at a place.
#[derive(Clone, Copy, Debug, PartialEq, Eq, Structural)]
pub enum EntryKind {
    /// Nothing is there.
    Missing,
    Directory,
    /// A regular file.
    File,
    /// Anything else: a link, a device, a socket.
    Other,
}

/// The pause, in milliseconds, that follows every copy. It keeps the
/// modification times of files copied in quick succession apart.
pub const PACING_MILLIS: u64 = 1;

/// The directories that are never copied, by name.
pub open spec fn excluded(name: Seq<char>) -> bool {
    ||| name == "node_modules"@
    ||| name == ".git"@
    ||| name == "dist"@
    ||| name == "target"@
    ||| name == ".svn"@
}

/// The places of the children of `parent`, the child listed first at the end:
/// on a stack that is taken from its end, the children come off in the order
/// in which they were listed.
pub open spec fn children_of(parent: Trail, names: Seq<Seq<char>>) -> Seq<Trail> {
    Seq::new(names.len(), |i: int| parent.push(names[names.len() - 1 - i]))
}

/// An answer to a piece of work, as plain mathematical values.
pub enum EventView {
    Found(EntryKind),
    Created,
    Present(bool),
    Children(Seq<Seq<char>>),
    Stamps { source: FileStamp, destination: Option<FileStamp> },
    Contents(bool),
    Answer(Seq<char>),
    Copied(FileStamp),
    Failed(Seq<char>),
}

/// A line for the report, as plain mathematical values.
pub enum NoticeView {
    MissingSource(Trail),
    UnknownEntry(Trail),
    NewDirectory(Trail),
    Ignored(Trail),
    WouldUpdate(Trail),
    Copied { relative: Trail, stamp: FileStamp },
}

/// A failure that ended a walk, as plain mathematical values.
pub struct FaultView {
    pub operation: Operation,
    pub relative: Trail,
    pub detail: Seq<char>,
}

/// What a walk wants next, as plain mathematical values.
pub enum RequestView {
    Perform { operation: Operation, relative: Trail },
    Finish { affected: int },
    Abort { fault: FaultView },
}

/// Where a walk stands.
pub enum StatusView {
    /// A piece of work on the current place has been handed out.
    Awaiting(Operation),
    /// Every place has been dealt with.
    Finished,
    /// A failure has ended the walk.
    Failed(FaultView),
}

/// A walk as plain mathematical values.
pub struct WalkView {
    pub config: ConfigurationView,
    /// The name that the source root goes by, if it has one.
    pub root_name: Option<Seq<char>>,
    /// The places still to visit. The next one is at the end.
    pub pending: Seq<Trail>,
    /// The place that is being dealt with.
    pub current: Trail,
    pub status: StatusView,
    /// The files copied so far or, in a dry run, found in need of a copy.
    pub affected: nat,
}

impl WalkView {
    /// The walk before anything has been asked: it is about to inspect the
    /// source root.
    pub open spec fn initial(config: ConfigurationView, root_name: Option<Seq<char>>) -> WalkView {
        WalkView {
            config,
            root_name,
            pending: Seq::empty(),
            current: Seq::empty(),
            status: StatusView::Awaiting(Operation::Inspect),
            affected: 0,
        }
    }

    /// Whether the walk has come to its end, one way or the other.
    pub open spec fn ended(self) -> bool {
        !(self.status is Awaiting)
    }

    /// The name of the entry at the current place: the last name of the
    /// trail, and for the root the name it goes by.
    pub open spec fn name(self) -> Option<Seq<char>> {
        if self.current.len() == 0 {
            self.root_name
        } else {
            Some(self.current.last())
        }
    }

    /// Whether the current place, if it is a directory, is passed over.
    pub open spec fn pruned(self) -> bool {
        self.name() matches Some(name) && excluded(name)
    }

    /// The walk with another piece of work handed out on the current place.
    pub open spec fn awaiting(self, operation: Operation) -> WalkView {
        WalkView { status: StatusView::Awaiting(operation), ..self }
    }

    /// The walk done with the current place, which added `gain` to the count:
    /// it turns to the next pending place, and is finished if there is none.
    pub open spec fn settle(self, gain: nat) -> WalkView {
        if self.pending.len() == 0 {
            WalkView {
                current: Seq::empty(),
                status: StatusView::Finished,
                affected: self.affected + gain,
                ..self
            }
        } else {
            WalkView {
                pending: self.pending.drop_last(),
                current: self.pending.last(),
                status: StatusView::Awaiting(Operation::Inspect),
                affected: self.affected + gain,
                ..self
            }
        }
    }

    /// The walk ended by a failure of the work that was handed out. The
    /// places still pending are given up.
    pub open spec fn fail(self, operation: Operation, detail: Seq<char>) -> WalkView {
        WalkView {
            pending: Seq::empty(),
            status: StatusView::Failed(
                FaultView { operation, relative: self.current, detail },
            ),
            ..self
        }
    }

    /// The walk after it has learnt what stands at the current place.
    pub open spec fn inspected(self, kind: EntryKind) -> WalkView {
        match kind {
            EntryKind::Missing => self.settle(0),
            EntryKind::Other => self.settle(0),
            EntryKind::File => self.awaiting(Operation::ReadStamps),
            EntryKind::Directory => if self.pruned() {
                self.settle(0)
            } else if !self.config.dry_run {
                self.awaiting(Operation::CreateDirectory)
            } else if self.config.verbose {
                self.awaiting(Operation::ProbeDestination)
            } else {
                self.awaiting(Operation::ListDirectory)
            },
        }
    }

    /// The walk after the children of the current directory have been named:
    /// they are pending, the first one is next, and after the last one comes
    /// what was pending before.
    pub open spec fn descend(self, names: Seq<Seq<char>>) -> WalkView {
        WalkView { pending: self.pending + children_of(self.current, names), ..self }.settle(0)
    }

    /// The walk after the current file has been found in need of a copy.
    /// `present` tells whether the destination file exists. A dry run counts
    /// the file and moves on; otherwise an existing destination needs the
    /// operator's consent and a new one is copied at once.
    pub open spec fn changed(self, present: bool) -> WalkView {
        if self.config.dry_run {
            self.settle(1)
        } else if present {
            self.awaiting(Operation::Confirm)
        } else {
            self.awaiting(Operation::Copy)
        }
    }

    /// The walk after the records of the current file and of its destination
    /// have been read.
    pub open spec fn judged(self, source: FileStamp, destination: Option<FileStamp>) -> WalkView {
        match likeness(source, destination) {
            Likeness::Same => self.settle(0),
            Likeness::Absent => self.changed(false),
            Likeness::Unsettled => self.awaiting(Operation::CompareContents),
        }
    }

    /// The step from one state of the walk to the next, on an event.
    ///
    /// An event moves the walk only if it answers the work that was handed
    /// out; any other event leaves the walk as it is, and so does every event
    /// once the walk has ended. A failure ends the walk, except that of a
    /// question to the operator, which counts as a refusal.
    pub open spec fn next(self, event: EventView) -> WalkView {
        match (self.status, event) {
            (StatusView::Awaiting(Operation::Confirm), EventView::Failed(_)) => self.settle(0),
            (StatusView::Awaiting(operation), EventView::Failed(detail)) => self.fail(
                operation,
                detail,
            ),
            (StatusView::Awaiting(Operation::Inspect), EventView::Found(kind)) => self.inspected(
                kind,
            ),
            (StatusView::Awaiting(Operation::CreateDirectory), EventView::Created) => self.awaiting(
                Operation::ListDirectory,
            ),
            (
                StatusView::Awaiting(Operation::ProbeDestination),
                EventView::Present(_),
            ) => self.awaiting(Operation::ListDirectory),
            (
                StatusView::Awaiting(Operation::ListDirectory),
                EventView::Children(names),
            ) => self.descend(names),
            (
                StatusView::Awaiting(Operation::ReadStamps),
                EventView::Stamps { source, destination },
            ) => self.judged(source, destination),
            (
                StatusView::Awaiting(Operation::CompareContents),
                EventView::Contents(equal),
            ) => if equal {
                self.settle(0)
            } else {
                self.changed(true)
            },
            (StatusView::Awaiting(Operation::Confirm), EventView::Answer(line)) => if affirmative(
                line,
            ) {
                self.awaiting(Operation::Copy)
            } else {
                self.settle(0)
            },
            (StatusView::Awaiting(Operation::Copy), EventView::Copied(_)) => self.settle(1),
            _ => self,
        }
    }

    /// The walk after a sequence of events, taken one by one.
    pub open spec fn run(self, events: Seq<EventView>) -> WalkView
        decreases events.len(),
    {
        if events.len() == 0 {
            self
        } else {
            self.run(events.drop_last()).next(events.last())
        }
    }

    /// The line that a step adds to the report, if it adds one.
    pub open spec fn notice(self, event: EventView) -> Option<NoticeView> {
        match (self.status, event) {
            (StatusView::Awaiting(Operation::Inspect), EventView::Found(kind)) => match kind {
                EntryKind::Missing => Some(NoticeView::MissingSource(self.current)),
                EntryKind::Other => Some(NoticeView::UnknownEntry(self.current)),
                EntryKind::File => None,
                EntryKind::Directory => if !self.pruned() && !self.config.dry_run
                    && self.config.verbose {
                    Some(NoticeView::NewDirectory(self.current))
                } else {
                    None
                },
            },
            (
                StatusView::Awaiting(Operation::ProbeDestination),
                EventView::Present(present),
            ) => if present {
                None
            } else {
                Some(NoticeView::NewDirectory(self.current))
            },
            (
                StatusView::Awaiting(Operation::ReadStamps),
                EventView::Stamps { source, destination },
            ) => match likeness(source, destination) {
                Likeness::Same => self.ignored(),
                Likeness::Absent => self.would_update(),
                Likeness::Unsettled => None,
            },
            (
                StatusView::Awaiting(Operation::CompareContents),
                EventView::Contents(equal),
            ) => if equal {
                self.ignored()
            } else {
                self.would_update()
            },
            (StatusView::Awaiting(Operation::Copy), EventView::Copied(stamp)) => Some(
                NoticeView::Copied { relative: self.current, stamp },
            ),
            _ => None,
        }
    }

    /// The line for a file that is left alone: only a verbose run has one.
    pub open spec fn ignored(self) -> Option<NoticeView> {
        if self.config.verbose {
            Some(NoticeView::Ignored(self.current))
        } else {
            None
        }
    }

    /// The line for a file in need of a copy: only a dry run has one, in
    /// place of the copy.
    pub open spec fn would_update(self) -> Option<NoticeView> {
        if self.config.dry_run {
            Some(NoticeView::WouldUpdate(self.current))
        } else {
            None
        }
    }

    /// What the walk wants next: a piece of work on the current place, or
    /// nothing more.
    pub open spec fn request(self) -> RequestView {
        match self.status {
            StatusView::Awaiting(operation) => RequestView::Perform {
                operation,
                relative: self.current,
            },
            StatusView::Finished => RequestView::Finish { affected: self.affected as int },
            StatusView::Failed(fault) => RequestView::Abort { fault },
        }
    }
}

} // verus!
