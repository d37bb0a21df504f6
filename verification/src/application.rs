use crate::configuration::{Configuration, ConfigurationView};
use crate::io::{seems_to_be_same, Likeness};
use crate::model::{children_of, excluded, EntryKind, Operation, StatusView, Trail, WalkView};
use crate::prompt::confirm;
use crate::protocol::{notice_view, Event, Fault, Notice, Request};
use crate::text::{copy_texts, text_of, texts};
use vstd::prelude::*;

verus! {

/// Where a walk stands.
enum Status {
    Awaiting(Operation),
    Finished,
    Failed(Fault),
}

impl View for Status {
    type V = StatusView;

    closed spec fn view(&self) -> StatusView {
        match self {
            Status::Awaiting(operation) => StatusView::Awaiting(*operation),
            Status::Finished => StatusView::Finished,
            Status::Failed(fault) => StatusView::Failed(fault@),
        }
    }
}

/// A list of places as plain mathematical values.
spec fn trails(list: Seq<Vec<String>>) -> Seq<Trail> {
    Seq::new(list.len(), |i: int| texts(list[i]@))
}

/// Tells whether a directory of this name is passed over.
pub fn is_excluded(name: &String) -> (pruned: bool)
    ensures
        pruned == excluded(name@),
{
    *name == String::from_str("node_modules") || *name == String::from_str(".git") || *name
        == String::from_str("dist") || *name == String::from_str("target") || *name
        == String::from_str(".svn")
}

/// The mirroring of one tree onto another, as far as it has come.
///
/// A walk does no work on the file system itself. It hands out one piece of
/// work at a time (`request`), takes the answer (`step`), and decides from it
/// what is counted, what is reported and what comes next. The places of the
/// source tree are visited depth first, a directory before what it holds.
pub struct Walk {
    config: Configuration,
    root_name: Option<String>,
    pending: Vec<Vec<String>>,
    current: Vec<String>,
    status: Status,
    affected: i32,
}

impl View for Walk {
    type V = WalkView;

    closed spec fn view(&self) -> WalkView {
        WalkView {
            config: self.config@,
            root_name: text_of(self.root_name),
            pending: trails(self.pending@),
            current: texts(self.current@),
            status: self.status@,
            affected: self.affected as nat,
        }
    }
}

impl Walk {
    #[verifier::type_invariant]
    spec fn counts_up(self) -> bool {
        self.affected >= 0
    }

    /// A walk that is about to inspect the source root. `root_name` is the
    /// name that the source root goes by, if it has one.
    pub fn begin(config: Configuration, root_name: Option<String>) -> (walk: Walk)
        ensures
            walk@ == WalkView::initial(config@, text_of(root_name)),
    {
        let walk = Walk {
            config,
            root_name,
            pending: Vec::new(),
            current: Vec::new(),
            status: Status::Awaiting(Operation::Inspect),
            affected: 0,
        };
        assert(trails(walk.pending@) =~= Seq::empty());
        assert(texts(walk.current@) =~= Seq::empty());
        walk
    }

    /// The settings that the walk was begun with.
    pub fn configuration(&self) -> (config: &Configuration)
        ensures
            config@ == self@.config,
    {
        &self.config
    }

    /// The files copied so far or, in a dry run, found in need of a copy.
    pub fn affected(&self) -> (count: i32)
        ensures
            count == self@.affected,
    {
        proof {
            use_type_invariant(self);
        }
        self.affected
    }

    /// What the walk wants next.
    pub fn request(&self) -> (request: Request)
        ensures
            request@ == self@.request(),
    {
        proof {
            use_type_invariant(self);
        }
        match &self.status {
            Status::Awaiting(operation) => Request::Perform {
                operation: *operation,
                relative: copy_texts(&self.current),
            },
            Status::Finished => Request::Finish { affected: self.affected },
            Status::Failed(fault) => Request::Abort {
                fault: Fault {
                    operation: fault.operation,
                    relative: copy_texts(&fault.relative),
                    detail: fault.detail.clone(),
                },
            },
        }
    }

    /// The work that has been handed out, if the walk has not ended.
    fn awaited(&self) -> (operation: Option<Operation>)
        ensures
            match operation {
                Some(operation) => self@.status == StatusView::Awaiting(operation),
                None => self@.ended(),
            },
    {
        match &self.status {
            Status::Awaiting(operation) => Some(*operation),
            _ => None,
        }
    }

    /// Whether the current place, if it is a directory, is passed over.
    fn is_pruned(&self) -> (pruned: bool)
        ensures
            pruned == self@.pruned(),
    {
        if self.current.len() == 0 {
            match &self.root_name {
                Some(name) => is_excluded(name),
                None => false,
            }
        } else {
            assert(texts(self.current@).last() == self.current@[self.current.len() - 1]@);
            is_excluded(&self.current[self.current.len() - 1])
        }
    }

    /// Hands out another piece of work on the current place.
    fn await_work(self, operation: Operation) -> (walk: Walk)
        ensures
            walk@ == self@.awaiting(operation),
    {
        proof {
            use_type_invariant(&self);
        }
        Walk { status: Status::Awaiting(operation), ..self }
    }

    /// Leaves the current place, counted or not, for the next pending one.
    fn settle(self, counted: bool) -> (walk: Walk)
        requires
            counted ==> self@.affected < i32::MAX,
        ensures
            walk@ == self@.settle(
                if counted {
                    1nat
                } else {
                    0nat
                },
            ),
    {
        proof {
            use_type_invariant(&self);
        }
        let affected = if counted {
            self.affected + 1
        } else {
            self.affected
        };
        let mut pending = self.pending;
        let ghost before = pending@;
        match pending.pop() {
            Some(next) => {
                assert(trails(pending@) =~= trails(before).drop_last());
                assert(texts(next@) == trails(before).last());
                Walk {
                    config: self.config,
                    root_name: self.root_name,
                    pending,
                    current: next,
                    status: Status::Awaiting(Operation::Inspect),
                    affected,
                }
            },
            None => {
                let current: Vec<String> = Vec::new();
                assert(texts(current@) =~= Seq::empty());
                Walk {
                    config: self.config,
                    root_name: self.root_name,
                    pending,
                    current,
                    status: Status::Finished,
                    affected,
                }
            },
        }
    }

    /// Ends the walk on a failure of the work that was handed out.
    fn fail(self, operation: Operation, detail: String) -> (walk: Walk)
        ensures
            walk@ == self@.fail(operation, detail@),
    {
        proof {
            use_type_invariant(&self);
        }
        let relative = copy_texts(&self.current);
        let pending: Vec<Vec<String>> = Vec::new();
        assert(trails(pending@) =~= Seq::empty());
        Walk {
            config: self.config,
            root_name: self.root_name,
            pending,
            current: self.current,
            status: Status::Failed(Fault { operation, relative, detail }),
            affected: self.affected,
        }
    }

    /// Puts the children of the current directory on the stack of pending
    /// places, the child named first on top.
    fn push_children(self, names: &Vec<String>) -> (walk: Walk)
        ensures
            walk@ == (WalkView {
                pending: self@.pending + children_of(self@.current, texts(names@)),
                ..self@
            }),
    {
        proof {
            use_type_invariant(&self);
        }
        let ghost all = children_of(texts(self.current@), texts(names@));
        let mut pending = self.pending;
        let ghost before = pending@;
        let mut left: usize = names.len();
        while left > 0
            invariant
                left <= names.len(),
                all == children_of(texts(self.current@), texts(names@)),
                trails(pending@) == trails(before) + all.take(names.len() - left),
            decreases left,
        {
            left -= 1;
            let ghost lower = pending@;
            let mut child = copy_texts(&self.current);
            let ghost stem = child@;
            child.push(names[left].clone());
            assert(texts(child@) =~= texts(stem).push(names@[left as int]@));
            assert(texts(child@) == all[names.len() - 1 - left]);
            pending.push(child);
            assert(trails(pending@) =~= trails(lower).push(texts(child@)));
            assert(trails(lower).push(texts(child@)) =~= trails(before) + all.take(
                names.len() - left,
            ));
        }
        assert(all.take(names.len() as int) =~= all);
        Walk {
            config: self.config,
            root_name: self.root_name,
            pending,
            current: self.current,
            status: self.status,
            affected: self.affected,
        }
    }

    /// The part of a step that walks the tree: it takes what was found at the
    /// current place, and what became of a directory's creation, probing and
    /// listing.
    ///
    /// A missing entry and one that is neither directory nor file are
    /// reported and passed over. So is, without a word, a directory with an
    /// excluded name. Any other directory is created at the destination
    /// unless this is a dry run, then listed, and its children visited before
    /// anything else that is pending. A file goes on to the reading of its
    /// records.
    fn find_file(self, operation: Operation, event: Event) -> (result: (Walk, Option<Notice>))
        requires
            self@.status == StatusView::Awaiting(operation),
            !(event is Failed),
            operation == Operation::Inspect || operation == Operation::CreateDirectory
                || operation == Operation::ProbeDestination || operation
                == Operation::ListDirectory,
        ensures
            result.0@ == self@.next(event@),
            notice_view(result.1) == self@.notice(event@),
    {
        match (operation, event) {
            (Operation::Inspect, Event::Found(kind)) => match kind {
                EntryKind::Missing => {
                    let relative = copy_texts(&self.current);
                    (self.settle(false), Some(Notice::MissingSource(relative)))
                },
                EntryKind::Other => {
                    let relative = copy_texts(&self.current);
                    (self.settle(false), Some(Notice::UnknownEntry(relative)))
                },
                EntryKind::File => (self.await_work(Operation::ReadStamps), None),
                EntryKind::Directory => {
                    if self.is_pruned() {
                        (self.settle(false), None)
                    } else if !self.config.dry_run {
                        let notice = if self.config.verbose {
                            Some(Notice::NewDirectory(copy_texts(&self.current)))
                        } else {
                            None
                        };
                        (self.await_work(Operation::CreateDirectory), notice)
                    } else if self.config.verbose {
                        (self.await_work(Operation::ProbeDestination), None)
                    } else {
                        (self.await_work(Operation::ListDirectory), None)
                    }
                },
            },
            (Operation::CreateDirectory, Event::Created) => (
                self.await_work(Operation::ListDirectory),
                None,
            ),
            (Operation::ProbeDestination, Event::Present(present)) => {
                let notice = if present {
                    None
                } else {
                    Some(Notice::NewDirectory(copy_texts(&self.current)))
                };
                (self.await_work(Operation::ListDirectory), notice)
            },
            (Operation::ListDirectory, Event::Children(names)) => (
                self.push_children(&names).settle(false),
                None,
            ),
            _ => (self, None),
        }
    }

    /// Deals with a file that was found in need of a copy.
    fn changed(self, present: bool) -> (result: (Walk, Option<Notice>))
        requires
            self@.affected < i32::MAX,
        ensures
            result.0@ == self@.changed(present),
            notice_view(result.1) == self@.would_update(),
    {
        if self.config.dry_run {
            let relative = copy_texts(&self.current);
            (self.settle(true), Some(Notice::WouldUpdate(relative)))
        } else if present {
            (self.await_work(Operation::Confirm), None)
        } else {
            (self.await_work(Operation::Copy), None)
        }
    }

    /// Deals with a file that was found unchanged.
    fn unchanged(self) -> (result: (Walk, Option<Notice>))
        ensures
            result.0@ == self@.settle(0),
            notice_view(result.1) == self@.ignored(),
    {
        let notice = if self.config.verbose {
            Some(Notice::Ignored(copy_texts(&self.current)))
        } else {
            None
        };
        (self.settle(false), notice)
    }

    /// The part of a step that deals with one file: it takes the records,
    /// the outcome of the comparison, the operator's answer and the copy.
    ///
    /// A file whose destination has the same length and modification time is
    /// left alone without a look at the contents; so is one whose contents
    /// prove equal. Any other file is counted as soon as it is copied, or, in
    /// a dry run, as soon as it is known to differ. Nothing is copied over an
    /// existing destination unless the operator agrees; a new destination
    /// takes no asking.
    fn file_handler(self, operation: Operation, event: Event) -> (result: (Walk, Option<Notice>))
        requires
            self@.status == StatusView::Awaiting(operation),
            self@.affected < i32::MAX,
            !(event is Failed),
            operation == Operation::ReadStamps || operation == Operation::CompareContents
                || operation == Operation::Confirm || operation == Operation::Copy,
        ensures
            result.0@ == self@.next(event@),
            notice_view(result.1) == self@.notice(event@),
    {
        match (operation, event) {
            (Operation::ReadStamps, Event::Stamps { source, destination }) => {
                match seems_to_be_same(&source, &destination) {
                    Likeness::Same => self.unchanged(),
                    Likeness::Absent => self.changed(false),
                    Likeness::Unsettled => (self.await_work(Operation::CompareContents), None),
                }
            },
            (Operation::CompareContents, Event::Contents(equal)) => {
                if equal {
                    self.unchanged()
                } else {
                    self.changed(true)
                }
            },
            (Operation::Confirm, Event::Answer(line)) => {
                if confirm(line.as_str()) {
                    (self.await_work(Operation::Copy), None)
                } else {
                    (self.settle(false), None)
                }
            },
            (Operation::Copy, Event::Copied(stamp)) => {
                let relative = copy_texts(&self.current);
                (self.settle(true), Some(Notice::Copied { relative, stamp }))
            },
            _ => (self, None),
        }
    }

    /// Takes the answer to the work that was handed out and moves the walk
    /// on. The result is the walk after the step and the line that the step
    /// adds to the report, if any.
    ///
    /// An event that does not answer the work handed out changes nothing, and
    /// neither does any event once the walk has ended. A failure ends the
    /// walk and gives up what is pending; only a failed question to the
    /// operator counts as a refusal and lets the walk go on.
    pub fn step(self, event: Event) -> (result: (Walk, Option<Notice>))
        requires
            self@.affected < i32::MAX,
        ensures
            result.0@ == self@.next(event@),
            notice_view(result.1) == self@.notice(event@),
    {
        let operation = match self.awaited() {
            Some(operation) => operation,
            None => {
                return (self, None);
            },
        };
        match event {
            Event::Failed(detail) => match operation {
                Operation::Confirm => (self.settle(false), None),
                _ => (self.fail(operation, detail), None),
            },
            _ => match operation {
                Operation::Inspect
                | Operation::CreateDirectory
                | Operation::ProbeDestination
                | Operation::ListDirectory => self.find_file(operation, event),
                _ => self.file_handler(operation, event),
            },
        }
    }
}

/// `std::path::Path::file_name`, which gives the last component of a path
/// when the path ends in a name. What counts as a component depends on the
/// platform, so nothing is claimed of the result.
#[verifier::external_body]
fn final_component(path: &str) -> (name: Option<String>) {
    match std::path::Path::new(path).file_name() {
        Some(name) => match name.to_str() {
            Some(text) => Some(text.to_string()),
            None => None,
        },
        None => None,
    }
}

/// The entry point of the library: it begins walks.
pub struct Application;

impl Application {
    pub fn new() -> Application {
        Application
    }

    /// Begins the mirroring of the tree at `source` onto the tree at
    /// `destination`.
    ///
    /// The walk that comes back has done nothing yet: it asks for the source
    /// root to be inspected. The root goes by the last component of `source`,
    /// as the platform reads paths.
    pub fn xcopy(self, source: &str, destination: &str, dry_run: bool, verbose: bool) -> (walk:
        Walk)
        ensures
            walk@ == WalkView::initial(
                ConfigurationView {
                    source_path: source@,
                    destination_path: destination@,
                    dry_run,
                    verbose,
                },
                walk@.root_name,
            ),
    {
        let config = Configuration::new(
            String::from_str(source),
            String::from_str(destination),
            dry_run,
            verbose,
        );
        Walk::begin(config, final_component(source))
    }
}

} // verus!
