use crate::configuration::ConfigurationView;
use crate::io::{likeness, FileStamp, Likeness};
use crate::model::{
    children_of, excluded, EntryKind, EventView, Operation, RequestView, StatusView, Trail,
    WalkView,
};
use crate::prompt::affirmative;
use vstd::prelude::*;

verus! {

/// What the file system and the operator have to say about one file of the
/// source tree.
pub struct FileFacts {
    /// The record of the source file.
    pub source: FileStamp,
    /// The record of the destination file, unless there is none.
    pub destination: Option<FileStamp>,
    /// Whether the two files hold the same bytes.
    pub same_contents: bool,
    /// The line that the operator types when asked about this file.
    pub answer: Seq<char>,
    /// The record of the destination file once the file has been copied.
    pub copied: FileStamp,
}

/// What becomes of a file that the walk visits.
pub enum Fate {
    /// It is taken to be unchanged and left alone.
    Unchanged,
    /// It has changed, and the operator does not let it be overwritten.
    Declined,
    /// It has changed and is copied or, in a dry run, reported.
    Counted,
}

impl FileFacts {
    /// Whether the file is in need of a copy: it has no destination, or the
    /// records differ and so do the contents.
    pub open spec fn differs(self) -> bool {
        match likeness(self.source, self.destination) {
            Likeness::Same => false,
            Likeness::Absent => true,
            Likeness::Unsettled => !self.same_contents,
        }
    }

    /// Whether the operator is asked about the file: it is in need of a copy
    /// over an existing destination, and this is no dry run.
    pub open spec fn asked(self, config: ConfigurationView) -> bool {
        self.differs() && !config.dry_run && self.destination is Some
    }

    pub open spec fn fate(self, config: ConfigurationView) -> Fate {
        if !self.differs() {
            Fate::Unchanged
        } else if self.asked(config) && !affirmative(self.answer) {
            Fate::Declined
        } else {
            Fate::Counted
        }
    }
}

/// What stands at one place of a source tree, with all that the file system
/// would answer about it and about what lies below it.
pub enum Entry {
    Missing,
    Other,
    File(FileFacts),
    /// A directory: whether it exists at the destination, and its children
    /// in the order in which they are listed.
    Directory { present: bool, children: Seq<Node> },
}

/// A child of a directory: its name and what stands there.
pub struct Node {
    pub name: Seq<char>,
    pub entry: Entry,
}

/// The names of the children of a directory, in order.
pub open spec fn names_of(children: Seq<Node>) -> Seq<Seq<char>> {
    Seq::new(children.len(), |i: int| children[i].name)
}

/// The number of files with a given fate that a walk comes across at an entry
/// and below it. `pruned` tells whether the entry, if it is a directory, is
/// passed over.
pub open spec fn files_of_fate(
    entry: Entry,
    pruned: bool,
    config: ConfigurationView,
    fate: Fate,
) -> nat
    decreases entry,
{
    match entry {
        Entry::Missing => 0,
        Entry::Other => 0,
        Entry::File(facts) => if facts.fate(config) == fate {
            1
        } else {
            0
        },
        Entry::Directory { present, children } => if pruned {
            0
        } else {
            files_of_fate_among(children, config, fate)
        },
    }
}

/// The number of files with a given fate at the children of a directory and
/// below them.
pub open spec fn files_of_fate_among(
    children: Seq<Node>,
    config: ConfigurationView,
    fate: Fate,
) -> nat
    decreases children,
{
    if children.len() == 0 {
        0
    } else {
        files_of_fate(children[0].entry, excluded(children[0].name), config, fate)
            + files_of_fate_among(children.drop_first(), config, fate)
    }
}

/// The number of files in need of a copy that a walk comes across at an entry
/// and below it.
pub open spec fn changed_files(entry: Entry, pruned: bool) -> nat
    decreases entry,
{
    match entry {
        Entry::Missing => 0,
        Entry::Other => 0,
        Entry::File(facts) => if facts.differs() {
            1
        } else {
            0
        },
        Entry::Directory { present, children } => if pruned {
            0
        } else {
            changed_files_among(children)
        },
    }
}

/// The number of files in need of a copy at the children of a directory and
/// below them.
pub open spec fn changed_files_among(children: Seq<Node>) -> nat
    decreases children,
{
    if children.len() == 0 {
        0
    } else {
        changed_files(children[0].entry, excluded(children[0].name)) + changed_files_among(
            children.drop_first(),
        )
    }
}

/// One turn of the talk between a walk and the file system: the work asked
/// for, the place it is about, and the answer.
pub struct Exchange {
    pub operation: Operation,
    pub relative: Trail,
    pub event: EventView,
}

/// The answers of a talk, in order.
pub open spec fn events_of(talk: Seq<Exchange>) -> Seq<EventView> {
    Seq::new(talk.len(), |i: int| talk[i].event)
}

/// The talk about one file at `place`: the records are read; the contents are
/// compared if the records leave the matter open; the operator is asked if a
/// copy would overwrite something; the file is copied if it is in need of a
/// copy and nothing stands against it.
pub open spec fn file_talk(facts: FileFacts, place: Trail, config: ConfigurationView) -> Seq<
    Exchange,
> {
    let records = seq![
        Exchange {
            operation: Operation::Inspect,
            relative: place,
            event: EventView::Found(EntryKind::File),
        },
        Exchange {
            operation: Operation::ReadStamps,
            relative: place,
            event: EventView::Stamps { source: facts.source, destination: facts.destination },
        },
    ];
    let contents = if likeness(facts.source, facts.destination) == Likeness::Unsettled {
        seq![
            Exchange {
                operation: Operation::CompareContents,
                relative: place,
                event: EventView::Contents(facts.same_contents),
            },
        ]
    } else {
        Seq::empty()
    };
    let consent = if facts.asked(config) {
        seq![
            Exchange {
                operation: Operation::Confirm,
                relative: place,
                event: EventView::Answer(facts.answer),
            },
        ]
    } else {
        Seq::empty()
    };
    let copy = if facts.fate(config) == Fate::Counted && !config.dry_run {
        seq![
            Exchange {
                operation: Operation::Copy,
                relative: place,
                event: EventView::Copied(facts.copied),
            },
        ]
    } else {
        Seq::empty()
    };
    records + contents + consent + copy
}

/// The talk on arriving at a directory that is not passed over: it is
/// created unless this is a dry run, and probed in a dry run that is verbose.
pub open spec fn arrival_talk(present: bool, place: Trail, config: ConfigurationView) -> Seq<
    Exchange,
> {
    if !config.dry_run {
        seq![
            Exchange {
                operation: Operation::CreateDirectory,
                relative: place,
                event: EventView::Created,
            },
        ]
    } else if config.verbose {
        seq![
            Exchange {
                operation: Operation::ProbeDestination,
                relative: place,
                event: EventView::Present(present),
            },
        ]
    } else {
        Seq::empty()
    }
}

/// The whole talk about the entry at `place` and what lies below it, with a
/// file system that holds this entry there.
pub open spec fn talk(entry: Entry, place: Trail, pruned: bool, config: ConfigurationView) -> Seq<
    Exchange,
>
    decreases entry,
{
    match entry {
        Entry::Missing => seq![
            Exchange {
                operation: Operation::Inspect,
                relative: place,
                event: EventView::Found(EntryKind::Missing),
            },
        ],
        Entry::Other => seq![
            Exchange {
                operation: Operation::Inspect,
                relative: place,
                event: EventView::Found(EntryKind::Other),
            },
        ],
        Entry::File(facts) => file_talk(facts, place, config),
        Entry::Directory { present, children } => {
            let found = seq![
                Exchange {
                    operation: Operation::Inspect,
                    relative: place,
                    event: EventView::Found(EntryKind::Directory),
                },
            ];
            let listed = seq![
                Exchange {
                    operation: Operation::ListDirectory,
                    relative: place,
                    event: EventView::Children(names_of(children)),
                },
            ];
            if pruned {
                found
            } else {
                found + arrival_talk(present, place, config) + listed + talk_among(
                    children,
                    place,
                    config,
                )
            }
        },
    }
}

/// The talk about the children of the directory at `parent`, one after the
/// other, each with what lies below it.
pub open spec fn talk_among(children: Seq<Node>, parent: Trail, config: ConfigurationView) -> Seq<
    Exchange,
>
    decreases children,
{
    if children.len() == 0 {
        Seq::empty()
    } else {
        talk(
            children[0].entry,
            parent.push(children[0].name),
            excluded(children[0].name),
            config,
        ) + talk_among(children.drop_first(), parent, config)
    }
}

/// Whether a walk holds a talk and comes out of it as `end`: at every turn
/// the walk asks for just the work of that turn, at that place, and the
/// answers of all turns take it to `end`.
pub open spec fn conducts(walk: WalkView, talk: Seq<Exchange>, end: WalkView) -> bool {
    &&& forall|i: int|
        0 <= i < talk.len() ==> #[trigger] walk.run(events_of(talk).take(i)).request()
            == (RequestView::Perform { operation: talk[i].operation, relative: talk[i].relative })
    &&& walk.run(events_of(talk)) == end
}

/// A run over two sequences of events is the run over the first followed by
/// the run over the second.
pub proof fn run_in_two(walk: WalkView, first: Seq<EventView>, second: Seq<EventView>)
    ensures
        walk.run(first + second) == walk.run(first).run(second),
    decreases second.len(),
{
    if second.len() == 0 {
        assert(first + second =~= first);
    } else {
        run_in_two(walk, first, second.drop_last());
        assert((first + second).drop_last() =~= first + second.drop_last());
    }
}

/// A walk holds the empty talk and stays as it is.
proof fn conducts_nothing(walk: WalkView)
    ensures
        conducts(walk, Seq::empty(), walk),
{
    assert(events_of(Seq::<Exchange>::empty()) =~= Seq::empty());
}

/// A walk that asks for the work of a turn holds the talk of that one turn.
proof fn conducts_one(walk: WalkView, turn: Exchange)
    requires
        walk.request() == (RequestView::Perform {
            operation: turn.operation,
            relative: turn.relative,
        }),
    ensures
        conducts(walk, seq![turn], walk.next(turn.event)),
{
    let events = events_of(seq![turn]);
    assert(events =~= seq![turn.event]);
    assert(events.drop_last() =~= Seq::empty());
    assert(walk.run(events) == walk.run(events.drop_last()).next(events.last()));
    assert(events.take(0) =~= Seq::empty());
}

/// Two talks held one after the other make one talk.
proof fn conducts_both(
    walk: WalkView,
    first: Seq<Exchange>,
    between: WalkView,
    second: Seq<Exchange>,
    end: WalkView,
)
    requires
        conducts(walk, first, between),
        conducts(between, second, end),
    ensures
        conducts(walk, first + second, end),
{
    let whole = first + second;
    assert(events_of(whole) =~= events_of(first) + events_of(second));
    run_in_two(walk, events_of(first), events_of(second));
    assert forall|i: int| 0 <= i < whole.len() implies #[trigger] walk.run(
        events_of(whole).take(i),
    ).request() == (RequestView::Perform {
        operation: whole[i].operation,
        relative: whole[i].relative,
    }) by {
        if i < first.len() {
            assert(events_of(whole).take(i) =~= events_of(first).take(i));
        } else {
            let rest = i - first.len();
            assert(events_of(whole).take(i) =~= events_of(first) + events_of(second).take(rest));
            run_in_two(walk, events_of(first), events_of(second).take(rest));
            assert(whole[i] == second[rest]);
        }
    }
}

/// The talk about one file, held by a walk that is about to inspect it,
/// leaves the walk done with the file, which is counted if that is its fate.
proof fn file_is_dealt_with(walk: WalkView, facts: FileFacts)
    requires
        walk.status == StatusView::Awaiting(Operation::Inspect),
    ensures
        conducts(
            walk,
            file_talk(facts, walk.current, walk.config),
            walk.settle(
                if facts.fate(walk.config) == Fate::Counted {
                    1nat
                } else {
                    0nat
                },
            ),
        ),
{
    let place = walk.current;
    let config = walk.config;
    let found = Exchange {
        operation: Operation::Inspect,
        relative: place,
        event: EventView::Found(EntryKind::File),
    };
    let read = Exchange {
        operation: Operation::ReadStamps,
        relative: place,
        event: EventView::Stamps { source: facts.source, destination: facts.destination },
    };
    let compared = Exchange {
        operation: Operation::CompareContents,
        relative: place,
        event: EventView::Contents(facts.same_contents),
    };
    let answered = Exchange {
        operation: Operation::Confirm,
        relative: place,
        event: EventView::Answer(facts.answer),
    };
    let copied = Exchange {
        operation: Operation::Copy,
        relative: place,
        event: EventView::Copied(facts.copied),
    };
    let records = seq![found, read];
    let contents = if likeness(facts.source, facts.destination) == Likeness::Unsettled {
        seq![compared]
    } else {
        Seq::empty()
    };
    let consent = if facts.asked(config) {
        seq![answered]
    } else {
        Seq::empty()
    };
    let copy = if facts.fate(config) == Fate::Counted && !config.dry_run {
        seq![copied]
    } else {
        Seq::empty()
    };
    let after_found = walk.next(found.event);
    let after_records = after_found.next(read.event);
    conducts_one(walk, found);
    conducts_one(after_found, read);
    conducts_both(walk, seq![found], after_found, seq![read], after_records);
    assert(seq![found] + seq![read] =~= records);
    let after_contents = if contents.len() == 0 {
        after_records
    } else {
        after_records.next(compared.event)
    };
    if contents.len() == 0 {
        conducts_nothing(after_records);
    } else {
        conducts_one(after_records, compared);
    }
    conducts_both(walk, records, after_records, contents, after_contents);
    let after_consent = if consent.len() == 0 {
        after_contents
    } else {
        after_contents.next(answered.event)
    };
    if consent.len() == 0 {
        conducts_nothing(after_contents);
    } else {
        conducts_one(after_contents, answered);
    }
    conducts_both(walk, records + contents, after_contents, consent, after_consent);
    let after_copy = if copy.len() == 0 {
        after_consent
    } else {
        after_consent.next(copied.event)
    };
    if copy.len() == 0 {
        conducts_nothing(after_consent);
    } else {
        conducts_one(after_consent, copied);
    }
    conducts_both(walk, records + contents + consent, after_consent, copy, after_copy);
}

/// The talk about an entry and what lies below it, held by a walk that is
/// about to inspect the entry, leaves the walk done with the entry: what was
/// pending before is pending still, and the count has grown by the number of
/// files below the entry that are to be counted.
pub proof fn entry_is_dealt_with(walk: WalkView, entry: Entry)
    requires
        walk.status == StatusView::Awaiting(Operation::Inspect),
    ensures
        conducts(
            walk,
            talk(entry, walk.current, walk.pruned(), walk.config),
            walk.settle(files_of_fate(entry, walk.pruned(), walk.config, Fate::Counted)),
        ),
    decreases entry,
{
    let place = walk.current;
    let config = walk.config;
    match entry {
        Entry::Missing => {
            conducts_one(
                walk,
                Exchange {
                    operation: Operation::Inspect,
                    relative: place,
                    event: EventView::Found(EntryKind::Missing),
                },
            );
        },
        Entry::Other => {
            conducts_one(
                walk,
                Exchange {
                    operation: Operation::Inspect,
                    relative: place,
                    event: EventView::Found(EntryKind::Other),
                },
            );
        },
        Entry::File(facts) => {
            file_is_dealt_with(walk, facts);
        },
        Entry::Directory { present, children } => {
            let found = Exchange {
                operation: Operation::Inspect,
                relative: place,
                event: EventView::Found(EntryKind::Directory),
            };
            let listed = Exchange {
                operation: Operation::ListDirectory,
                relative: place,
                event: EventView::Children(names_of(children)),
            };
            conducts_one(walk, found);
            if !walk.pruned() {
                let arrived = walk.next(found.event);
                let arrival = arrival_talk(present, place, config);
                let ready = walk.awaiting(Operation::ListDirectory);
                if arrival.len() == 0 {
                    conducts_nothing(arrived);
                } else {
                    conducts_one(arrived, arrival[0]);
                    assert(arrival =~= seq![arrival[0]]);
                }
                conducts_both(walk, seq![found], arrived, arrival, ready);
                conducts_one(ready, listed);
                let stocked = WalkView {
                    pending: walk.pending + children_of(place, names_of(children)),
                    ..ready
                };
                assert(ready.next(listed.event) == stocked.settle(0));
                conducts_both(
                    walk,
                    seq![found] + arrival,
                    ready,
                    seq![listed],
                    stocked.settle(0),
                );
                children_are_dealt_with(stocked, walk.pending, place, children);
                let below = files_of_fate_among(children, config, Fate::Counted);
                assert((WalkView { pending: walk.pending, ..stocked }).settle(below)
                    == walk.settle(below));
                conducts_both(
                    walk,
                    seq![found] + arrival + seq![listed],
                    stocked.settle(0),
                    talk_among(children, place, config),
                    walk.settle(below),
                );
            }
        },
    }
}

/// The talk about the children of a directory, held by a walk that has them
/// all pending on top of `beneath` and turns to the first of them, leaves the
/// walk with `beneath` alone pending and the files below the children
/// counted.
pub proof fn children_are_dealt_with(
    walk: WalkView,
    beneath: Seq<Trail>,
    parent: Trail,
    children: Seq<Node>,
)
    requires
        walk.pending == beneath + children_of(parent, names_of(children)),
    ensures
        conducts(
            walk.settle(0),
            talk_among(children, parent, walk.config),
            (WalkView { pending: beneath, ..walk }).settle(
                files_of_fate_among(children, walk.config, Fate::Counted),
            ),
        ),
    decreases children,
{
    let config = walk.config;
    if children.len() == 0 {
        assert(walk.pending =~= beneath);
        conducts_nothing(walk.settle(0));
    } else {
        let first = children[0];
        let rest = children.drop_first();
        let turned = walk.settle(0);
        assert(children_of(parent, names_of(children)).last() == parent.push(first.name));
        assert(turned.current == parent.push(first.name));
        assert(turned.pruned() == excluded(first.name));
        assert(turned.pending =~= beneath + children_of(parent, names_of(rest))) by {
            assert(children_of(parent, names_of(children)).drop_last() =~= children_of(
                parent,
                names_of(rest),
            ));
        }
        entry_is_dealt_with(turned, first.entry);
        let gained = files_of_fate(first.entry, excluded(first.name), config, Fate::Counted);
        let richer = WalkView { affected: turned.affected + gained, ..turned };
        assert(turned.settle(gained) == richer.settle(0));
        children_are_dealt_with(richer, beneath, parent, rest);
        let among = files_of_fate_among(rest, config, Fate::Counted);
        assert((WalkView { pending: beneath, ..richer }).settle(among) == (WalkView {
            pending: beneath,
            ..walk
        }).settle(gained + among));
        conducts_both(
            turned,
            talk(first.entry, parent.push(first.name), excluded(first.name), config),
            richer.settle(0),
            talk_among(rest, parent, config),
            (WalkView { pending: beneath, ..walk }).settle(gained + among),
        );
    }
}

/// Whether the source root, going by this name, is passed over.
pub open spec fn root_pruned(root_name: Option<Seq<char>>) -> bool {
    root_name is Some && excluded(root_name->0)
}

/// A walk over a tree asks for just the work that the tree calls for, place
/// by place and in depth-first order, and ends with the number of the files
/// that have changed and were not declined.
///
/// The tree stands for everything the file system and the operator would
/// answer. The walk begun on it holds the talk that `talk` describes: a
/// directory before what it holds, siblings in the order listed, nothing
/// below an excluded directory. It then finishes, and its count is the
/// number of files whose fate is to be counted.
pub proof fn walk_counts_the_changed_files(
    config: ConfigurationView,
    root_name: Option<Seq<char>>,
    tree: Entry,
)
    ensures
        ({
            let start = WalkView::initial(config, root_name);
            let whole = talk(tree, Seq::empty(), root_pruned(root_name), config);
            let counted = files_of_fate(tree, root_pruned(root_name), config, Fate::Counted);
            &&& conducts(start, whole, start.settle(counted))
            &&& start.run(events_of(whole)).request() == (RequestView::Finish {
                affected: counted as int,
            })
        }),
{
    entry_is_dealt_with(WalkView::initial(config, root_name), tree);
}

/// Every file in need of a copy is either counted or declined.
pub proof fn changed_files_are_counted_or_declined(
    entry: Entry,
    pruned: bool,
    config: ConfigurationView,
)
    ensures
        changed_files(entry, pruned) == files_of_fate(entry, pruned, config, Fate::Counted)
            + files_of_fate(entry, pruned, config, Fate::Declined),
    decreases entry,
{
    match entry {
        Entry::Directory { present, children } => {
            changed_files_among_are_counted_or_declined(children, config);
        },
        _ => {},
    }
}

/// Every file in need of a copy below the children of a directory is either
/// counted or declined.
pub proof fn changed_files_among_are_counted_or_declined(
    children: Seq<Node>,
    config: ConfigurationView,
)
    ensures
        changed_files_among(children) == files_of_fate_among(children, config, Fate::Counted)
            + files_of_fate_among(children, config, Fate::Declined),
    decreases children,
{
    if children.len() > 0 {
        changed_files_are_counted_or_declined(
            children[0].entry,
            excluded(children[0].name),
            config,
        );
        changed_files_among_are_counted_or_declined(children.drop_first(), config);
    }
}

/// Where the operator declines nothing, a walk over a tree ends with the
/// number of the files that have changed, however many have not.
pub proof fn walk_without_refusal_counts_every_change(
    config: ConfigurationView,
    root_name: Option<Seq<char>>,
    tree: Entry,
)
    requires
        files_of_fate(tree, root_pruned(root_name), config, Fate::Declined) == 0,
    ensures
        WalkView::initial(config, root_name).run(
            events_of(talk(tree, Seq::empty(), root_pruned(root_name), config)),
        ).request() == (RequestView::Finish {
            affected: changed_files(tree, root_pruned(root_name)) as int,
        }),
{
    walk_counts_the_changed_files(config, root_name, tree);
    changed_files_are_counted_or_declined(tree, root_pruned(root_name), config);
}

/// The entry as a walk leaves it, given that a copy gives the destination
/// file the contents of the source file. A dry run leaves everything as it
/// was. After any other walk a file that was counted has a destination with
/// the same contents, a directory that was entered exists at the destination,
/// and the source is as it was.
pub open spec fn mirrored(entry: Entry, pruned: bool, config: ConfigurationView) -> Entry
    decreases entry,
{
    match entry {
        Entry::File(facts) => if facts.fate(config) == Fate::Counted && !config.dry_run {
            Entry::File(
                FileFacts { destination: Some(facts.copied), same_contents: true, ..facts },
            )
        } else {
            entry
        },
        Entry::Directory { present, children } => if pruned {
            entry
        } else {
            Entry::Directory {
                present: present || !config.dry_run,
                children: mirrored_among(children, config),
            }
        },
        _ => entry,
    }
}

/// The children of a directory as a walk leaves them.
pub open spec fn mirrored_among(children: Seq<Node>, config: ConfigurationView) -> Seq<Node>
    decreases children,
{
    if children.len() == 0 {
        Seq::empty()
    } else {
        seq![
            Node {
                name: children[0].name,
                entry: mirrored(children[0].entry, excluded(children[0].name), config),
            },
        ] + mirrored_among(children.drop_first(), config)
    }
}

/// After a walk that declined nothing, no file is in need of a copy.
pub proof fn mirrored_entry_has_no_change(entry: Entry, pruned: bool, config: ConfigurationView)
    requires
        !config.dry_run,
        files_of_fate(entry, pruned, config, Fate::Declined) == 0,
    ensures
        changed_files(mirrored(entry, pruned, config), pruned) == 0,
    decreases entry,
{
    match entry {
        Entry::Directory { present, children } => {
            if !pruned {
                mirrored_children_have_no_change(children, config);
            }
        },
        _ => {},
    }
}

/// After a walk that declined nothing, no file below the children of a
/// directory is in need of a copy.
pub proof fn mirrored_children_have_no_change(children: Seq<Node>, config: ConfigurationView)
    requires
        !config.dry_run,
        files_of_fate_among(children, config, Fate::Declined) == 0,
    ensures
        changed_files_among(mirrored_among(children, config)) == 0,
    decreases children,
{
    if children.len() > 0 {
        let after = mirrored_among(children, config);
        assert(after.drop_first() =~= mirrored_among(children.drop_first(), config));
        mirrored_entry_has_no_change(children[0].entry, excluded(children[0].name), config);
        mirrored_children_have_no_change(children.drop_first(), config);
    }
}

/// Mirroring a tree twice in a row affects nothing the second time.
///
/// The first walk is no dry run, and the operator declines nothing in it.
/// The tree is then as `mirrored` describes. A second walk over it, dry run
/// or not, finishes with a count of zero.
pub proof fn second_walk_counts_nothing(
    first: ConfigurationView,
    second: ConfigurationView,
    root_name: Option<Seq<char>>,
    tree: Entry,
)
    requires
        !first.dry_run,
        files_of_fate(tree, root_pruned(root_name), first, Fate::Declined) == 0,
    ensures
        WalkView::initial(second, root_name).run(
            events_of(
                talk(
                    mirrored(tree, root_pruned(root_name), first),
                    Seq::empty(),
                    root_pruned(root_name),
                    second,
                ),
            ),
        ).request() == (RequestView::Finish { affected: 0 }),
{
    let after = mirrored(tree, root_pruned(root_name), first);
    mirrored_entry_has_no_change(tree, root_pruned(root_name), first);
    changed_files_are_counted_or_declined(after, root_pruned(root_name), second);
    walk_counts_the_changed_files(second, root_name, after);
}

} // verus!
