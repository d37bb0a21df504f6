use crate::configuration::ConfigurationView;
use crate::io::FileStamp;
use crate::model::{
    children_of, excluded, EntryKind, EventView, Operation, RequestView, StatusView, Trail,
    WalkView,
};
use crate::prompt::affirmative;
use vstd::prelude::*;

verus! {

/// Whether a piece of work changes the destination or asks the operator
/// for leave to change it.
pub open spec fn touches_destination(operation: Operation) -> bool {
    operation == Operation::CreateDirectory || operation == Operation::Confirm || operation
        == Operation::Copy
}

/// Whether a piece of work goes into a directory: creates it, probes it or
/// lists it.
pub open spec fn enters_directory(operation: Operation) -> bool {
    operation == Operation::CreateDirectory || operation == Operation::ProbeDestination
        || operation == Operation::ListDirectory
}

/// Whether a place lies below a directory that is passed over: the root, if
/// the place is not the root itself, or one of the names before the last is
/// excluded.
pub open spec fn below_excluded(root_name: Option<Seq<char>>, place: Trail) -> bool {
    ||| place.len() > 0 && root_name is Some && excluded(root_name->0)
    ||| exists|i: int| 0 <= i < place.len() - 1 && excluded(#[trigger] place[i])
}

/// Whether a walk keeps clear of the excluded directories: no place that it
/// deals with or has pending lies below one, and it has not entered one.
pub open spec fn keeps_clear(walk: WalkView) -> bool {
    &&& forall|i: int|
        0 <= i < walk.pending.len() ==> !below_excluded(walk.root_name, #[trigger] walk.pending[i])
    &&& !walk.ended() ==> !below_excluded(walk.root_name, walk.current)
    &&& walk.status matches StatusView::Awaiting(operation) ==> enters_directory(operation)
        ==> !walk.pruned()
}

/// A step changes neither the settings nor the name of the root.
pub proof fn step_keeps_settings(walk: WalkView, event: EventView)
    ensures
        walk.next(event).config == walk.config,
        walk.next(event).root_name == walk.root_name,
{
}

/// A run changes neither the settings nor the name of the root.
pub proof fn run_keeps_settings(walk: WalkView, events: Seq<EventView>)
    ensures
        walk.run(events).config == walk.config,
        walk.run(events).root_name == walk.root_name,
    decreases events.len(),
{
    if events.len() > 0 {
        run_keeps_settings(walk, events.drop_last());
        step_keeps_settings(walk.run(events.drop_last()), events.last());
    }
}

/// The count never goes down, and a step adds at most one to it. It adds one
/// in two cases only: a copy has been made, or a dry run has found a file in
/// need of one.
pub proof fn step_counts_one_file_at_most(walk: WalkView, event: EventView)
    ensures
        walk.affected <= walk.next(event).affected <= walk.affected + 1,
        walk.next(event).affected == walk.affected + 1 ==> {
            ||| walk.status == StatusView::Awaiting(Operation::Copy) && event is Copied
            ||| walk.config.dry_run && walk.status == StatusView::Awaiting(Operation::ReadStamps)
                && event is Stamps
            ||| walk.config.dry_run && walk.status == StatusView::Awaiting(
                Operation::CompareContents,
            ) && event == EventView::Contents(false)
        },
{
}

/// Over a run the count never goes down.
pub proof fn run_never_uncounts(walk: WalkView, events: Seq<EventView>)
    ensures
        walk.affected <= walk.run(events).affected <= walk.affected + events.len(),
    decreases events.len(),
{
    if events.len() > 0 {
        run_never_uncounts(walk, events.drop_last());
        step_counts_one_file_at_most(walk.run(events.drop_last()), events.last());
    }
}

/// A dry run leaves the destination alone: whatever the file system answers,
/// the walk never asks for a directory to be created, for a file to be copied
/// or for leave to overwrite one.
pub proof fn dry_run_touches_nothing(
    config: ConfigurationView,
    root_name: Option<Seq<char>>,
    events: Seq<EventView>,
)
    requires
        config.dry_run,
    ensures
        WalkView::initial(config, root_name).run(events).request() matches RequestView::Perform {
            operation,
            ..
        } ==> !touches_destination(operation),
    decreases events.len(),
{
    let start = WalkView::initial(config, root_name);
    if events.len() > 0 {
        dry_run_touches_nothing(config, root_name, events.drop_last());
        run_keeps_settings(start, events.drop_last());
    }
}

/// A directory with an excluded name is passed over without a word: it is
/// neither created nor listed, and the walk turns to what was pending.
pub proof fn excluded_directory_is_passed_over(walk: WalkView)
    requires
        walk.status == StatusView::Awaiting(Operation::Inspect),
        walk.pruned(),
    ensures
        walk.next(EventView::Found(EntryKind::Directory)) == walk.settle(0),
        walk.notice(EventView::Found(EntryKind::Directory)) is None,
{
}

/// A step keeps a walk clear of the excluded directories.
pub proof fn step_keeps_clear(walk: WalkView, event: EventView)
    requires
        keeps_clear(walk),
    ensures
        keeps_clear(walk.next(event)),
{
    let after = walk.next(event);
    if walk.status == StatusView::Awaiting(Operation::ListDirectory) && event is Children {
        let names = event->Children_0;
        let grown = walk.pending + children_of(walk.current, names);
        assert forall|i: int| 0 <= i < grown.len() implies !below_excluded(
            walk.root_name,
            #[trigger] grown[i],
        ) by {
            if i < walk.pending.len() {
                assert(grown[i] == walk.pending[i]);
            } else {
                let child = grown[i];
                let name = names[names.len() - 1 - (i - walk.pending.len())];
                assert(child == walk.current.push(name));
                if exists|k: int| 0 <= k < child.len() - 1 && excluded(#[trigger] child[k]) {
                    let k = choose|k: int| 0 <= k < child.len() - 1 && excluded(#[trigger] child[k]);
                    assert(child[k] == walk.current[k]);
                    if k < walk.current.len() - 1 {
                        assert(excluded(walk.current[k]));
                    }
                }
            }
        }
        let middle = WalkView { pending: grown, ..walk };
        assert(after == middle.settle(0));
        if grown.len() > 0 {
            assert(after.current == grown[grown.len() - 1]);
            assert forall|i: int| 0 <= i < after.pending.len() implies !below_excluded(
                walk.root_name,
                #[trigger] after.pending[i],
            ) by {
                assert(after.pending[i] == grown[i]);
            }
        }
    } else if after != walk && !(after.status is Failed) && after.current != walk.current {
        assert(walk.pending.len() > 0 ==> after.current == walk.pending[walk.pending.len() - 1]);
        assert forall|i: int| 0 <= i < after.pending.len() implies !below_excluded(
            walk.root_name,
            #[trigger] after.pending[i],
        ) by {
            assert(after.pending[i] == walk.pending[i]);
        }
    }
}

/// A walk keeps clear of the excluded directories from beginning to end.
pub proof fn run_keeps_clear(
    config: ConfigurationView,
    root_name: Option<Seq<char>>,
    events: Seq<EventView>,
)
    ensures
        keeps_clear(WalkView::initial(config, root_name).run(events)),
    decreases events.len(),
{
    let start = WalkView::initial(config, root_name);
    if events.len() > 0 {
        run_keeps_clear(config, root_name, events.drop_last());
        step_keeps_clear(start.run(events.drop_last()), events.last());
    }
}

/// Nothing below an excluded directory is ever touched: whatever the file
/// system answers, no piece of work is about a place below a directory with
/// an excluded name, and no such directory is created, probed or listed.
pub proof fn excluded_directories_stay_out(
    config: ConfigurationView,
    root_name: Option<Seq<char>>,
    events: Seq<EventView>,
)
    ensures
        WalkView::initial(config, root_name).run(events).request() matches RequestView::Perform {
            operation,
            relative,
        } ==> {
            &&& !below_excluded(root_name, relative)
            &&& enters_directory(operation) && relative.len() > 0 ==> !excluded(relative.last())
            &&& enters_directory(operation) && relative.len() == 0 ==> !(root_name is Some
                && excluded(root_name->0))
        },
{
    run_keeps_clear(config, root_name, events);
    run_keeps_settings(WalkView::initial(config, root_name), events);
}

/// Two files of the same length and the same modification time count as one
/// and the same: the contents are never compared, whatever they are, and
/// nothing is counted.
pub proof fn same_record_settles_without_contents(
    walk: WalkView,
    source: FileStamp,
    destination: FileStamp,
)
    requires
        walk.status == StatusView::Awaiting(Operation::ReadStamps),
        destination.size == source.size,
        destination.modified == source.modified,
    ensures
        walk.next(EventView::Stamps { source, destination: Some(destination) }) == walk.settle(0),
        walk.next(EventView::Stamps { source, destination: Some(destination) }).status
            != StatusView::Awaiting(Operation::CompareContents),
        walk.next(EventView::Stamps { source, destination: Some(destination) }).affected
            == walk.affected,
{
}

/// Where the records differ, the contents decide: the walk asks for them to
/// be compared, a file with equal contents is left alone and not counted, and
/// one with other contents goes on to be copied, or, in a dry run, is counted
/// at once.
pub proof fn contents_decide(walk: WalkView, source: FileStamp, destination: FileStamp, equal: bool)
    requires
        walk.status == StatusView::Awaiting(Operation::ReadStamps),
        destination.size != source.size || destination.modified != source.modified,
    ensures
        ({
            let asked = walk.next(EventView::Stamps { source, destination: Some(destination) });
            let told = asked.next(EventView::Contents(equal));
            &&& asked == walk.awaiting(Operation::CompareContents)
            &&& equal ==> told == walk.settle(0)
            &&& !equal && walk.config.dry_run ==> told == walk.settle(1)
            &&& !equal && !walk.config.dry_run ==> told == walk.awaiting(Operation::Confirm)
        }),
{
}

/// An answer other than yes leaves the destination file as it is: the walk
/// asks for no copy and does not count the file. A question that could not
/// be put counts as such an answer.
pub proof fn refusal_spares_the_file(walk: WalkView, event: EventView)
    requires
        walk.status == StatusView::Awaiting(Operation::Confirm),
        event is Failed || (event matches EventView::Answer(line) && !affirmative(line)),
    ensures
        walk.next(event) == walk.settle(0),
        walk.next(event).affected == walk.affected,
        walk.next(event).status != StatusView::Awaiting(Operation::Copy),
        walk.notice(event) is None,
{
}

/// Consent leads to the copy, and the copy is counted.
pub proof fn consent_leads_to_copy(walk: WalkView, line: Seq<char>, stamp: FileStamp)
    requires
        walk.status == StatusView::Awaiting(Operation::Confirm),
        affirmative(line),
    ensures
        walk.next(EventView::Answer(line)) == walk.awaiting(Operation::Copy),
        walk.next(EventView::Answer(line)).next(EventView::Copied(stamp)) == walk.settle(1),
{
}

/// A file without a destination is copied unasked and counted: outside a dry
/// run the walk goes from the records straight to the copy.
pub proof fn new_file_is_copied_unasked(walk: WalkView, source: FileStamp, stamp: FileStamp)
    requires
        walk.status == StatusView::Awaiting(Operation::ReadStamps),
        !walk.config.dry_run,
    ensures
        walk.next(EventView::Stamps { source, destination: None }) == walk.awaiting(
            Operation::Copy,
        ),
        walk.next(EventView::Stamps { source, destination: None }).next(
            EventView::Copied(stamp),
        ) == walk.settle(1),
        walk.settle(1).affected == walk.affected + 1,
{
}

/// A failure of any work on the file system ends the walk for good: what is
/// pending is given up, the count stays, the walk asks for nothing more, and
/// no later event brings it back.
pub proof fn failure_ends_the_walk(
    walk: WalkView,
    operation: Operation,
    detail: Seq<char>,
    later: Seq<EventView>,
)
    requires
        walk.status == StatusView::Awaiting(operation),
        operation != Operation::Confirm,
    ensures
        ({
            let failed = walk.next(EventView::Failed(detail));
            &&& failed.status is Failed
            &&& failed.pending.len() == 0
            &&& failed.affected == walk.affected
            &&& failed.request() is Abort
            &&& failed.request()->fault.operation == operation
            &&& failed.request()->fault.relative == walk.current
            &&& failed.request()->fault.detail == detail
            &&& failed.run(later) == failed
        }),
    decreases later.len(),
{
    if later.len() > 0 {
        failure_ends_the_walk(walk, operation, detail, later.drop_last());
    }
}

/// Once a walk has ended, no event changes it.
pub proof fn ended_walk_stays(walk: WalkView, events: Seq<EventView>)
    requires
        walk.ended(),
    ensures
        walk.run(events) == walk,
    decreases events.len(),
{
    if events.len() > 0 {
        ended_walk_stays(walk, events.drop_last());
    }
}

} // verus!
