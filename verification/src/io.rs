use vstd::prelude::*;

verus! {

/// A moment in time by its distance from the Unix epoch, in whole seconds
/// and the nanoseconds beyond them, and the side of the epoch it lies on.
#[derive(Clone, Copy, Debug, PartialEq, Eq, Structural)]
pub struct Timestamp {
    pub seconds: u64,
    pub nanoseconds: u32,
    pub before_epoch: bool,
}

/// What the file system records about a file, as far as the change test reads
/// it: the length in bytes and the time of the last modification.
#[derive(Clone, Copy, Debug, PartialEq, Eq, Structural)]
pub struct FileStamp {
    pub size: u64,
    pub modified: Timestamp,
}

/// What the records of two files tell about their contents.
#[derive(Clone, Copy, Debug, PartialEq, Eq, Structural)]
pub enum Likeness {
    /// Same length and same modification time: taken to be the same file.
    Same,
    /// There is no destination file: it has to be created.
    Absent,
    /// The records differ: only the contents can tell.
    Unsettled,
}

/// The verdict of the cheap test on the record of a source file and the record
/// of its destination, if the destination has one.
pub open spec fn likeness(source: FileStamp, destination: Option<FileStamp>) -> Likeness {
    match destination {
        None => Likeness::Absent,
        Some(found) => if found.size == source.size && found.modified == source.modified {
            Likeness::Same
        } else {
            Likeness::Unsettled
        },
    }
}

/// Compares the records of a source file and of its destination without
/// touching the contents of either.
///
/// The files count as the same exactly when the destination exists, is as long
/// as the source and carries the very same modification time. A destination
/// that is absent is reported as such; any other pair is left to a comparison
/// of the contents.
pub fn seems_to_be_same(source: &FileStamp, destination: &Option<FileStamp>) -> (verdict: Likeness)
    ensures
        verdict == likeness(*source, *destination),
        verdict == Likeness::Absent <==> destination.is_none(),
        verdict == Likeness::Same <==> destination.is_some() && destination.unwrap().size
            == source.size && destination.unwrap().modified == source.modified,
{
    match destination {
        None => Likeness::Absent,
        Some(found) => {
            if found.size == source.size && found.modified == source.modified {
                Likeness::Same
            } else {
                Likeness::Unsettled
            }
        },
    }
}

} // verus!
