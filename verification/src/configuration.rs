use crate::text::texts;
use vstd::prelude::*;

verus! {

/// The settings of one run: where to copy from, where to copy to, and how.
#[derive(Clone, Debug, PartialEq, Eq)]
pub struct Configuration {
    /// Root of the tree that is copied.
    pub source_path: String,
    /// Root of the tree that receives the copy.
    pub destination_path: String,
    /// Report what would change and leave the destination alone.
    pub dry_run: bool,
    /// Also report the files that are left alone.
    pub verbose: bool,
}

/// A configuration as plain mathematical values.
pub struct ConfigurationView {
    pub source_path: Seq<char>,
    pub destination_path: Seq<char>,
    pub dry_run: bool,
    pub verbose: bool,
}

impl View for Configuration {
    type V = ConfigurationView;

    open spec fn view(&self) -> ConfigurationView {
        ConfigurationView {
            source_path: self.source_path@,
            destination_path: self.destination_path@,
            dry_run: self.dry_run,
            verbose: self.verbose,
        }
    }
}

impl Configuration {
    /// Puts the four settings together, unchanged.
    pub fn new(source: String, destination: String, dry_run: bool, verbose: bool) -> (result:
        Configuration)
        ensures
            result@ == (ConfigurationView {
                source_path: source@,
                destination_path: destination@,
                dry_run,
                verbose,
            }),
    {
        Configuration { source_path: source, destination_path: destination, dry_run, verbose }
    }
}

/// Why a command line yields no configuration.
#[derive(Clone, Debug, PartialEq, Eq)]
pub enum Refusal {
    /// `--help` was given: the caller wants the usage text.
    Help,
    /// An argument starts with `--` and is none of the known flags.
    UnknownFlag(String),
    /// An argument starts with a single `-`.
    ShortFlag,
    /// No source path was given.
    MissingSource,
    /// A source path was given, but no destination path.
    MissingDestination,
}

/// A refusal as plain mathematical values.
pub enum RefusalView {
    Help,
    UnknownFlag(Seq<char>),
    ShortFlag,
    MissingSource,
    MissingDestination,
}

impl View for Refusal {
    type V = RefusalView;

    open spec fn view(&self) -> RefusalView {
        match self {
            Refusal::Help => RefusalView::Help,
            Refusal::UnknownFlag(flag) => RefusalView::UnknownFlag(flag@),
            Refusal::ShortFlag => RefusalView::ShortFlag,
            Refusal::MissingSource => RefusalView::MissingSource,
            Refusal::MissingDestination => RefusalView::MissingDestination,
        }
    }
}

/// What a single argument has against the command line going on, if anything.
/// `--help` asks for the usage text; any other argument that starts with `-`
/// is refused, except the two known flags.
pub open spec fn objection(arg: Seq<char>) -> Option<RefusalView> {
    if arg == "--help"@ {
        Some(RefusalView::Help)
    } else if arg == "--dry-run"@ || arg == "--verbose"@ {
        None
    } else if arg.len() >= 2 && arg[0] == '-' && arg[1] == '-' {
        Some(RefusalView::UnknownFlag(arg))
    } else if arg.len() >= 1 && arg[0] == '-' {
        Some(RefusalView::ShortFlag)
    } else {
        None
    }
}

/// Whether an argument names a path: it is not empty and is no flag.
pub open spec fn names_path(arg: Seq<char>) -> bool {
    arg.len() > 0 && arg[0] != '-'
}

/// The arguments that name paths, in the order in which they were given.
pub open spec fn paths(args: Seq<Seq<char>>) -> Seq<Seq<char>> {
    args.filter(|arg: Seq<char>| names_path(arg))
}

/// Whether `at` is the place of the first argument that raises an objection.
pub open spec fn stops_at(args: Seq<Seq<char>>, at: int) -> bool {
    &&& 0 <= at < args.len()
    &&& objection(args[at]) is Some
    &&& forall|before: int| 0 <= before < at ==> objection(#[trigger] args[before]) is None
}

/// What a command line amounts to.
///
/// The first argument that raises an objection decides alone. Without one, the
/// first two arguments that name paths are the source and the destination,
/// further ones are passed over, and each of the two flags is set if it occurs
/// anywhere.
pub open spec fn configured(args: Seq<Seq<char>>) -> Result<ConfigurationView, RefusalView> {
    if exists|at: int| stops_at(args, at) {
        Err(objection(args[choose|at: int| stops_at(args, at)]).unwrap())
    } else if paths(args).len() == 0 {
        Err(RefusalView::MissingSource)
    } else if paths(args).len() == 1 {
        Err(RefusalView::MissingDestination)
    } else {
        Ok(
            ConfigurationView {
                source_path: paths(args)[0],
                destination_path: paths(args)[1],
                dry_run: args.contains("--dry-run"@),
                verbose: args.contains("--verbose"@),
            },
        )
    }
}

/// Two results of reading a command line, compared by their views.
pub open spec fn reads_as(
    result: Result<Configuration, Refusal>,
    expected: Result<ConfigurationView, RefusalView>,
) -> bool {
    match result {
        Ok(configuration) => expected == Ok::<ConfigurationView, RefusalView>(configuration@),
        Err(refusal) => expected == Err::<ConfigurationView, RefusalView>(refusal@),
    }
}

/// Only one place can be the first that raises an objection.
proof fn stop_is_unique(args: Seq<Seq<char>>, first: int, second: int)
    requires
        stops_at(args, first),
        stops_at(args, second),
    ensures
        first == second,
{
    if first < second {
        assert(objection(args[first]) is None);
    } else if second < first {
        assert(objection(args[second]) is None);
    }
}

/// Reads the settings of a run out of the arguments of a command line (the
/// program's own name left out).
///
/// The arguments are taken in order. `--help`, an unknown `--` flag and any
/// `-` flag end the reading at once with the matching refusal. `--dry-run` and
/// `--verbose` set their flag. Of the remaining arguments the first that is
/// not empty is the source path and the second the destination path; without
/// both there is no configuration.
pub fn configure(args: &Vec<String>) -> (result: Result<Configuration, Refusal>)
    ensures
        reads_as(result, configured(texts(args@))),
{
    let help = String::from_str("--help");
    let dry_run_flag = String::from_str("--dry-run");
    let verbose_flag = String::from_str("--verbose");
    let ghost all = texts(args@);
    let mut source: Option<String> = None;
    let mut destination: Option<String> = None;
    let mut dry_run = false;
    let mut verbose = false;
    let mut at: usize = 0;
    while at < args.len()
        invariant
            at <= args.len(),
            all == texts(args@),
            help@ == "--help"@,
            dry_run_flag@ == "--dry-run"@,
            verbose_flag@ == "--verbose"@,
            forall|before: int| 0 <= before < at ==> objection(#[trigger] all[before]) is None,
            dry_run == all.take(at as int).contains("--dry-run"@),
            verbose == all.take(at as int).contains("--verbose"@),
            destination is Some ==> source is Some,
            paths(all.take(at as int)).len() == 0 <==> source is None,
            paths(all.take(at as int)).len() == 1 <==> source is Some && destination is None,
            source matches Some(text) ==> text@ == paths(all.take(at as int))[0],
            destination matches Some(text) ==> text@ == paths(all.take(at as int))[1],
        decreases args.len() - at,
    {
        let arg = &args[at];
        let ghost here = all.take(at as int);
        let ghost there = all.take(at as int + 1);
        proof {
            assert(all[at as int] == arg@);
            assert(there.drop_last() == here);
            assert(there.last() == arg@);
            reveal(Seq::filter);
            assert(paths(there) == if names_path(arg@) {
                paths(here).push(arg@)
            } else {
                paths(here)
            });
            assert(forall|text: Seq<char>|
                there.contains(text) <==> here.contains(text) || text == arg@) by {
                assert forall|text: Seq<char>| there.contains(text) implies here.contains(text)
                    || text == arg@ by {
                    let k = choose|k: int| 0 <= k < there.len() && there[k] == text;
                    if k < at {
                        assert(here[k] == text);
                    }
                }
                assert forall|text: Seq<char>| here.contains(text) || text == arg@ implies there.contains(
                    text,
                ) by {
                    if text == arg@ {
                        assert(there[at as int] == text);
                    } else {
                        let k = choose|k: int| 0 <= k < here.len() && here[k] == text;
                        assert(there[k] == text);
                    }
                }
            }
            reveal_strlit("--help");
            reveal_strlit("--dry-run");
            reveal_strlit("--verbose");
            assert("--dry-run"@[2] != "--verbose"@[2]);
        }
        let length = arg.as_str().unicode_len();
        let dashed = length >= 1 && arg.as_str().get_char(0) == '-';
        if *arg == help {
            proof {
                assert(stops_at(all, at as int));
                stop_is_unique(all, at as int, choose|at: int| stops_at(all, at));
            }
            return Err(Refusal::Help);
        }
        if *arg == dry_run_flag {
            dry_run = true;
        } else if *arg == verbose_flag {
            verbose = true;
        } else if dashed && length >= 2 && arg.as_str().get_char(1) == '-' {
            proof {
                assert(stops_at(all, at as int));
                stop_is_unique(all, at as int, choose|at: int| stops_at(all, at));
            }
            return Err(Refusal::UnknownFlag(arg.clone()));
        } else if dashed {
            proof {
                assert(stops_at(all, at as int));
                stop_is_unique(all, at as int, choose|at: int| stops_at(all, at));
            }
            return Err(Refusal::ShortFlag);
        } else if length > 0 {
            if source.is_none() {
                source = Some(arg.clone());
            } else if destination.is_none() {
                destination = Some(arg.clone());
            }
        }
        at += 1;
    }
    proof {
        assert(all.take(at as int) == all);
        assert(!exists|at: int| stops_at(all, at));
    }
    match source {
        None => Err(Refusal::MissingSource),
        Some(from) => match destination {
            None => Err(Refusal::MissingDestination),
            Some(to) => Ok(Configuration::new(from, to, dry_run, verbose)),
        },
    }
}

} // verus!
