//! The command line of the finder and what is read from it.

use crate::common::{
    arg, flag, number_or_complaint, parse_size, texts_of, App, AppModel, ArgMatches, ArgModel,
};
use crate::find::pattern::{compile, error_text, matched_texts, pattern_language};
use regex::Regex;
use vstd::prelude::*;
use vstd::string::*;

verus! {

/// The command line of the finder: the pattern, switches for what to
/// print and how to walk, and the folders to search after `--`.
pub open spec fn command_line() -> AppModel {
    AppModel::named("toa-find"@).about("\nKawaii Toa shall find all your files recursively."@).arg(
        ArgModel::named("PATTERN"@).required(true).help("Regex pattern to filter by"@),
    ).arg(
        ArgModel::flagged("sym"@).short("s"@).help(
            "Follow symbolic links. By default they are not followed."@,
        ),
    ).arg(
        ArgModel::flagged("minhop"@).takes_value(true).help(
            "Minimum number of hops before starting to look."@,
        ),
    ).arg(ArgModel::flagged("hop"@).takes_value(true).help("Specifies depth of recursion."@)).arg(
        ArgModel::flagged("quiet"@).short("q"@).help("Ignore errors during search."@),
    ).arg(ArgModel::flagged("file"@).short("f"@).help("Prints files."@)).arg(
        ArgModel::flagged("dir"@).short("d"@).help("Prints directories."@),
    ).arg(
        ArgModel::named("PATH"@).multiple(true).last(true).help(
            "Folders on which to perform find"@,
        ),
    )
}

/// Describes the command line of the finder.
pub fn parser() -> (app: App)
    ensures
        app@ == command_line(),
{
    App::new("toa-find").about("\nKawaii Toa shall find all your files recursively.").arg(
        arg("PATTERN").required(true).help("Regex pattern to filter by"),
    ).arg(
        flag("sym").short("s").help("Follow symbolic links. By default they are not followed."),
    ).arg(
        flag("minhop").takes_value(true).help("Minimum number of hops before starting to look."),
    ).arg(flag("hop").takes_value(true).help("Specifies depth of recursion.")).arg(
        flag("quiet").short("q").help("Ignore errors during search."),
    ).arg(flag("file").short("f").help("Prints files.")).arg(
        flag("dir").short("d").help("Prints directories."),
    ).arg(arg("PATH").multiple(true).last(true).help("Folders on which to perform find"))
}

/// The switches of the finder.
#[derive(Clone, Copy, Debug, PartialEq, Eq, Structural)]
pub struct Flags {
    /// Whether to print directories.
    pub dir: bool,
    /// Whether to print files.
    pub file: bool,
    /// Whether to follow symbolic links.
    pub sym: bool,
    /// Whether to keep quiet about errors.
    pub quiet: bool,
}

impl Default for Flags {
    fn default() -> (flags: Flags)
        ensures
            flags == (Flags { dir: false, file: false, sym: false, quiet: false }),
    {
        Flags { dir: false, file: false, sym: false, quiet: false }
    }
}

impl Flags {
    /// The switches that were found; where neither directories nor files
    /// are asked for, both are printed.
    pub open spec fn spec_from_parsed(matches: &ArgMatches) -> Flags {
        let dir = matches@.contains_key("dir"@);
        let file = matches@.contains_key("file"@);
        Flags {
            dir: dir || !file,
            file: file || !dir,
            sym: matches@.contains_key("sym"@),
            quiet: matches@.contains_key("quiet"@),
        }
    }

    /// Reads the switches.
    pub fn from_parsed(matches: &ArgMatches) -> (flags: Flags)
        ensures
            flags == Flags::spec_from_parsed(matches),
            flags.dir || flags.file,
    {
        let mut dir = matches.is_present("dir");
        let mut file = matches.is_present("file");
        let sym = matches.is_present("sym");
        let quiet = matches.is_present("quiet");
        if !dir && !file {
            dir = true;
            file = true;
        }
        Flags { dir, file, sym, quiet }
    }
}

/// The settings of a search.
#[derive(Clone, Copy, Debug)]
pub struct Options {
    /// The least and the greatest depth at which entries are looked at.
    pub hop: (usize, usize),
}

impl Default for Options {
    fn default() -> (options: Options)
        ensures
            options.hop == (0usize, usize::MAX),
    {
        Options { hop: (0, usize::MAX) }
    }
}

impl Options {
    /// The depth that the option `name` gives, `fallback` where the option
    /// is absent, or the complaint about a value that is no number.
    pub open spec fn depth(matches: &ArgMatches, name: Seq<char>, fallback: usize) -> Result<
        nat,
        Seq<char>,
    > {
        match matches.spec_value_of(name) {
            Some(text) => number_or_complaint(text, usize::MAX as nat),
            None => Ok(fallback as nat),
        }
    }

    /// The settings that `matches` hold: depths from 0 to the greatest
    /// number unless `minhop` and `hop` say otherwise. A complaint about
    /// `minhop` comes before one about `hop`.
    pub open spec fn spec_from_parsed(matches: &ArgMatches) -> Result<Options, Seq<char>> {
        match Options::depth(matches, "minhop"@, 0) {
            Err(complaint) => Err(complaint),
            Ok(least) => match Options::depth(matches, "hop"@, usize::MAX) {
                Err(complaint) => Err(complaint),
                Ok(greatest) => Ok(Options { hop: (least as usize, greatest as usize) }),
            },
        }
    }

    /// Reads the settings of a search.
    pub fn from_parsed(matches: &ArgMatches) -> (r: Result<Options, String>)
        ensures
            match r {
                Ok(options) => Options::spec_from_parsed(matches) == Ok::<Options, Seq<char>>(
                    options,
                ),
                Err(complaint) => Options::spec_from_parsed(matches) == Err::<
                    Options,
                    Seq<char>,
                >(complaint@),
            },
    {
        let mut result = Options::default();
        if let Some(minhop) = matches.value_of("minhop") {
            match parse_size(minhop) {
                Ok(least) => {
                    result.hop.0 = least;
                },
                Err(complaint) => {
                    return Err(complaint);
                },
            }
        }
        if let Some(hop) = matches.value_of("hop") {
            match parse_size(hop) {
                Ok(greatest) => {
                    result.hop.1 = greatest;
                },
                Err(complaint) => {
                    return Err(complaint);
                },
            }
        }
        Ok(result)
    }
}

/// All that a search is started with.
pub struct Args {
    pub flags: Flags,
    pub opts: Options,
    /// The pattern that a name must match.
    pub pattern: Regex,
    /// The folders to search.
    pub paths: Vec<String>,
}

/// The folders that were named, or the current one where none was.
pub open spec fn folders(matches: &ArgMatches) -> Seq<Seq<char>> {
    if matches@.contains_key("PATH"@) && matches@["PATH"@].len() > 0 {
        matches@["PATH"@]
    } else {
        seq!["."@]
    }
}

/// The complaint about a pattern that did not compile, for the `reason`
/// that the compiler gave.
pub open spec fn bad_pattern(reason: Seq<char>) -> Seq<char> {
    "Couldn't compile pattern. "@ + reason
}

impl Args {
    /// Whether `args` are what `matches` hold when the pattern compiles to
    /// `pattern`.
    pub open spec fn read_from(args: Args, matches: &ArgMatches, pattern: Regex) -> bool {
        &&& args.flags == Flags::spec_from_parsed(matches)
        &&& Options::spec_from_parsed(matches) == Ok::<Options, Seq<char>>(args.opts)
        &&& args.pattern == pattern
        &&& texts_of(args.paths@) == folders(matches)
    }

    /// Puts the arguments of a search together from what was found on the
    /// command line and from what compiling the pattern came to, an error
    /// being given as its reason in words. A pattern that did not compile
    /// is complained of first, then the settings.
    pub fn with_pattern(matches: &ArgMatches, compiled: Result<Regex, String>) -> (r: Result<
        Args,
        String,
    >)
        ensures
            match r {
                Ok(args) => compiled matches Ok(pattern) && Args::read_from(
                    args,
                    matches,
                    pattern,
                ),
                Err(complaint) => match compiled {
                    Err(reason) => complaint@ == bad_pattern(reason@),
                    Ok(_) => Options::spec_from_parsed(matches) == Err::<Options, Seq<char>>(
                        complaint@,
                    ),
                },
            },
    {
        let pattern = match compiled {
            Ok(pattern) => pattern,
            Err(reason) => {
                let mut complaint = "Couldn't compile pattern. ".to_owned();
                complaint.append(reason.as_str());
                return Err(complaint);
            },
        };
        let flags = Flags::from_parsed(matches);
        let opts = match Options::from_parsed(matches) {
            Ok(opts) => opts,
            Err(complaint) => {
                return Err(complaint);
            },
        };
        let paths = match matches.values_of("PATH") {
            Some(values) => values.clone(),
            None => {
                let mut here: Vec<String> = Vec::new();
                here.push(".".to_owned());
                assert(texts_of(here@) =~= seq!["."@]);
                here
            },
        };
        Ok(Args { flags, opts, pattern, paths })
    }

    /// Reads the arguments of a search from what was found on the command
    /// line. Whether the pattern compiles is for the `regex` crate to say;
    /// where it does, the arguments hold a pattern that matches what the
    /// text of the pattern says.
    pub fn new(matches: &ArgMatches) -> (r: Result<Args, String>)
        requires
            matches.spec_value_of("PATTERN"@) is Some,
        ensures
            match r {
                Ok(args) => {
                    &&& Args::read_from(args, matches, args.pattern)
                    &&& matched_texts(args.pattern) == pattern_language(
                        matches.spec_value_of("PATTERN"@)->0,
                    )
                },
                Err(complaint) => {
                    ||| Options::spec_from_parsed(matches) == Err::<Options, Seq<char>>(
                        complaint@,
                    )
                    ||| exists|reason: Seq<char>| complaint@ == bad_pattern(reason)
                },
            },
    {
        let source = matches.value_of("PATTERN").unwrap();
        match compile(source) {
            Ok(pattern) => Args::with_pattern(matches, Ok(pattern)),
            Err(error) => {
                let reason = error_text(&error);
                let ghost why = reason@;
                let r = Args::with_pattern(matches, Err(reason));
                assert(r matches Err(complaint) && complaint@ == bad_pattern(why));
                r
            },
        }
    }
}

} // verus!
