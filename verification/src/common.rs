//! What both tools share: the description of a command line, the arguments
//! found on one, and the reading of numbers.

use crate::number::{digits_of, lemma_scan_ok_bounded, parse_bounded, parse_unsigned, NumberError};
use vstd::prelude::*;
use vstd::string::*;

verus! {

/// The characters of an optional text.
pub open spec fn text_of(text: Option<String>) -> Option<Seq<char>> {
    match text {
        Some(s) => Some(s@),
        None => None,
    }
}

/// The characters of each text of a list.
pub open spec fn texts_of(list: Seq<String>) -> Seq<Seq<char>> {
    list.map_values(|s: String| s@)
}

/// What an argument of a command line is, as plain text and switches.
pub struct ArgModel {
    pub name: Seq<char>,
    pub long: Option<Seq<char>>,
    pub short: Option<Seq<char>>,
    pub help: Option<Seq<char>>,
    pub required: bool,
    pub takes_value: bool,
    pub default_value: Option<Seq<char>>,
    pub overrides_with: Option<Seq<char>>,
    pub multiple: bool,
    pub last: bool,
}

impl ArgModel {
    /// A positional argument called `name`, with nothing else set.
    pub open spec fn named(name: Seq<char>) -> ArgModel {
        ArgModel {
            name,
            long: None,
            short: None,
            help: None,
            required: false,
            takes_value: false,
            default_value: None,
            overrides_with: None,
            multiple: false,
            last: false,
        }
    }

    /// An option written `--name`.
    pub open spec fn flagged(name: Seq<char>) -> ArgModel {
        ArgModel::named(name).long(name)
    }

    pub open spec fn long(self, long: Seq<char>) -> ArgModel {
        ArgModel { long: Some(long), ..self }
    }

    pub open spec fn short(self, short: Seq<char>) -> ArgModel {
        ArgModel { short: Some(short), ..self }
    }

    pub open spec fn help(self, help: Seq<char>) -> ArgModel {
        ArgModel { help: Some(help), ..self }
    }

    pub open spec fn required(self, required: bool) -> ArgModel {
        ArgModel { required, ..self }
    }

    pub open spec fn takes_value(self, takes_value: bool) -> ArgModel {
        ArgModel { takes_value, ..self }
    }

    /// A default makes the argument one that takes a value.
    pub open spec fn default_value(self, value: Seq<char>) -> ArgModel {
        ArgModel { default_value: Some(value), takes_value: true, ..self }
    }

    pub open spec fn overrides_with(self, other: Seq<char>) -> ArgModel {
        ArgModel { overrides_with: Some(other), ..self }
    }

    pub open spec fn multiple(self, multiple: bool) -> ArgModel {
        ArgModel { multiple, ..self }
    }

    pub open spec fn last(self, last: bool) -> ArgModel {
        ArgModel { last, ..self }
    }
}

/// One argument that a command line accepts.
#[derive(Clone, Debug)]
pub struct Arg {
    /// The name under which the argument is found again.
    pub name: String,
    /// The word after `--`, for an option.
    pub long: Option<String>,
    /// The letter after `-`, for an option.
    pub short: Option<String>,
    pub help: Option<String>,
    pub required: bool,
    pub takes_value: bool,
    /// The value that stands in when the command line gives none.
    pub default_value: Option<String>,
    /// The argument that this one replaces when both are given.
    pub overrides_with: Option<String>,
    pub multiple: bool,
    /// Whether the argument comes only after `--`.
    pub last: bool,
}

impl View for Arg {
    type V = ArgModel;

    open spec fn view(&self) -> ArgModel {
        ArgModel {
            name: self.name@,
            long: text_of(self.long),
            short: text_of(self.short),
            help: text_of(self.help),
            required: self.required,
            takes_value: self.takes_value,
            default_value: text_of(self.default_value),
            overrides_with: text_of(self.overrides_with),
            multiple: self.multiple,
            last: self.last,
        }
    }
}

impl Arg {
    /// Sets the word by which the option is written after `--`.
    pub fn long(self, long: &str) -> (arg: Arg)
        ensures
            arg@ == self@.long(long@),
    {
        Arg { long: Some(long.to_owned()), ..self }
    }

    /// Sets the letter by which the option is written after `-`.
    pub fn short(self, short: &str) -> (arg: Arg)
        ensures
            arg@ == self@.short(short@),
    {
        Arg { short: Some(short.to_owned()), ..self }
    }

    pub fn help(self, help: &str) -> (arg: Arg)
        ensures
            arg@ == self@.help(help@),
    {
        Arg { help: Some(help.to_owned()), ..self }
    }

    pub fn required(self, required: bool) -> (arg: Arg)
        ensures
            arg@ == self@.required(required),
    {
        Arg { required, ..self }
    }

    pub fn takes_value(self, takes_value: bool) -> (arg: Arg)
        ensures
            arg@ == self@.takes_value(takes_value),
    {
        Arg { takes_value, ..self }
    }

    /// Sets the value that stands in when none is given; the argument then
    /// takes a value.
    pub fn default_value(self, value: &str) -> (arg: Arg)
        ensures
            arg@ == self@.default_value(value@),
    {
        Arg { default_value: Some(value.to_owned()), takes_value: true, ..self }
    }

    pub fn overrides_with(self, other: &str) -> (arg: Arg)
        ensures
            arg@ == self@.overrides_with(other@),
    {
        Arg { overrides_with: Some(other.to_owned()), ..self }
    }

    pub fn multiple(self, multiple: bool) -> (arg: Arg)
        ensures
            arg@ == self@.multiple(multiple),
    {
        Arg { multiple, ..self }
    }

    pub fn last(self, last: bool) -> (arg: Arg)
        ensures
            arg@ == self@.last(last),
    {
        Arg { last, ..self }
    }
}

/// A positional argument called `name`.
pub fn arg(name: &str) -> (arg: Arg)
    ensures
        arg@ == ArgModel::named(name@),
{
    Arg {
        name: name.to_owned(),
        long: None,
        short: None,
        help: None,
        required: false,
        takes_value: false,
        default_value: None,
        overrides_with: None,
        multiple: false,
        last: false,
    }
}

/// An option written `--name`.
pub fn flag(name: &str) -> (arg: Arg)
    ensures
        arg@ == ArgModel::flagged(name@),
{
    arg(name).long(name)
}

/// What a command line is: the texts of its help and its arguments in the
/// order of their declaration.
pub struct AppModel {
    pub name: Seq<char>,
    pub about: Option<Seq<char>>,
    pub author: Option<Seq<char>>,
    pub version: Option<Seq<char>>,
    pub after_help: Option<Seq<char>>,
    pub args: Seq<ArgModel>,
}

impl AppModel {
    /// A command line called `name` that accepts nothing yet.
    pub open spec fn named(name: Seq<char>) -> AppModel {
        AppModel {
            name,
            about: None,
            author: None,
            version: None,
            after_help: None,
            args: Seq::empty(),
        }
    }

    pub open spec fn about(self, about: Seq<char>) -> AppModel {
        AppModel { about: Some(about), ..self }
    }

    pub open spec fn author(self, author: Seq<char>) -> AppModel {
        AppModel { author: Some(author), ..self }
    }

    pub open spec fn version(self, version: Seq<char>) -> AppModel {
        AppModel { version: Some(version), ..self }
    }

    pub open spec fn after_help(self, text: Seq<char>) -> AppModel {
        AppModel { after_help: Some(text), ..self }
    }

    pub open spec fn arg(self, arg: ArgModel) -> AppModel {
        AppModel { args: self.args.push(arg), ..self }
    }

    /// Whether an argument called `name` is declared.
    pub open spec fn declares(self, name: Seq<char>) -> bool {
        exists|i: int| 0 <= i < self.args.len() && (#[trigger] self.args[i]).name == name
    }
}

/// The command line of a tool.
#[derive(Clone, Debug)]
pub struct App {
    pub name: String,
    pub about: Option<String>,
    pub author: Option<String>,
    pub version: Option<String>,
    /// Text shown below the help.
    pub after_help: Option<String>,
    pub args: Vec<Arg>,
}

impl View for App {
    type V = AppModel;

    open spec fn view(&self) -> AppModel {
        AppModel {
            name: self.name@,
            about: text_of(self.about),
            author: text_of(self.author),
            version: text_of(self.version),
            after_help: text_of(self.after_help),
            args: self.args@.map_values(|a: Arg| a@),
        }
    }
}

impl App {
    /// A command line called `name` that accepts nothing yet.
    pub fn new(name: &str) -> (app: App)
        ensures
            app@ == AppModel::named(name@),
    {
        let app = App {
            name: name.to_owned(),
            about: None,
            author: None,
            version: None,
            after_help: None,
            args: Vec::new(),
        };
        assert(app@.args =~= Seq::empty());
        app
    }

    pub fn about(self, about: &str) -> (app: App)
        ensures
            app@ == self@.about(about@),
    {
        App { about: Some(about.to_owned()), ..self }
    }

    pub fn author(self, author: &str) -> (app: App)
        ensures
            app@ == self@.author(author@),
    {
        App { author: Some(author.to_owned()), ..self }
    }

    pub fn version(self, version: &str) -> (app: App)
        ensures
            app@ == self@.version(version@),
    {
        App { version: Some(version.to_owned()), ..self }
    }

    pub fn after_help(self, text: &str) -> (app: App)
        ensures
            app@ == self@.after_help(text@),
    {
        App { after_help: Some(text.to_owned()), ..self }
    }

    /// Declares one more argument, after those declared before.
    pub fn arg(self, arg: Arg) -> (app: App)
        ensures
            app@ == self@.arg(arg@),
    {
        let mut app = self;
        app.args.push(arg);
        assert(app@.args =~= self@.args.push(arg@));
        app
    }
}

/// One argument as it was found: its name and the values given to it.
#[derive(Clone, Debug)]
pub struct Matched {
    pub name: String,
    pub values: Vec<String>,
}

/// The finds as a map from name to values, a later find replacing an
/// earlier one of the same name.
pub open spec fn finds_map(finds: Seq<Matched>) -> Map<Seq<char>, Seq<Seq<char>>>
    decreases finds.len(),
{
    if finds.len() == 0 {
        Map::empty()
    } else {
        finds_map(finds.drop_last()).insert(finds.last().name@, texts_of(finds.last().values@))
    }
}

/// The arguments found on a command line. An argument is present when it
/// was written or has a default; a switch is present without values.
#[derive(Clone, Debug)]
pub struct ArgMatches {
    finds: Vec<Matched>,
}

impl View for ArgMatches {
    type V = Map<Seq<char>, Seq<Seq<char>>>;

    closed spec fn view(&self) -> Map<Seq<char>, Seq<Seq<char>>> {
        finds_map(self.finds@)
    }
}

impl ArgMatches {
    /// The first value of `name`, if it is present with one.
    pub open spec fn spec_value_of(&self, name: Seq<char>) -> Option<Seq<char>> {
        if self@.contains_key(name) && self@[name].len() > 0 {
            Some(self@[name][0])
        } else {
            None
        }
    }

    /// No argument found.
    pub fn new() -> (matches: ArgMatches)
        ensures
            matches@ == Map::<Seq<char>, Seq<Seq<char>>>::empty(),
    {
        ArgMatches { finds: Vec::new() }
    }

    /// Records that `name` was found with `values`, in place of what was
    /// recorded for it before.
    pub fn insert(&mut self, name: &str, values: Vec<String>)
        ensures
            final(self)@ == old(self)@.insert(name@, texts_of(values@)),
    {
        self.finds.push(Matched { name: name.to_owned(), values });
        assert(self.finds@.drop_last() =~= old(self).finds@);
    }

    /// Where the find that counts for `name` stands.
    fn position(&self, name: &str) -> (at: Option<usize>)
        ensures
            match at {
                Some(i) => i < self.finds.len() && self@.contains_key(name@) && self@[name@]
                    == texts_of(self.finds[i as int].values@),
                None => !self@.contains_key(name@),
            },
    {
        let wanted = name.to_owned();
        let mut i: usize = self.finds.len();
        assert(self.finds@.take(i as int) =~= self.finds@);
        while i > 0
            invariant
                i <= self.finds.len(),
                wanted@ == name@,
                self@.contains_key(name@) == finds_map(self.finds@.take(i as int)).contains_key(
                    name@,
                ),
                self@.contains_key(name@) ==> self@[name@] == finds_map(
                    self.finds@.take(i as int),
                )[name@],
            decreases i,
        {
            i = i - 1;
            assert(self.finds@.take(i + 1).drop_last() =~= self.finds@.take(i as int));
            assert(self.finds@.take(i + 1).last() == self.finds[i as int]);
            if self.finds[i].name == wanted {
                return Some(i);
            }
        }
        None
    }

    /// Whether `name` was found.
    pub fn is_present(&self, name: &str) -> (present: bool)
        ensures
            present == self@.contains_key(name@),
    {
        self.position(name).is_some()
    }

    /// The first value of `name`, if it was found with one.
    pub fn value_of(&self, name: &str) -> (value: Option<&str>)
        ensures
            match value {
                Some(v) => self.spec_value_of(name@) == Some(v@),
                None => self.spec_value_of(name@) is None,
            },
    {
        match self.position(name) {
            Some(i) => {
                if self.finds[i].values.len() > 0 {
                    Some(self.finds[i].values[0].as_str())
                } else {
                    None
                }
            },
            None => None,
        }
    }

    /// All values of `name`, if it was found with at least one.
    pub fn values_of(&self, name: &str) -> (values: Option<&Vec<String>>)
        ensures
            match values {
                Some(v) => self@.contains_key(name@) && v@.len() > 0 && self@[name@] == texts_of(
                    v@,
                ),
                None => !self@.contains_key(name@) || self@[name@].len() == 0,
            },
    {
        match self.position(name) {
            Some(i) => {
                if self.finds[i].values.len() > 0 {
                    Some(&self.finds[i].values)
                } else {
                    None
                }
            },
            None => None,
        }
    }
}

/// Why `text` is no number, in words.
pub open spec fn number_fault(e: NumberError) -> Seq<char> {
    match e {
        NumberError::Empty => "cannot parse integer from empty string"@,
        NumberError::InvalidDigit => "invalid digit found in string"@,
        NumberError::Overflow => "number too large to fit in target type"@,
    }
}

/// The complaint about a text that is no number.
pub open spec fn invalid_number(text: Seq<char>, e: NumberError) -> Seq<char> {
    "Invalid number '"@ + text + "' is supplied. "@ + number_fault(e)
}

/// The number that `text` writes if it is at most `max`, else the complaint.
pub open spec fn number_or_complaint(text: Seq<char>, max: nat) -> Result<nat, Seq<char>> {
    match parse_unsigned(text, max) {
        Ok(value) => Ok(value),
        Err(e) => Err(invalid_number(text, e)),
    }
}

fn parse_at_most(name: &str, max: u64) -> (r: Result<u64, String>)
    ensures
        match r {
            Ok(value) => number_or_complaint(name@, max as nat) == Ok::<nat, Seq<char>>(
                value as nat,
            ),
            Err(complaint) => number_or_complaint(name@, max as nat) == Err::<nat, Seq<char>>(
                complaint@,
            ),
        },
{
    match parse_bounded(name, max) {
        Ok(value) => {
            proof {
                lemma_scan_ok_bounded(digits_of(name@), max as nat);
            }
            Ok(value)
        },
        Err(e) => {
            let fault = match e {
                NumberError::Empty => "cannot parse integer from empty string",
                NumberError::InvalidDigit => "invalid digit found in string",
                NumberError::Overflow => "number too large to fit in target type",
            };
            let mut complaint = "Invalid number '".to_owned();
            complaint.append(name);
            complaint.append("' is supplied. ");
            complaint.append(fault);
            Err(complaint)
        },
    }
}

/// Reads `name` as an unsigned decimal number: digits, after at most one
/// plus sign. Anything else is answered with a complaint that quotes the
/// text.
pub fn parse_int(name: &str) -> (r: Result<u64, String>)
    ensures
        match r {
            Ok(value) => number_or_complaint(name@, u64::MAX as nat) == Ok::<nat, Seq<char>>(
                value as nat,
            ),
            Err(complaint) => number_or_complaint(name@, u64::MAX as nat) == Err::<
                nat,
                Seq<char>,
            >(complaint@),
        },
{
    parse_at_most(name, u64::MAX)
}

/// `parse_int` for a number that counts things in memory.
pub fn parse_size(name: &str) -> (r: Result<usize, String>)
    ensures
        match r {
            Ok(value) => number_or_complaint(name@, usize::MAX as nat) == Ok::<nat, Seq<char>>(
                value as nat,
            ),
            Err(complaint) => number_or_complaint(name@, usize::MAX as nat) == Err::<
                nat,
                Seq<char>,
            >(complaint@),
        },
{
    match parse_at_most(name, usize::MAX as u64) {
        Ok(value) => {
            proof {
                lemma_scan_ok_bounded(digits_of(name@), usize::MAX as nat);
            }
            Ok(value as usize)
        },
        Err(complaint) => Err(complaint),
    }
}

} // verus!
