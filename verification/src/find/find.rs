//! Judging what a walk through the folders meets: which entries are
//! printed, which errors are complained of, and how the search ends.

use crate::find::cli::Args;
use crate::find::pattern::{is_match, matched_texts};
use vstd::prelude::*;
use vstd::string::*;

verus! {

/// One entry that a walk met.
#[derive(Clone, Debug)]
pub struct Entry {
    /// The path under which the entry was met, as it is printed.
    pub path: String,
    /// The last component of the path.
    pub name: String,
    pub is_file: bool,
    pub is_dir: bool,
}

/// What a walk through one folder met: entries, and errors in words.
#[derive(Debug)]
pub struct Walk {
    /// The folder as it was named.
    pub path: String,
    /// Whether the folder exists. One that does not is not walked.
    pub exists: bool,
    pub items: Vec<Result<Entry, String>>,
}

/// The result of a search as plain text.
pub struct ReportModel {
    pub code: i32,
    pub output: Seq<char>,
    pub error: Seq<char>,
}

/// The result of a search, as far as it has come.
#[derive(Debug)]
pub struct Report {
    /// The exit code: 0 once an entry was printed, 1 before.
    pub code: i32,
    /// Text for the standard output, complete with line ends.
    pub output: String,
    /// Text for the standard error, complete with line ends.
    pub error: String,
}

impl View for Report {
    type V = ReportModel;

    open spec fn view(&self) -> ReportModel {
        ReportModel { code: self.code, output: self.output@, error: self.error@ }
    }
}

/// The result of a search that has met nothing yet.
pub open spec fn nothing_found() -> ReportModel {
    ReportModel { code: 1, output: Seq::empty(), error: Seq::empty() }
}

impl Report {
    /// The result of a search that has met nothing yet.
    pub fn new() -> (report: Report)
        ensures
            report@ == nothing_found(),
    {
        Report { code: 1, output: String::new(), error: String::new() }
    }
}

/// A search with its arguments.
pub struct Find {
    args: Args,
}

impl Find {
    /// The arguments of the search.
    pub closed spec fn args(&self) -> Args {
        self.args
    }

    /// A search with the arguments `parser`.
    pub fn from_parser(parser: Args) -> (find: Find)
        ensures
            find.args() == parser,
    {
        Find { args: parser }
    }

    /// The arguments of the search.
    pub fn arguments(&self) -> (args: &Args)
        ensures
            *args == self.args(),
    {
        &self.args
    }

    /// Whether the entry is of a kind that is printed.
    pub open spec fn accepts_type(&self, entry: &Entry) -> bool {
        (entry.is_file && self.args().flags.file) || (entry.is_dir && self.args().flags.dir)
    }

    /// Whether the pattern finds a match in the name of the entry.
    pub open spec fn accepts_name(&self, entry: &Entry) -> bool {
        matched_texts(self.args().pattern).contains(entry.name@)
    }

    /// Whether the entry is printed.
    pub open spec fn accepts(&self, entry: &Entry) -> bool {
        self.accepts_type(entry) && self.accepts_name(entry)
    }

    /// The complaint about an error that a walk met.
    pub open spec fn walk_complaint(reason: Seq<char>) -> Seq<char> {
        "ERROR: "@ + reason + "\n"@
    }

    /// The complaint about a folder that does not exist.
    pub open spec fn missing_complaint(path: Seq<char>) -> Seq<char> {
        "toa: "@ + path + " cannot access\n"@
    }

    /// The result after one more item of a walk: an accepted entry is
    /// printed and makes the search a success; an error is complained of
    /// unless the search is quiet; anything else changes nothing.
    pub open spec fn visited(&self, item: Result<Entry, String>, before: ReportModel)
        -> ReportModel {
        match item {
            Ok(entry) => if self.accepts(&entry) {
                ReportModel { code: 0, output: before.output + entry.path@ + "\n"@, ..before }
            } else {
                before
            },
            Err(reason) => if self.args().flags.quiet {
                before
            } else {
                ReportModel { error: before.error + Find::walk_complaint(reason@), ..before }
            },
        }
    }

    /// The result after the items of a walk, in their order.
    pub open spec fn walked(&self, items: Seq<Result<Entry, String>>, before: ReportModel)
        -> ReportModel
        decreases items.len(),
    {
        if items.len() == 0 {
            before
        } else {
            self.visited(items.last(), self.walked(items.drop_last(), before))
        }
    }

    /// The result after a folder that does not exist: a complaint, unless
    /// the search is quiet.
    pub open spec fn missed(&self, path: Seq<char>, before: ReportModel) -> ReportModel {
        if self.args().flags.quiet {
            before
        } else {
            ReportModel { error: before.error + Find::missing_complaint(path), ..before }
        }
    }

    /// The result after one folder.
    pub open spec fn entered(&self, walk: Walk, before: ReportModel) -> ReportModel {
        if walk.exists {
            self.walked(walk.items@, before)
        } else {
            self.missed(walk.path@, before)
        }
    }

    /// The result after the folders, in their order.
    pub open spec fn searched(&self, walks: Seq<Walk>, before: ReportModel) -> ReportModel
        decreases walks.len(),
    {
        if walks.len() == 0 {
            before
        } else {
            self.entered(walks.last(), self.searched(walks.drop_last(), before))
        }
    }

    /// Whether the item is an entry that is printed.
    pub open spec fn prints(&self, item: Result<Entry, String>) -> bool {
        item matches Ok(entry) && self.accepts(&entry)
    }

    /// Whether a walk met an entry that is printed.
    pub open spec fn meets_accepted(&self, items: Seq<Result<Entry, String>>) -> bool {
        exists|i: int| 0 <= i < items.len() && self.prints(#[trigger] items[i])
    }

    /// Whether the folder exists and its walk met an entry that is printed.
    pub open spec fn finds_in(&self, walk: Walk) -> bool {
        walk.exists && self.meets_accepted(walk.items@)
    }

    /// A walk makes the search a success exactly when it meets an entry
    /// that is printed; a success stays one.
    pub proof fn lemma_walk_succeeds(
        &self,
        items: Seq<Result<Entry, String>>,
        before: ReportModel,
    )
        requires
            before.code == 0 || before.code == 1,
        ensures
            self.walked(items, before).code == 0 <==> before.code == 0 || self.meets_accepted(
                items,
            ),
            self.walked(items, before).code == 0 || self.walked(items, before).code == 1,
        decreases items.len(),
    {
        if items.len() > 0 {
            let rest = items.drop_last();
            self.lemma_walk_succeeds(rest, before);
            if self.meets_accepted(rest) {
                let i = choose|i: int| 0 <= i < rest.len() && self.prints(#[trigger] rest[i]);
                assert(items[i] == rest[i]);
            }
            if self.meets_accepted(items) {
                let i = choose|i: int| 0 <= i < items.len() && self.prints(#[trigger] items[i]);
                if i < items.len() - 1 {
                    assert(rest[i] == items[i]);
                }
            }
            if self.prints(items.last()) {
                assert(items[items.len() - 1] == items.last());
            }
        }
    }

    /// A search ends with exit code 0 exactly when, in some folder that
    /// exists, the walk met an entry of a kind that is printed whose name
    /// the pattern matches; else it ends with exit code 1.
    pub proof fn lemma_search_succeeds(&self, walks: Seq<Walk>)
        ensures
            self.searched(walks, nothing_found()).code == 0 <==> exists|i: int|
                0 <= i < walks.len() && self.finds_in(#[trigger] walks[i]),
            self.searched(walks, nothing_found()).code == 0 || self.searched(
                walks,
                nothing_found(),
            ).code == 1,
        decreases walks.len(),
    {
        if walks.len() > 0 {
            let rest = walks.drop_last();
            let before = self.searched(rest, nothing_found());
            self.lemma_search_succeeds(rest);
            self.lemma_walk_succeeds(walks.last().items@, before);
            if exists|i: int| 0 <= i < rest.len() && self.finds_in(#[trigger] rest[i]) {
                let i = choose|i: int| 0 <= i < rest.len() && self.finds_in(#[trigger] rest[i]);
                assert(walks[i] == rest[i]);
            }
            if exists|i: int| 0 <= i < walks.len() && self.finds_in(#[trigger] walks[i]) {
                let i = choose|i: int| 0 <= i < walks.len() && self.finds_in(#[trigger] walks[i]);
                if i < walks.len() - 1 {
                    assert(rest[i] == walks[i]);
                }
            }
            if self.finds_in(walks.last()) {
                assert(walks[walks.len() - 1] == walks.last());
            }
        }
    }

    /// Whether the entry is of a kind that is printed.
    pub fn filter_type(&self, entry: &Entry) -> (keep: bool)
        ensures
            keep == self.accepts_type(entry),
    {
        (entry.is_file && self.args.flags.file) || (entry.is_dir && self.args.flags.dir)
    }

    /// Whether the pattern finds a match in the name of the entry.
    pub fn filter_name(&self, entry: &Entry) -> (keep: bool)
        ensures
            keep == self.accepts_name(entry),
    {
        is_match(&self.args.pattern, entry.name.as_str())
    }

    /// Lets an entry through; an error is complained of in `report`,
    /// unless the search is quiet, and nothing comes through.
    pub fn filter_error<'a>(&self, value: &'a Result<Entry, String>, report: &mut Report) -> (entry:
        Option<&'a Entry>)
        ensures
            match *value {
                Ok(met) => entry == Some(&met) && final(report)@ == old(report)@,
                Err(_) => entry is None && final(report)@ == self.visited(*value, old(report)@),
            },
    {
        match value {
            Ok(entry) => Some(entry),
            Err(reason) => {
                if !self.args.flags.quiet {
                    report.error.append("ERROR: ");
                    report.error.append(reason.as_str());
                    report.error.append("\n");
                    assert(report.error@ =~= old(report).error@ + Find::walk_complaint(reason@));
                }
                None
            },
        }
    }

    /// Takes in one item of a walk.
    pub fn visit(&self, item: &Result<Entry, String>, report: &mut Report)
        ensures
            final(report)@ == self.visited(*item, old(report)@),
    {
        if let Some(entry) = self.filter_error(item, report) {
            if self.filter_type(entry) && self.filter_name(entry) {
                report.code = 0;
                report.output.append(entry.path.as_str());
                report.output.append("\n");
                assert(report.output@ =~= old(report).output@ + entry.path@ + "\n"@);
            }
        }
    }

    /// Takes in that the folder `path` does not exist.
    pub fn missing(&self, path: &str, report: &mut Report)
        ensures
            final(report)@ == self.missed(path@, old(report)@),
    {
        if !self.args.flags.quiet {
            report.error.append("toa: ");
            report.error.append(path);
            report.error.append(" cannot access\n");
            assert(report.error@ =~= old(report).error@ + Find::missing_complaint(path@));
        }
    }

    /// Judges what the walks through the folders met: prints the path of
    /// each entry of a wanted kind whose name the pattern matches, in the
    /// order in which they were met, and complains of each error and each
    /// folder that does not exist, unless the search is quiet.
    pub fn run(&self, walks: &Vec<Walk>) -> (report: Report)
        ensures
            report@ == self.searched(walks@, nothing_found()),
    {
        let mut report = Report::new();
        let mut i: usize = 0;
        assert(walks@.take(0) =~= Seq::empty());
        while i < walks.len()
            invariant
                0 <= i <= walks.len(),
                report@ == self.searched(walks@.take(i as int), nothing_found()),
            decreases walks.len() - i,
        {
            let walk = &walks[i];
            let ghost before = report@;
            assert(walks@.take(i + 1).drop_last() =~= walks@.take(i as int));
            assert(walks@.take(i + 1).last() == *walk);
            if !walk.exists {
                self.missing(walk.path.as_str(), &mut report);
            } else {
                let mut j: usize = 0;
                assert(walk.items@.take(0) =~= Seq::empty());
                while j < walk.items.len()
                    invariant
                        0 <= j <= walk.items.len(),
                        report@ == self.walked(walk.items@.take(j as int), before),
                    decreases walk.items.len() - j,
                {
                    assert(walk.items@.take(j + 1).drop_last() =~= walk.items@.take(j as int));
                    assert(walk.items@.take(j + 1).last() == walk.items[j as int]);
                    self.visit(&walk.items[j], &mut report);
                    j = j + 1;
                }
                assert(walk.items@.take(j as int) =~= walk.items@);
            }
            i = i + 1;
        }
        assert(walks@.take(i as int) =~= walks@);
        report
    }
}

} // verus!
