//! The list of cases: in which format a source is read, and the rule that the
//! list is loaded once and kept from then on.
//!
//! Reading and decoding a file is the caller's part. [`tests`] says what has
//! to be done, and [`Catalog::complete`] takes what came of it.

use crate::test_case::TestCase;
use crate::text::{ends_with, has_suffix};
use vstd::prelude::*;
use vstd::string::StringExecFns;

verus! {

/// What is told where no source is named and no list is held.
pub const NO_SOURCE: &'static str = "no test cases specified";

/// What is told, before its name, of a source that cannot be opened.
pub const CANNOT_OPEN: &'static str = "couldn't open file ";

/// What is told of a source whose name ends in none of the known suffixes.
pub const UNKNOWN_EXTENSION: &'static str = "unknown file extension";

/// The format of a source.
#[derive(Debug, Clone, Copy, PartialEq, Eq, Structural)]
pub enum Format {
    Json,
    Yaml,
}

/// Why no list of cases could be had.
#[derive(Debug, PartialEq, Eq)]
pub enum LoadError {
    /// No source was named, and no list is held yet.
    Configuration,
    /// The source could not be opened or read.
    FileAccess { path: String },
    /// The source's name ends in no known suffix, or what it holds is not a
    /// list of cases; `detail` says which, and where.
    Parse { path: String, detail: String },
}

/// A [`LoadError`] as a mathematical value.
pub enum LoadErrorView {
    Configuration,
    FileAccess { path: Seq<char> },
    Parse { path: Seq<char>, detail: Seq<char> },
}

impl View for LoadError {
    type V = LoadErrorView;

    open spec fn view(&self) -> LoadErrorView {
        match self {
            LoadError::Configuration => LoadErrorView::Configuration,
            LoadError::FileAccess { path } => LoadErrorView::FileAccess { path: path@ },
            LoadError::Parse { path, detail } => LoadErrorView::Parse {
                path: path@,
                detail: detail@,
            },
        }
    }
}

impl LoadErrorView {
    /// The failure in words: what went wrong, and with which source.
    pub open spec fn message(self) -> Seq<char> {
        match self {
            LoadErrorView::Configuration => NO_SOURCE@,
            LoadErrorView::FileAccess { path } => CANNOT_OPEN@ + path,
            LoadErrorView::Parse { path, detail } => detail + " for "@ + path,
        }
    }
}

impl Clone for LoadError {
    /// A copy that tells of the same failure.
    fn clone(&self) -> (copy: LoadError)
        ensures
            copy@ == self@,
    {
        match self {
            LoadError::Configuration => LoadError::Configuration,
            LoadError::FileAccess { path } => LoadError::FileAccess { path: path.clone() },
            LoadError::Parse { path, detail } => LoadError::Parse {
                path: path.clone(),
                detail: detail.clone(),
            },
        }
    }
}

impl LoadError {
    /// The failure in words, for the one who has to mend the catalog.
    pub fn message(&self) -> (text: String)
        ensures
            text@ == self@.message(),
    {
        match self {
            LoadError::Configuration => NO_SOURCE.to_owned(),
            LoadError::FileAccess { path } => {
                let mut text = CANNOT_OPEN.to_owned();
                text.append(path.as_str());
                text
            },
            LoadError::Parse { path, detail } => {
                let mut text = detail.clone();
                text.append(" for ");
                text.append(path.as_str());
                text
            },
        }
    }
}

/// What came of reading and decoding a source.
#[derive(Debug, PartialEq, Eq)]
pub enum ReadOutcome {
    /// The source held this list of cases.
    Decoded(Vec<TestCase>),
    /// The source could not be opened or read.
    Unreadable,
    /// What the source holds is not a list of cases.
    Malformed { detail: String },
}

/// The answer to a request for the cases.
#[derive(Debug, PartialEq, Eq)]
pub enum Lookup<'a> {
    /// The list that is held.
    Cached(&'a [TestCase]),
    /// No list is held yet: the source is to be read in this format, and the
    /// outcome handed to [`Catalog::complete`].
    Read(Format),
}

/// A [`Lookup`] as a mathematical value.
pub enum LookupView {
    Cached(Seq<TestCase>),
    Read(Format),
}

impl<'a> View for Lookup<'a> {
    type V = LookupView;

    open spec fn view(&self) -> LookupView {
        match self {
            Lookup::Cached(list) => LookupView::Cached(list@),
            Lookup::Read(format) => LookupView::Read(*format),
        }
    }
}

/// The list of cases of one process: empty until a source has been read, and
/// from then on the cases of that source, never changed or replaced.
#[derive(Debug)]
pub struct Catalog {
    cases: Option<Vec<TestCase>>,
}

impl View for Catalog {
    type V = Option<Seq<TestCase>>;

    closed spec fn view(&self) -> Option<Seq<TestCase>> {
        match self.cases {
            Some(cases) => Some(cases@),
            None => None,
        }
    }
}

/// The format that a source's name asks for, by its suffix alone: `.yml` and
/// `.yaml` for YAML, `.json` for JSON, and no other.
pub open spec fn format_of(name: Seq<char>) -> Option<Format> {
    if ends_with(name, ".yml"@) || ends_with(name, ".yaml"@) {
        Some(Format::Yaml)
    } else if ends_with(name, ".json"@) {
        Some(Format::Json)
    } else {
        None
    }
}

/// The name of a source as a mathematical value.
pub open spec fn source_view(source: Option<&str>) -> Option<Seq<char>> {
    match source {
        Some(name) => Some(name@),
        None => None,
    }
}

/// The answer to a request for the cases, given what is held and the source
/// that the request names. What is held answers every request, whatever it
/// names; without it a source is needed, and one of a known format.
pub open spec fn lookup(held: Option<Seq<TestCase>>, source: Option<Seq<char>>) -> Result<
    LookupView,
    LoadErrorView,
> {
    match held {
        Some(cases) => Ok(LookupView::Cached(cases)),
        None => match source {
            None => Err(LoadErrorView::Configuration),
            Some(name) => match format_of(name) {
                Some(format) => Ok(LookupView::Read(format)),
                None => Err(LoadErrorView::Parse { path: name, detail: UNKNOWN_EXTENSION@ }),
            },
        },
    }
}

/// What is held after an outcome has come in: the first list that was
/// decoded, and nothing else.
pub open spec fn kept(held: Option<Seq<TestCase>>, outcome: ReadOutcome) -> Option<Seq<TestCase>> {
    match (held, outcome) {
        (None, ReadOutcome::Decoded(cases)) => Some(cases@),
        _ => held,
    }
}

/// What the caller is told of an outcome for the source at `path`.
pub open spec fn report(path: Seq<char>, outcome: ReadOutcome) -> Result<(), LoadErrorView> {
    match outcome {
        ReadOutcome::Decoded(_) => Ok(()),
        ReadOutcome::Unreadable => Err(LoadErrorView::FileAccess { path }),
        ReadOutcome::Malformed { detail } => Err(LoadErrorView::Parse { path, detail: detail@ }),
    }
}

/// The first list that is decoded is the one that is held.
pub proof fn lemma_first_list_is_held(cases: Vec<TestCase>)
    ensures
        kept(None, ReadOutcome::Decoded(cases)) == Some(cases@),
{
}

/// A list that is held stays. Every request is answered with that very list,
/// whatever source it names, and none is told to read; and no outcome that
/// comes in later changes the list, another decoded list no more than a
/// failure.
pub proof fn lemma_held_list_stays(
    cases: Seq<TestCase>,
    source: Option<Seq<char>>,
    outcome: ReadOutcome,
)
    ensures
        lookup(Some(cases), source) == Ok::<LookupView, LoadErrorView>(LookupView::Cached(cases)),
        kept(Some(cases), outcome) == Some(cases),
{
}

/// A failure leaves an empty catalog empty, so that the source may be read
/// again.
pub proof fn lemma_failure_holds_nothing(outcome: ReadOutcome)
    requires
        !(outcome is Decoded),
    ensures
        kept(None, outcome) is None,
{
}

/// While no list is held, a source whose name ends in none of `.yml`, `.yaml`
/// and `.json` is refused, and never answered with a list.
pub proof fn lemma_unknown_suffix_is_refused(name: Seq<char>)
    requires
        !ends_with(name, ".yml"@),
        !ends_with(name, ".yaml"@),
        !ends_with(name, ".json"@),
    ensures
        lookup(None, Some(name)) == Err::<LookupView, LoadErrorView>(
            LoadErrorView::Parse { path: name, detail: UNKNOWN_EXTENSION@ },
        ),
{
}

/// The format in which the source of this name is read.
pub fn format_for(name: &str) -> (format: Result<Format, LoadError>)
    ensures
        format is Ok <==> ends_with(name@, ".yml"@) || ends_with(name@, ".yaml"@) || ends_with(
            name@,
            ".json"@,
        ),
        match format {
            Ok(format) => format_of(name@) == Some(format),
            Err(error) => format_of(name@) is None && error@ == (LoadErrorView::Parse {
                path: name@,
                detail: UNKNOWN_EXTENSION@,
            }),
        },
{
    if has_suffix(name, ".yml") || has_suffix(name, ".yaml") {
        Ok(Format::Yaml)
    } else if has_suffix(name, ".json") {
        Ok(Format::Json)
    } else {
        Err(LoadError::Parse { path: name.to_owned(), detail: UNKNOWN_EXTENSION.to_owned() })
    }
}

/// Asks the catalog for the cases. It hands out the list it holds, whatever
/// `test_cases` names. While it holds none, it says in which format the named
/// source is to be read, and fails where no source is named or the name ends
/// in no known suffix.
pub fn tests<'a>(catalog: &'a Catalog, test_cases: Option<&str>) -> (answer: Result<
    Lookup<'a>,
    LoadError,
>)
    ensures
        match answer {
            Ok(found) => lookup(catalog@, source_view(test_cases)) == Ok::<
                LookupView,
                LoadErrorView,
            >(found@),
            Err(error) => lookup(catalog@, source_view(test_cases)) == Err::<
                LookupView,
                LoadErrorView,
            >(error@),
        },
{
    match &catalog.cases {
        Some(cases) => Ok(Lookup::Cached(cases.as_slice())),
        None => match test_cases {
            None => Err(LoadError::Configuration),
            Some(name) => match format_for(name) {
                Ok(format) => Ok(Lookup::Read(format)),
                Err(error) => Err(error),
            },
        },
    }
}

impl Catalog {
    /// A catalog that holds no list yet.
    pub fn new() -> (catalog: Catalog)
        ensures
            catalog@ is None,
    {
        Catalog { cases: None }
    }

    /// Whether a list is held.
    pub fn is_loaded(&self) -> (loaded: bool)
        ensures
            loaded == (self@ is Some),
    {
        self.cases.is_some()
    }

    /// The list that is held, if one is.
    pub fn cases(&self) -> (cases: Option<&[TestCase]>)
        ensures
            match cases {
                Some(list) => self@ == Some(list@),
                None => self@ is None,
            },
    {
        match &self.cases {
            Some(cases) => Some(cases.as_slice()),
            None => None,
        }
    }

    /// Takes what came of reading the source at `path`. A decoded list is
    /// kept if none is held yet, and dropped otherwise; a failure is told to
    /// the caller and changes nothing, so that a later request may read again.
    pub fn complete(&mut self, path: &str, outcome: ReadOutcome) -> (told: Result<(), LoadError>)
        ensures
            final(self)@ == kept(old(self)@, outcome),
            match told {
                Ok(()) => report(path@, outcome) is Ok,
                Err(error) => report(path@, outcome) == Err::<(), LoadErrorView>(error@),
            },
    {
        match outcome {
            ReadOutcome::Decoded(cases) => {
                if self.cases.is_none() {
                    self.cases = Some(cases);
                }
                Ok(())
            },
            ReadOutcome::Unreadable => Err(LoadError::FileAccess { path: path.to_owned() }),
            ReadOutcome::Malformed { detail } => Err(
                LoadError::Parse { path: path.to_owned(), detail },
            ),
        }
    }
}

} // verus!
