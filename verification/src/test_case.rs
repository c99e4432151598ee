//! One entry of the catalog, and what is derived from it: its name, the
//! address of its description file, and whether it runs.

use crate::text::{lemma_replaced_holds_none, replace, replaced};
use crate::vendor::{lemma_group_name_has_no_dot, repo_folder, Group};
use svd2rust::Target;
use vstd::prelude::*;
use vstd::string::StringExecFns;

verus! {

/// `svd2rust::Target`, the architecture that code is generated for. It is
/// declared without its contents: a case carries it to the generator, and
/// nothing here looks inside.
#[verifier::external_type_specification]
#[verifier::external_body]
pub struct ExTarget(svd2rust::Target);

/// Where the description files are published: the address of the folder that
/// holds one folder for each vendor.
pub const SVD_DATA_URL: &'static str =
    "https://raw.githubusercontent.com/cmsis-svd/cmsis-svd-data/main/data/";

/// The ending of a description file's name.
pub const SVD_SUFFIX: &'static str = ".svd";

/// When a case takes part in a run.
#[derive(Debug, Clone, Copy, PartialEq, Eq, Structural)]
pub enum RunWhen {
    /// In every run.
    Always,
    /// In every run but an abbreviated one.
    NotShort,
    /// Reserved. It does not hold a case back: such a case runs as one marked
    /// `Always` does.
    Never,
}

impl Default for RunWhen {
    /// A case that says nothing else runs always.
    fn default() -> (run_when: RunWhen)
        ensures
            run_when == RunWhen::Always,
    {
        RunWhen::Always
    }
}

/// One chip description file to fetch, and one run of the generator on it.
#[derive(Debug, PartialEq, Eq)]
pub struct TestCase {
    /// The architecture handed to the generator.
    pub arch: Target,
    /// The chip family.
    pub group: Group,
    /// The chip.
    pub chip: String,
    /// Tells apart cases on one chip; it ends the case's name.
    pub suffix: Option<String>,
    /// Further options for the generator, in order.
    pub opts: Option<Vec<String>>,
    /// Where the description file is, if not in the vendor's folder.
    pub svd_url: Option<String>,
    /// Whether the generator is expected to succeed.
    pub should_pass: bool,
    /// Whether the check of what was generated is left out.
    pub skip_check: bool,
    /// When the case runs.
    pub run_when: RunWhen,
}

/// A case as a mathematical value: text as sequences of characters.
pub struct TestCaseView {
    pub arch: Target,
    pub group: Group,
    pub chip: Seq<char>,
    pub suffix: Option<Seq<char>>,
    pub opts: Option<Seq<Seq<char>>>,
    pub svd_url: Option<Seq<char>>,
    pub should_pass: bool,
    pub skip_check: bool,
    pub run_when: RunWhen,
}

impl View for TestCase {
    type V = TestCaseView;

    open spec fn view(&self) -> TestCaseView {
        TestCaseView {
            arch: self.arch,
            group: self.group,
            chip: self.chip@,
            suffix: match self.suffix {
                Some(suffix) => Some(suffix@),
                None => None,
            },
            opts: match self.opts {
                Some(opts) => Some(opts.deep_view()),
                None => None,
            },
            svd_url: match self.svd_url {
                Some(url) => Some(url@),
                None => None,
            },
            should_pass: self.should_pass,
            skip_check: self.skip_check,
            run_when: self.run_when,
        }
    }
}

impl Clone for TestCase {
    /// A copy that stands for the same case.
    fn clone(&self) -> (copy: TestCase)
        ensures
            copy@ == self@,
    {
        let copy = TestCase {
            arch: self.arch,
            group: self.group,
            chip: self.chip.clone(),
            suffix: self.suffix.clone(),
            opts: self.opts.clone(),
            svd_url: self.svd_url.clone(),
            should_pass: self.should_pass,
            skip_check: self.skip_check,
            run_when: self.run_when,
        };
        proof {
            if self.opts is Some {
                assert(copy.opts->0.deep_view() =~= self.opts->0.deep_view());
            }
        }
        copy
    }
}

impl TestCaseView {
    /// The case's name: the family, a `-`, the chip with `_` for each `.`,
    /// and then, if there is a suffix, another `-` and the suffix.
    pub open spec fn name(self) -> Seq<char> {
        let base = self.group.name().push('-') + replaced(self.chip, '.', '_');
        match self.suffix {
            Some(suffix) => base.push('-') + suffix,
            None => base,
        }
    }

    /// Where the case's description file is: the address it names, if it
    /// names one; else the file called after the chip in the folder of the
    /// family's vendor. A case of `Group::Unknown` that names no address has
    /// none.
    pub open spec fn source_url(self) -> Option<Seq<char>> {
        match (self.svd_url, repo_folder(self.group)) {
            (Some(url), _) => Some(url),
            (None, Some(folder)) => Some(
                SVD_DATA_URL@ + folder.push('/') + self.chip + SVD_SUFFIX@,
            ),
            (None, None) => None,
        }
    }

    /// Whether the case takes part in a run, abbreviated (`short_test`) or
    /// not: every case does, but one marked `NotShort` in an abbreviated run.
    pub open spec fn should_run(self, short_test: bool) -> bool {
        !(self.run_when == RunWhen::NotShort && short_test)
    }
}

/// The shape of a case's name. It begins with the family's name and one
/// `-`. Then comes the chip, as long as it was, with `_` where it had `.`, and
/// so without any `.`. With no suffix the name ends there; with one, a single
/// `-` and the suffix follow.
pub proof fn lemma_name_shape(case: TestCaseView)
    ensures
        ({
            let name = case.name();
            let family = case.group.name();
            let start: int = family.len() as int + 1;
            let end: int = start + case.chip.len();
            &&& end <= name.len()
            &&& name.subrange(0, family.len() as int) == family
            &&& name[family.len() as int] == '-'
            &&& name.subrange(start, end) == replaced(case.chip, '.', '_')
            &&& !name.subrange(start, end).contains('.')
            &&& match case.suffix {
                Some(suffix) => name[end] == '-' && name.subrange(end + 1, name.len() as int)
                    == suffix,
                None => name.len() == end,
            }
        }),
{
    lemma_replaced_holds_none(case.chip, '.', '_');
}

/// The name of a case without a suffix holds no `.` at all.
pub proof fn lemma_name_without_suffix_has_no_dot(case: TestCaseView)
    requires
        case.suffix is None,
    ensures
        !case.name().contains('.'),
{
    lemma_group_name_has_no_dot(case.group);
    lemma_replaced_holds_none(case.chip, '.', '_');
}

impl TestCase {
    /// A case that states only what every case must state. The rest is as a
    /// record that leaves it out is read: no suffix, no options, no address
    /// of its own, expected to pass, checked, run always.
    pub fn new(arch: Target, group: Group, chip: String) -> (case: TestCase)
        ensures
            case@ == (TestCaseView {
                arch,
                group,
                chip: chip@,
                suffix: None,
                opts: None,
                svd_url: None,
                should_pass: true,
                skip_check: false,
                run_when: RunWhen::Always,
            }),
    {
        TestCase {
            arch,
            group,
            chip,
            suffix: None,
            opts: None,
            svd_url: None,
            should_pass: true,
            skip_check: false,
            run_when: RunWhen::default(),
        }
    }

    /// Whether the case's description file can be found: the case names an
    /// address, or its family has a vendor.
    pub fn has_source(&self) -> (found: bool)
        ensures
            found == (self@.source_url() is Some),
    {
        self.svd_url.is_some() || self.group.vendor().is_some()
    }

    /// The address of the case's description file: the one that the case
    /// names, unchanged, or the one derived from its family and chip. There
    /// must be one (see [`TestCase::has_source`]): a case of
    /// `Group::Unknown` with no address of its own is a fault of the catalog.
    pub fn svd_url(&self) -> (url: String)
        requires
            self@.source_url() is Some,
        ensures
            Some(url@) == self@.source_url(),
    {
        match &self.svd_url {
            Some(url) => url.clone(),
            None => {
                let folder = self.group.name_in_cmsis_svd_repo_as_str().unwrap();
                let mut url = SVD_DATA_URL.to_owned();
                url.append(folder.as_str());
                url.push('/');
                url.append(self.chip.as_str());
                url.append(SVD_SUFFIX);
                url
            },
        }
    }

    /// Whether the case takes part in a run, abbreviated (`short_test`) or
    /// not. `RunWhen::Never` holds no case back.
    pub fn should_run(&self, short_test: bool) -> (run: bool)
        ensures
            run == self@.should_run(short_test),
    {
        match (self.run_when, short_test) {
            (RunWhen::Always, _) => true,
            (RunWhen::NotShort, true) => false,
            (_, _) => true,
        }
    }

    /// The case's name, for display: family, chip and suffix joined by `-`,
    /// with `_` for each `.` of the chip.
    pub fn name(&self) -> (name: String)
        ensures
            name@ == self@.name(),
    {
        let mut base_name = self.group.as_str().to_owned();
        base_name.push('-');
        let chip = replace(self.chip.as_str(), '.', '_');
        base_name.append(chip.as_str());
        if let Some(suffix) = &self.suffix {
            base_name.push('-');
            base_name.append(suffix.as_str());
        }
        base_name
    }
}

} // verus!
