//! The catalog of a regression harness for hardware description files: the
//! vendor taxonomy, the test case records with what is derived from them, and
//! the rule by which the list of cases is loaded once and then kept.

pub mod catalog;
pub mod test_case;
pub mod text;
pub mod vendor;

pub use catalog::{
    format_for, tests, Catalog, Format, LoadError, LoadErrorView, Lookup, LookupView, ReadOutcome,
};
pub use svd2rust::Target;
pub use test_case::{RunWhen, TestCase, TestCaseView};
pub use vendor::{repo_folder, vendor_of, Group, Vendor};
