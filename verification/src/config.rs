//! The configuration a single run works with: where the journal lives,
//! which remote it pushes to, and the key of today's date.

use vstd::prelude::*;
use vstd::string::StringExecFns;

verus! {

use crate::clock;
use crate::date::Date;
use crate::date::date_key;
use crate::date::spec_date_key;

/// The fixed location of the journal directory below the home
/// directory.
pub open spec fn spec_data_suffix() -> Seq<char> {
    "/.local/share/journal"@
}

/// The journal directory: the home directory with the fixed suffix
/// appended.
pub open spec fn spec_storage_path(home: Seq<char>) -> Seq<char> {
    home + spec_data_suffix()
}

pub fn storage_path(home: &str) -> (r: String)
    ensures
        r@ == spec_storage_path(home@),
{
    home.to_owned().concat("/.local/share/journal")
}

/// Everything a subcommand needs, rebuilt on every invocation.
pub struct Config {
    pub git_remote_url: String,
    pub date_string: String,
    pub path_string: String,
}

impl Config {
    pub fn new(home: &str, git_remote_url: String, date: &Date) -> (c: Config)
        requires
            date.wf(),
        ensures
            c.path_string@ == spec_storage_path(home@),
            c.date_string@ == spec_date_key(*date),
            c.git_remote_url == git_remote_url,
    {
        Config {
            git_remote_url,
            date_string: date_key(date),
            path_string: storage_path(home),
        }
    }

    /// The day's entry file inside the journal directory.
    pub open spec fn spec_entry_path(self) -> Seq<char> {
        self.path_string@ + "/"@ + self.date_string@ + ".txt"@
    }

    pub fn entry_path(&self) -> (r: String)
        ensures
            r@ == self.spec_entry_path(),
    {
        let r = self.path_string.clone().concat("/").concat(self.date_string.as_str()).concat(
            ".txt",
        );
        proof {
            assert(r@ =~= self.spec_entry_path());
        }
        r
    }

    /// The commit message that records the day's save.
    pub open spec fn spec_commit_message(self) -> Seq<char> {
        "journal saved on "@ + self.date_string@
    }

    pub fn commit_message(&self) -> (r: String)
        ensures
            r@ == self.spec_commit_message(),
    {
        String::from_str("journal saved on ").concat(self.date_string.as_str())
    }
}

/// Resolves the configuration for this run: the storage path derived
/// from the home directory, the remote URL exactly as handed in (it is
/// read back from the repository, never re-typed), and the key of
/// today's date.
pub fn resolve_config(home: &str, git_remote_url: String) -> (c: Config)
    ensures
        c.path_string@ == spec_storage_path(home@),
        c.git_remote_url == git_remote_url,
        exists|d: Date| d.wf() && c.date_string@ == spec_date_key(d),
{
    let today = clock::today();
    let c = Config::new(home, git_remote_url, &today);
    proof {
        assert(today.wf() && c.date_string@ == spec_date_key(today));
    }
    c
}

} // verus!
