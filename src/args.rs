//! The options of a backup run, and where its credential comes from.
use vstd::prelude::*;

verus! {

/// The text that remains of `s` once leading and trailing whitespace is removed.
pub uninterp spec fn trimmed(s: Seq<char>) -> Seq<char>;

/// Relies on `str::trim`: the result is the argument without its leading and
/// trailing whitespace, and depends on the argument alone.
#[verifier::external_body]
fn trim_owned(s: &str) -> (r: String)
    ensures
        r@ == trimmed(s@),
{
    s.trim().to_string()
}

/// The options of a backup run.
pub struct Args {
    /// Owner of the repository to back up.
    pub owner: String,
    /// Name of the repository to back up.
    pub repo: String,
    /// Personal access token to the remote API.
    pub personal_access_token: Option<String>,
    /// File that holds the personal access token.
    pub personal_access_token_file: Option<String>,
    /// Directory the backup is written to.
    pub destination: String,
}

/// Where the credential of a run comes from.
pub enum TokenSource {
    /// Given directly.
    Direct(String),
    /// To be read from this file.
    File(String),
    /// Not given at all.
    Missing,
}

impl Args {
    /// A token given directly wins over a token file.
    pub fn token_source(&self) -> (r: TokenSource)
        ensures
            match (self.personal_access_token, self.personal_access_token_file) {
                (Some(t), _) => r matches TokenSource::Direct(x) && x@ == t@,
                (None, Some(f)) => r matches TokenSource::File(x) && x@ == f@,
                (None, None) => r is Missing,
            },
    {
        match &self.personal_access_token {
            Some(t) => TokenSource::Direct(t.clone()),
            None => match &self.personal_access_token_file {
                Some(f) => TokenSource::File(f.clone()),
                None => TokenSource::Missing,
            },
        }
    }
}

/// The credential held in a token file: its contents, trimmed.
pub fn token_from_file_contents(contents: &str) -> (r: String)
    ensures
        r@ == trimmed(contents@),
{
    trim_owned(contents)
}

} // verus!
