use vstd::prelude::*;

verus! {

/// Why a run of the `git` executable failed.
#[derive(Clone, Debug)]
pub enum GitError {
    /// The process could not be started.
    Execution,
    /// Its output was not valid UTF-8.
    Undecodable,
    /// It exited unsuccessfully, with this output.
    GitError { stdout: String, stderr: String },
}

/// A run of `git` to perform: the working directory and the arguments.
pub struct GitCommand {
    pub dir: String,
    pub args: Vec<String>,
}

impl GitCommand {
    pub open spec fn arg_view(&self) -> Seq<Seq<char>> {
        self.args@.map_values(|a: String| a@)
    }
}

/// What a finished `git` process reported.
pub struct GitOutput {
    pub success: bool,
    pub stdout: Vec<u8>,
    pub stderr: Vec<u8>,
}

/// The text that `bytes` encode in UTF-8, none where they are not valid UTF-8.
pub uninterp spec fn utf8_text(bytes: Seq<u8>) -> Option<Seq<char>>;

/// Relies on `std::str::from_utf8`: decodes the bytes as UTF-8 and fails
/// exactly on invalid input; the empty input is valid.
#[verifier::external_body]
fn decode_utf8(bytes: &Vec<u8>) -> (r: Option<String>)
    ensures
        r is Some ==> utf8_text(bytes@) == Some(r->0@),
        r is None ==> utf8_text(bytes@) is None,
        bytes@.len() == 0 ==> r is Some && r->0@.len() == 0,
{
    match std::str::from_utf8(bytes.as_slice()) {
        Ok(s) => Some(s.to_owned()),
        Err(_) => None,
    }
}

/// The result of a `git` run from its exit status and its output as text
/// (none where a stream is not UTF-8): the standard output on success, both
/// streams on failure, `Undecodable` where a stream it needs is not text.
pub fn interpret_decoded(success: bool, stdout: Option<String>, stderr: Option<String>) -> (r: Result<
    String,
    GitError,
>)
    ensures
        success ==> match stdout {
            Some(t) => r is Ok && r->Ok_0@ == t@,
            None => r matches Err(GitError::Undecodable),
        },
        !success ==> match (stdout, stderr) {
            (Some(o), Some(e)) => r matches Err(GitError::GitError { stdout, stderr })
                && stdout@ == o@ && stderr@ == e@,
            _ => r matches Err(GitError::Undecodable),
        },
{
    if success {
        match stdout {
            Some(t) => Ok(t),
            None => Err(GitError::Undecodable),
        }
    } else {
        match (stdout, stderr) {
            (Some(stdout), Some(stderr)) => Err(GitError::GitError { stdout, stderr }),
            _ => Err(GitError::Undecodable),
        }
    }
}

/// The result of a `git` run: its standard output as text on success; the
/// decoded output on failure; `Execution` when it did not start; `Undecodable`
/// when the output it needs is not UTF-8.
pub fn interpret_output(output: &Option<GitOutput>) -> (r: Result<String, GitError>)
    ensures
        output is None ==> r matches Err(GitError::Execution),
        output is Some && output->0.success ==> match utf8_text(output->0.stdout@) {
            Some(t) => r is Ok && r->Ok_0@ == t,
            None => r matches Err(GitError::Undecodable),
        },
        output is Some && !output->0.success ==> match (
            utf8_text(output->0.stdout@),
            utf8_text(output->0.stderr@),
        ) {
            (Some(o), Some(e)) => r matches Err(GitError::GitError { stdout, stderr })
                && stdout@ == o && stderr@ == e,
            _ => r matches Err(GitError::Undecodable),
        },
{
    match output {
        None => Err(GitError::Execution),
        Some(o) => {
            let stdout = decode_utf8(&o.stdout);
            let stderr = decode_utf8(&o.stderr);
            interpret_decoded(o.success, stdout, stderr)
        },
    }
}

/// A checkout driven through the `git` executable.
pub struct BinRepository {
    location: String,
}

impl BinRepository {
    pub closed spec fn location_view(&self) -> Seq<char> {
        self.location@
    }

    /// The checkout whose working directory is `p`.
    pub fn new(p: &str) -> (r: BinRepository)
        ensures
            r.location_view() == p@,
    {
        BinRepository { location: String::from_str(p) }
    }

    /// The working directory.
    pub fn location(&self) -> (r: &String)
        ensures
            r@ == self.location_view(),
    {
        &self.location
    }

    /// The run that pulls `upstream_branch` from `upstream` and merges it:
    /// `git pull <upstream> <upstream_branch>` in the working directory.
    pub fn pull_merge(&self, upstream: &str, upstream_branch: &str) -> (r: GitCommand)
        ensures
            r.dir@ == self.location_view(),
            r.arg_view() == seq!["pull"@, upstream@, upstream_branch@],
    {
        let mut args: Vec<String> = Vec::new();
        args.push(String::from_str("pull"));
        args.push(String::from_str(upstream));
        args.push(String::from_str(upstream_branch));
        let r = GitCommand { dir: self.location.clone(), args };
        assert(r.arg_view() =~= seq!["pull"@, upstream@, upstream_branch@]);
        r
    }

    /// The run that fetches `branch` from `remote` into `FETCH_HEAD`:
    /// `git fetch <remote> <branch>` in the working directory.
    pub fn fetch(&self, remote: &str, branch: &str) -> (r: GitCommand)
        ensures
            r.dir@ == self.location_view(),
            r.arg_view() == seq!["fetch"@, remote@, branch@],
    {
        let mut args: Vec<String> = Vec::new();
        args.push(String::from_str("fetch"));
        args.push(String::from_str(remote));
        args.push(String::from_str(branch));
        let r = GitCommand { dir: self.location.clone(), args };
        assert(r.arg_view() =~= seq!["fetch"@, remote@, branch@]);
        r
    }
}

} // verus!
