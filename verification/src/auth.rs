//! Locating the shared secret.
//!
//! The extension writes the secret to a file below the user's home directory
//! when it starts. Two places are tried, in a fixed order; the first file
//! that can be read as text gives the secret, trimmed of surrounding
//! whitespace.
//!
//! Reading files is the caller's part. A search is a [`TokenSearch`]: it
//! names the file to read next, both in full as text and relative to the
//! home directory, and [`TokenSearch::advance`] takes what the read brought
//! and says how the search goes on. [`run`] states where a
//! search ends that is driven this way, and the lemmas at the end of the
//! module say what that means for the files that exist.

use std::path::PathBuf;
use vstd::prelude::*;
use vstd::string::{StrSliceExecFns, StringExecFns};
use crate::text::{
    lemma_trim_idempotent, push_char, str_view, text_view, texts, trim, trimmed,
};

verus! {

/// Why no secret was found.
#[derive(Debug, PartialEq, Eq)]
pub enum AuthError {
    /// The home directory is not known.
    NoHome,
    /// None of the candidate files could be read; `paths` lists them all,
    /// in the order tried.
    NotFound { paths: Vec<String> },
}

/// An `AuthError` with its paths as sequences of characters.
pub enum AuthErrorView {
    NoHome,
    NotFound { paths: Seq<Seq<char>> },
}

impl View for AuthError {
    type V = AuthErrorView;

    open spec fn view(&self) -> AuthErrorView {
        match *self {
            AuthError::NoHome => AuthErrorView::NoHome,
            AuthError::NotFound { paths } => AuthErrorView::NotFound { paths: texts(paths@) },
        }
    }
}

/// The secret file directly below the home directory.
pub open spec fn home_file() -> Seq<char> {
    ".thunderbird-mcp-auth"@
}

/// The secret file of a snap installation, relative to the home directory.
pub open spec fn snap_file() -> Seq<char> {
    "snap/thunderbird/common/.thunderbird-mcp-auth"@
}

/// A relative name adjoined to a directory: a `/` goes between the two
/// unless the directory is empty or already ends in one. The name is meant
/// to be relative, that is, not to start with `/`: nothing is made of a name
/// that does, it is adjoined like any other.
pub open spec fn joined(dir: Seq<char>, name: Seq<char>) -> Seq<char> {
    if dir.len() == 0 || dir.last() == '/' {
        dir + name
    } else {
        dir + seq!['/'] + name
    }
}

/// The names of the files that may hold the secret, relative to the home
/// directory and in order of precedence.
pub open spec fn names() -> Seq<Seq<char>> {
    seq![home_file(), snap_file()]
}

/// The files that may hold the secret, in order of precedence.
pub open spec fn candidates(home: Seq<char>) -> Seq<Seq<char>> {
    seq![joined(home, home_file()), joined(home, snap_file())]
}

/// The name of the secret file directly below the home directory.
fn home_name() -> (r: &'static str)
    ensures
        r@ == home_file(),
{
    ".thunderbird-mcp-auth"
}

/// The name of the secret file of a snap installation.
fn snap_name() -> (r: &'static str)
    ensures
        r@ == snap_file(),
{
    "snap/thunderbird/common/.thunderbird-mcp-auth"
}

/// Adjoins a relative name to a directory. For a name that does not start
/// with `/` this is what `Path::join` gives where `/` separates the parts of
/// a path; a name that starts with `/` is adjoined all the same, where
/// `Path::join` would give the name alone.
pub fn join(dir: &str, name: &str) -> (r: String)
    ensures
        r@ == joined(dir@, name@),
{
    let n = dir.unicode_len();
    let mut out = String::from_str(dir);
    if n > 0 && dir.get_char(n - 1) != '/' {
        push_char(&mut out, '/');
    }
    out.append(name);
    out
}

/// The files that may hold the secret below `home`, in order of precedence.
pub fn candidate_paths(home: &str) -> (r: Vec<String>)
    ensures
        texts(r@) == candidates(home@),
{
    let mut paths: Vec<String> = Vec::new();
    paths.push(join(home, home_name()));
    paths.push(join(home, snap_name()));
    assert(texts(paths@) =~= candidates(home@));
    paths
}

/// A search in progress: the home directory, and how many candidates have
/// been tried without success.
pub struct SearchView {
    pub home: Seq<char>,
    pub tried: nat,
}

/// How a search goes on.
pub enum StepView {
    /// The next candidate is to be read.
    Probe(SearchView),
    /// The secret.
    Found(Seq<char>),
    /// There is no secret to be had.
    Failed(AuthErrorView),
}

/// The file that a search in progress asks for.
pub open spec fn pending(search: SearchView) -> Seq<char> {
    candidates(search.home)[search.tried as int]
}

/// How a search starts: without a home directory it fails before any file
/// is tried, with one it asks for the first candidate.
pub open spec fn begin(home: Option<Seq<char>>) -> StepView {
    match home {
        None => StepView::Failed(AuthErrorView::NoHome),
        Some(h) => StepView::Probe(SearchView { home: h, tried: 0 }),
    }
}

/// How a search goes on after a read. `content` is the text of the pending
/// file, or `None` where it could not be read as text.
pub open spec fn step(search: SearchView, content: Option<Seq<char>>) -> StepView {
    match content {
        Some(text) => StepView::Found(trimmed(text)),
        None => if search.tried + 1 < candidates(search.home).len() {
            StepView::Probe(SearchView { home: search.home, tried: search.tried + 1 })
        } else {
            StepView::Failed(AuthErrorView::NotFound { paths: candidates(search.home) })
        },
    }
}

/// What reading a file brings, where `files` holds the text of every file
/// that can be read as text.
pub open spec fn read(files: Map<Seq<char>, Seq<char>>, path: Seq<char>) -> Option<Seq<char>> {
    if files.dom().contains(path) {
        Some(files[path])
    } else {
        None
    }
}

/// Where a search ends that reads each file it asks for from `files`.
pub open spec fn run(start: StepView, files: Map<Seq<char>, Seq<char>>) -> Result<
    Seq<char>,
    AuthErrorView,
>
    decreases
        match start {
            StepView::Probe(search) => candidates(search.home).len() - search.tried + 1,
            _ => 0,
        },
{
    match start {
        StepView::Found(token) => Ok(token),
        StepView::Failed(e) => Err(e),
        StepView::Probe(search) => if search.tried < candidates(search.home).len() {
            run(step(search, read(files, pending(search))), files)
        } else {
            Err(AuthErrorView::NotFound { paths: candidates(search.home) })
        },
    }
}

/// The secret for a home directory, stated outright: the trimmed text of the
/// first candidate that can be read, or all candidates where none can.
pub open spec fn resolve_from(home: Seq<char>, files: Map<Seq<char>, Seq<char>>) -> Result<
    Seq<char>,
    AuthErrorView,
> {
    let first = candidates(home)[0];
    let second = candidates(home)[1];
    if files.dom().contains(first) {
        Ok(trimmed(files[first]))
    } else if files.dom().contains(second) {
        Ok(trimmed(files[second]))
    } else {
        Err(AuthErrorView::NotFound { paths: candidates(home) })
    }
}

/// The secret where the home directory may be unknown.
pub open spec fn resolve(home: Option<Seq<char>>, files: Map<Seq<char>, Seq<char>>) -> Result<
    Seq<char>,
    AuthErrorView,
> {
    match home {
        None => Err(AuthErrorView::NoHome),
        Some(h) => resolve_from(h, files),
    }
}

/// A search for the secret that waits for a file to be read.
#[derive(Debug)]
pub struct TokenSearch {
    home: String,
    paths: Vec<String>,
    tried: usize,
}

/// How a search goes on.
#[derive(Debug)]
pub enum SearchStep {
    /// The file `TokenSearch::path` is to be read, and the outcome handed to
    /// `TokenSearch::advance`.
    Probe(TokenSearch),
    /// The secret.
    Found(String),
    /// There is no secret to be had.
    Failed(AuthError),
}

impl View for TokenSearch {
    type V = SearchView;

    closed spec fn view(&self) -> SearchView {
        SearchView { home: self.home@, tried: self.tried as nat }
    }
}

impl View for SearchStep {
    type V = StepView;

    open spec fn view(&self) -> StepView {
        match *self {
            SearchStep::Probe(search) => StepView::Probe(search@),
            SearchStep::Found(token) => StepView::Found(token@),
            SearchStep::Failed(e) => StepView::Failed(e@),
        }
    }
}

/// `std::path::PathBuf`, carried through as an opaque value.
#[verifier::external_type_specification]
#[verifier::external_body]
pub struct ExPathBuf(std::path::PathBuf);

/// What `Path::to_string_lossy` makes of a path: its name as text.
pub uninterp spec fn path_text(path: PathBuf) -> Seq<char>;

/// The text of a directory that may be unknown.
pub open spec fn dir_text(dir: Option<PathBuf>) -> Option<Seq<char>> {
    match dir {
        Some(d) => Some(path_text(d)),
        None => None,
    }
}

/// `dirs::home_dir`: the home directory of the user, where the system knows
/// one. Nothing is stated of the result, which depends on the environment.
#[verifier::external_body]
fn home_dir() -> (r: Option<PathBuf>) {
    dirs::home_dir()
}

/// `Path::to_string_lossy`: the name of a path as text. The result depends
/// on the path alone.
#[verifier::external_body]
fn text_of_path(path: &PathBuf) -> (r: String)
    ensures
        r@ == path_text(*path),
{
    path.to_string_lossy().into_owned()
}

/// The user's home directory as the system gave it, and the search below it.
#[derive(Debug)]
pub struct Located {
    /// The home directory, where the system knows one. The files that the
    /// search names are to be read below it.
    pub dir: Option<PathBuf>,
    /// The search: its first probe, or the failure.
    pub step: SearchStep,
}

/// Starts a search below the user's home directory, whatever the system
/// says that is; where it knows none, the search fails with `NoHome`. In
/// the search the directory goes by its name as text.
pub fn find_token() -> (r: Located)
    ensures
        r.step@ == begin(dir_text(r.dir)),
{
    match home_dir() {
        Some(dir) => {
            let home = text_of_path(&dir);
            let step = find_token_in(home.as_str());
            Located { dir: Some(dir), step }
        },
        None => Located { dir: None, step: find_token_from(None) },
    }
}

/// Starts a search below `home`, or fails with `NoHome` where the home
/// directory is not known.
pub fn find_token_from(home: Option<&str>) -> (r: SearchStep)
    ensures
        r@ == begin(str_view(home)),
{
    match home {
        None => SearchStep::Failed(AuthError::NoHome),
        Some(h) => find_token_in(h),
    }
}

/// Starts a search below `home`: the first candidate is to be read.
pub fn find_token_in(home: &str) -> (r: SearchStep)
    ensures
        r@ == begin(Some(home@)),
{
    let paths = candidate_paths(home);
    assert(texts(paths@).len() == paths@.len());
    SearchStep::Probe(TokenSearch { home: String::from_str(home), paths, tried: 0 })
}

impl TokenSearch {
    #[verifier::type_invariant]
    spec fn well_formed(self) -> bool {
        &&& texts(self.paths@) == candidates(self.home@)
        &&& self.tried < self.paths@.len()
    }

    /// The file to read next: one of the candidates, always.
    pub fn path(&self) -> (r: &str)
        ensures
            self@.tried < candidates(self@.home).len(),
            r@ == pending(self@),
    {
        proof {
            use_type_invariant(self);
            assert(texts(self.paths@).len() == self.paths@.len());
            assert(texts(self.paths@)[self.tried as int] == self.paths@[self.tried as int]@);
        }
        self.paths[self.tried].as_str()
    }

    /// The file to read next, as its name relative to the home directory.
    pub fn name(&self) -> (r: &'static str)
        ensures
            self@.tried < names().len(),
            r@ == names()[self@.tried as int],
            joined(self@.home, r@) == pending(self@),
    {
        proof {
            use_type_invariant(self);
            assert(texts(self.paths@).len() == self.paths@.len());
        }
        if self.tried == 0 {
            home_name()
        } else {
            snap_name()
        }
    }

    /// Takes the outcome of reading the pending file: its text, or `None`
    /// where it could not be read as text. A text ends the search with the
    /// secret; after a failed read the search moves on to the next
    /// candidate, or fails with all candidates where none is left.
    pub fn advance(self, content: Option<String>) -> (r: SearchStep)
        ensures
            r@ == step(self@, text_view(content)),
    {
        proof {
            use_type_invariant(&self);
            assert(texts(self.paths@).len() == self.paths@.len());
        }
        match content {
            Some(text) => SearchStep::Found(trim(text.as_str())),
            None => if self.tried + 1 < self.paths.len() {
                SearchStep::Probe(
                    TokenSearch { home: self.home, paths: self.paths, tried: self.tried + 1 },
                )
            } else {
                SearchStep::Failed(AuthError::NotFound { paths: self.paths })
            },
        }
    }
}

/// A search that is driven to its end finds what `resolve` states.
pub proof fn lemma_run_resolves(home: Option<Seq<char>>, files: Map<Seq<char>, Seq<char>>)
    ensures
        run(begin(home), files) == resolve(home, files),
{
    if let Some(h) = home {
        let first = SearchView { home: h, tried: 0 };
        let second = SearchView { home: h, tried: 1 };
        reveal_with_fuel(run, 3);
        assert(pending(first) == candidates(h)[0]);
        assert(pending(second) == candidates(h)[1]);
    }
}

/// With a secret file directly below the home directory and none in the snap
/// location, the search ends with the trimmed text of the former.
pub proof fn lemma_home_file_alone(home: Seq<char>, files: Map<Seq<char>, Seq<char>>)
    requires
        files.dom().contains(joined(home, home_file())),
        !files.dom().contains(joined(home, snap_file())),
    ensures
        run(begin(Some(home)), files) == Ok::<Seq<char>, AuthErrorView>(
            trimmed(files[joined(home, home_file())]),
        ),
{
    lemma_run_resolves(Some(home), files);
}

/// With a secret file in the snap location and none directly below the home
/// directory, the search ends with the trimmed text of the former.
pub proof fn lemma_snap_file_alone(home: Seq<char>, files: Map<Seq<char>, Seq<char>>)
    requires
        !files.dom().contains(joined(home, home_file())),
        files.dom().contains(joined(home, snap_file())),
    ensures
        run(begin(Some(home)), files) == Ok::<Seq<char>, AuthErrorView>(
            trimmed(files[joined(home, snap_file())]),
        ),
{
    lemma_run_resolves(Some(home), files);
}

/// With both files present the one directly below the home directory wins:
/// the search ends with its trimmed text, whatever the snap file holds.
pub proof fn lemma_home_file_preferred(
    home: Seq<char>,
    files: Map<Seq<char>, Seq<char>>,
    other: Seq<char>,
)
    requires
        files.dom().contains(joined(home, home_file())),
        files.dom().contains(joined(home, snap_file())),
    ensures
        run(begin(Some(home)), files) == Ok::<Seq<char>, AuthErrorView>(
            trimmed(files[joined(home, home_file())]),
        ),
        run(begin(Some(home)), files.insert(joined(home, snap_file()), other)) == run(
            begin(Some(home)),
            files,
        ),
{
    lemma_candidates_differ(home);
    lemma_run_resolves(Some(home), files);
    lemma_run_resolves(Some(home), files.insert(joined(home, snap_file()), other));
}

/// With neither file present the search fails and lists exactly the two
/// candidates, in the order tried.
pub proof fn lemma_no_file(home: Seq<char>, files: Map<Seq<char>, Seq<char>>)
    requires
        !files.dom().contains(joined(home, home_file())),
        !files.dom().contains(joined(home, snap_file())),
    ensures
        run(begin(Some(home)), files) == Err::<Seq<char>, AuthErrorView>(
            AuthErrorView::NotFound {
                paths: seq![joined(home, home_file()), joined(home, snap_file())],
            },
        ),
{
    lemma_run_resolves(Some(home), files);
}

/// Without a home directory the search fails with `NoHome`, whatever files
/// there are.
pub proof fn lemma_no_home(files: Map<Seq<char>, Seq<char>>)
    ensures
        run(begin(None), files) == Err::<Seq<char>, AuthErrorView>(AuthErrorView::NoHome),
{
}

/// A secret that is found neither starts nor ends with whitespace.
pub proof fn lemma_found_is_trimmed(home: Option<Seq<char>>, files: Map<Seq<char>, Seq<char>>)
    requires
        run(begin(home), files) is Ok,
    ensures
        trimmed(run(begin(home), files)->Ok_0) == run(begin(home), files)->Ok_0,
{
    lemma_run_resolves(home, files);
    let h = home->Some_0;
    lemma_trim_idempotent(files[candidates(h)[0]]);
    lemma_trim_idempotent(files[candidates(h)[1]]);
}

/// The two candidates of a home directory are different files.
pub proof fn lemma_candidates_differ(home: Seq<char>)
    ensures
        joined(home, home_file()) != joined(home, snap_file()),
{
    reveal_strlit(".thunderbird-mcp-auth");
    reveal_strlit("snap/thunderbird/common/.thunderbird-mcp-auth");
    assert(joined(home, home_file()).len() != joined(home, snap_file()).len());
}

} // verus!
