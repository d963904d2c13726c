//! The staged diff: how the version-control system is asked for it, and
//! what is made of its answer.

use vstd::prelude::*;
use crate::checks::Check;
use crate::error::DiffError;
use crate::text::{joined, texts_view, trim, unicode_trim};

verus! {

/// A list of fixed texts as contracts speak of it.
pub open spec fn literals_view(texts: Seq<&'static str>) -> Seq<Seq<char>> {
    texts.map_values(|text: &'static str| text@)
}

/// The paths that never go into a diff: dependencies, build output,
/// minified files, source maps and lock files.
pub open spec fn excluded_paths() -> Seq<Seq<char>> {
    seq![
        ":(exclude)node_modules/**"@,
        ":(exclude)dist/**"@,
        ":(exclude)build/**"@,
        ":(exclude)target/**"@,
        ":(exclude)vendor/**"@,
        ":(exclude).next/**"@,
        ":(exclude)out/**"@,
        ":(exclude)*.min.js"@,
        ":(exclude)*.min.mjs"@,
        ":(exclude)*.min.css"@,
        ":(exclude)*.map"@,
        ":(exclude)package-lock.json"@,
        ":(exclude)bun.lockb"@,
        ":(exclude)bun.lock"@,
        ":(exclude)pnpm-lock.yaml"@,
        ":(exclude)yarn.lock"@,
        ":(exclude)Cargo.lock"@,
    ]
}

/// The arguments that ask for the staged changes of the whole tree, without
/// context lines or colour.
pub open spec fn diff_options() -> Seq<Seq<char>> {
    seq!["diff"@, "--staged"@, "--unified=0"@, "--no-color"@, "--"@, "."@]
}

/// The pathspecs that keep generated and vendored files out of the diff.
pub fn default_excludes() -> (excludes: Vec<&'static str>)
    ensures
        literals_view(excludes@) == excluded_paths(),
{
    let mut excludes: Vec<&'static str> = Vec::new();
    excludes.push(":(exclude)node_modules/**");
    excludes.push(":(exclude)dist/**");
    excludes.push(":(exclude)build/**");
    excludes.push(":(exclude)target/**");
    excludes.push(":(exclude)vendor/**");
    excludes.push(":(exclude).next/**");
    excludes.push(":(exclude)out/**");
    excludes.push(":(exclude)*.min.js");
    excludes.push(":(exclude)*.min.mjs");
    excludes.push(":(exclude)*.min.css");
    excludes.push(":(exclude)*.map");
    excludes.push(":(exclude)package-lock.json");
    excludes.push(":(exclude)bun.lockb");
    excludes.push(":(exclude)bun.lock");
    excludes.push(":(exclude)pnpm-lock.yaml");
    excludes.push(":(exclude)yarn.lock");
    excludes.push(":(exclude)Cargo.lock");
    assert(literals_view(excludes@) =~= excluded_paths());
    excludes
}

/// The arguments of the command that prints the staged diff: the options,
/// then every excluded path.
pub fn build_git_diff_args() -> (args: Vec<String>)
    ensures
        texts_view(args@) == diff_options() + excluded_paths(),
{
    let mut args: Vec<String> = Vec::new();
    args.push("diff".to_owned());
    args.push("--staged".to_owned());
    args.push("--unified=0".to_owned());
    args.push("--no-color".to_owned());
    args.push("--".to_owned());
    args.push(".".to_owned());
    assert(texts_view(args@) =~= diff_options());
    let excludes = default_excludes();
    let mut i: usize = 0;
    while i < excludes.len()
        invariant
            i <= excludes@.len(),
            literals_view(excludes@) == excluded_paths(),
            texts_view(args@) == diff_options() + excluded_paths().take(i as int),
        decreases excludes@.len() - i,
    {
        let ghost before = texts_view(args@);
        args.push(excludes[i].to_owned());
        proof {
            assert(excluded_paths()[i as int] == excludes@[i as int]@);
            assert(texts_view(args@) =~= before.push(excludes@[i as int]@));
            assert(before.push(excluded_paths()[i as int]) =~= diff_options()
                + excluded_paths().take(i + 1));
        }
        i = i + 1;
    }
    proof {
        assert(literals_view(excludes@).len() == excludes@.len());
        assert(excluded_paths().take(excludes@.len() as int) =~= excluded_paths());
    }
    args
}

/// The arguments of the command that tells whether the working directory
/// lies inside a work tree.
pub fn work_tree_probe_args() -> (args: Vec<String>)
    ensures
        texts_view(args@) == seq!["rev-parse"@, "--is-inside-work-tree"@],
{
    let mut args: Vec<String> = Vec::new();
    args.push("rev-parse".to_owned());
    args.push("--is-inside-work-tree".to_owned());
    assert(texts_view(args@) =~= seq!["rev-parse"@, "--is-inside-work-tree"@]);
    args
}

/// Whether the trimmed answer of the work-tree probe says yes.
pub fn confirms_work_tree(trimmed: &str) -> (inside: bool)
    ensures
        inside == (trimmed@ == "true"@),
{
    trimmed.to_owned() == "true".to_owned()
}

/// Reads the answer of the work-tree probe: `None` stands for a probe that
/// could not be run or failed. Only the answer `true`, whitespace around it
/// aside, is a repository.
pub fn is_git_initialized(probe: Option<&str>) -> (checked: Result<(), DiffError>)
    ensures
        checked == if probe matches Some(answer) && unicode_trim(answer@) == "true"@ {
            Ok::<(), DiffError>(())
        } else {
            Err(DiffError::NotARepository)
        },
{
    match probe {
        Some(answer) => {
            if confirms_work_tree(trim(answer)) {
                Ok(())
            } else {
                Err(DiffError::NotARepository)
            }
        },
        None => Err(DiffError::NotARepository),
    }
}

/// What the diff command printed, as contracts speak of it.
pub open spec fn printed_view(read: Option<String>) -> Option<Seq<char>> {
    match read {
        Some(printed) => Some(printed@),
        None => None,
    }
}

/// A diff or the lack of one, as contracts speak of it.
pub open spec fn diff_view(diff: Result<String, DiffError>) -> Result<Seq<char>, DiffError> {
    match diff {
        Ok(text) => Ok(text@),
        Err(error) => Err(error),
    }
}

/// What is made of what the diff command printed: no print is an
/// unreadable diff, an empty one means that nothing is staged.
pub open spec fn diff_outcome(read: Option<Seq<char>>) -> Result<Seq<char>, DiffError> {
    match read {
        None => Err(DiffError::Unreadable),
        Some(diff) => if diff.len() == 0 {
            Err(DiffError::NothingStaged)
        } else {
            Ok(diff)
        },
    }
}

/// Makes the staged diff of what the diff command printed: `None` stands
/// for a command that could not be run or failed. An empty print means
/// that nothing is staged, which is an error of its own.
pub fn get_diff(read: Option<String>) -> (diff: Result<String, DiffError>)
    ensures
        diff_view(diff) == diff_outcome(printed_view(read)),
{
    match read {
        None => Err(DiffError::Unreadable),
        Some(printed) => match Check::is_diff_empty(printed.as_str()) {
            Ok(()) => Ok(printed),
            Err(error) => Err(error),
        },
    }
}

/// What went wrong, in a few words.
pub open spec fn description_of(error: DiffError) -> Seq<char> {
    match error {
        DiffError::NotARepository => "🚨 not a git repo "@,
        DiffError::Unreadable => "failed to read staged diff"@,
        DiffError::NothingStaged => "nothing is staged"@,
    }
}

/// What the user can do about it.
pub open spec fn hint_of(error: DiffError) -> Seq<char> {
    match error {
        DiffError::NotARepository => "💡 try `git init` to initialise a git repo"@,
        DiffError::Unreadable => "ensure Git is installed and run inside a Git repo"@,
        DiffError::NothingStaged => "are the stages changed ? try `git add <file_name>`"@,
    }
}

/// What the user is told: what went wrong and, on a line of its own, what
/// to do about it. Where nothing is staged the advice says it all.
pub open spec fn report_of(error: DiffError) -> Seq<char> {
    match error {
        DiffError::NothingStaged => hint_of(error),
        _ => description_of(error) + "\n"@ + hint_of(error),
    }
}

impl DiffError {
    /// The words in which the error is reported to the user.
    pub fn report(self) -> (words: String)
        ensures
            words@ == report_of(self),
    {
        match self {
            DiffError::NothingStaged => self.hint().to_owned(),
            _ => joined(joined(self.describe().to_owned(), "\n"), self.hint()),
        }
    }

    /// What went wrong, in a few words.
    pub fn describe(self) -> (words: &'static str)
        ensures
            words@ == description_of(self),
    {
        match self {
            DiffError::NotARepository => "🚨 not a git repo ",
            DiffError::Unreadable => "failed to read staged diff",
            DiffError::NothingStaged => "nothing is staged",
        }
    }

    /// What the user can do about it.
    pub fn hint(self) -> (words: &'static str)
        ensures
            words@ == hint_of(self),
    {
        match self {
            DiffError::NotARepository => "💡 try `git init` to initialise a git repo",
            DiffError::Unreadable => "ensure Git is installed and run inside a Git repo",
            DiffError::NothingStaged => "are the stages changed ? try `git add <file_name>`",
        }
    }
}

} // verus!
