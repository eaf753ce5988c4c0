//! Working-directory resolution: the directory in which a child runs.
//!
//! An override, where one is configured, names the directory; a leading `~`
//! in it stands for the home directory. Without an override, or where the
//! home directory that the override needs is not known, the caller's current
//! directory is taken as it is. The directory that comes out must exist: the
//! caller canonicalizes it and hands the result back to [`resolved_cwd`].

use vstd::prelude::*;
use crate::exit::RunError;
use crate::resolve::opt_str;

verus! {

/// Whether `path` begins with the sign for the home directory.
pub open spec fn begins_with_tilde(path: Seq<char>) -> bool {
    path.len() > 0 && path[0] == '~'
}

/// The directory that a child runs in, before it is canonicalized.
pub open spec fn cwd_candidate(
    override_dir: Option<Seq<char>>,
    home: Option<Seq<char>>,
    current_dir: Seq<char>,
) -> Seq<char> {
    match override_dir {
        None => current_dir,
        Some(path) => if begins_with_tilde(path) {
            match home {
                Some(dir) => dir + path.skip(1),
                None => current_dir,
            }
        } else {
            path
        },
    }
}

/// Without an override the caller's current directory is taken unchanged,
/// whatever the home directory is.
pub proof fn lemma_no_override_keeps_current_dir(home: Option<Seq<char>>, current_dir: Seq<char>)
    ensures
        cwd_candidate(None, home, current_dir) == current_dir,
{
}

/// An override that begins with `~` names the same place below the home
/// directory, and any other override is taken as it is.
pub proof fn lemma_override_decides(path: Seq<char>, home: Seq<char>, current_dir: Seq<char>)
    ensures
        begins_with_tilde(path) ==> cwd_candidate(Some(path), Some(home), current_dir) == home
            + path.skip(1),
        !begins_with_tilde(path) ==> cwd_candidate(Some(path), Some(home), current_dir) == path,
        !begins_with_tilde(path) ==> cwd_candidate(Some(path), None, current_dir) == path,
{
}

/// The directory that a child runs in, before it is canonicalized:
/// `override_dir` with a leading `~` replaced by `home`, or `current_dir`
/// where there is no override or the home directory is needed and not known.
pub fn get_cli_run_cwd(override_dir: Option<&str>, home: Option<&str>, current_dir: &str) -> (out:
    String)
    ensures
        out@ == cwd_candidate(opt_str(override_dir), opt_str(home), current_dir@),
{
    match override_dir {
        None => String::from_str(current_dir),
        Some(path) => {
            let len: usize = path.unicode_len();
            if len > 0 && path.get_char(0) == '~' {
                match home {
                    Some(dir) => {
                        let mut out = String::from_str(dir);
                        out.append(path.substring_char(1, len));
                        assert(path@.subrange(1, len as int) =~= path@.skip(1));
                        out
                    },
                    None => String::from_str(current_dir),
                }
            } else {
                String::from_str(path)
            }
        },
    }
}

/// The working directory once the caller has tried to canonicalize
/// `candidate`: the canonical path, or the error that names the directory
/// that does not exist.
pub fn resolved_cwd(candidate: &str, canonical: Option<String>) -> (out: Result<String, RunError>)
    ensures
        match canonical {
            Some(path) => out == Ok::<String, RunError>(path),
            None => out matches Err(RunError::PathResolution { path }) && path@ == candidate@,
        },
{
    match canonical {
        Some(path) => Ok(path),
        None => Err(RunError::PathResolution { path: String::from_str(candidate) }),
    }
}

} // verus!
