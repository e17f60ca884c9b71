//! Finding the daemon executable that the command-line tool launches.
use vstd::prelude::*;
use vstd::string::*;

use crate::paths::{file_name_of, path_joined, parent_of, path_file_name, path_join, path_parent};
use crate::text::owned;

verus! {

/// The daemon's file name on a platform whose executables end in
/// `exe_suffix`.
pub open spec fn daemon_file_name(exe_suffix: Seq<char>) -> Seq<char> {
    "agenthubd"@ + exe_suffix
}

/// Where the daemon is looked for next to the running executable: in the
/// same directory, or, when that directory is a build's `deps`, in the one
/// above it.
pub open spec fn daemon_candidate_spec(current_exe: Option<Seq<char>>, exe_suffix: Seq<char>) -> Option<Seq<char>> {
    match current_exe {
        None => None,
        Some(exe) => match path_parent(exe) {
            None => None,
            Some(parent) => {
                let dir = if path_file_name(parent) == Some("deps"@) { path_parent(parent) } else { Some(parent) };
                match dir {
                    None => None,
                    Some(d) => Some(path_joined(d, daemon_file_name(exe_suffix))),
                }
            },
        },
    }
}

/// The place the daemon is looked for next to the running executable.
pub fn daemon_binary_candidate(current_exe: Option<&str>, exe_suffix: &str) -> (res: Option<String>)
    ensures
        res.deep_view() == daemon_candidate_spec(
            match current_exe { Some(e) => Some(e@), None => None },
            exe_suffix@,
        ),
{
    let exe = match current_exe {
        Some(e) => e,
        None => return None,
    };
    let parent = match parent_of(exe) {
        Some(p) => p,
        None => return None,
    };
    let in_deps = match file_name_of(parent.as_str()) {
        Some(n) => n == owned("deps"),
        None => false,
    };
    let dir = if in_deps {
        match parent_of(parent.as_str()) {
            Some(d) => d,
            None => return None,
        }
    } else {
        parent
    };
    let mut name = owned("agenthubd");
    name.append(exe_suffix);
    Some(path_join(dir.as_str(), name.as_str()))
}

/// The daemon to launch: the candidate next to the running executable when
/// it is a file, else the bare file name, looked up on `PATH`.
pub fn resolve_daemon_binary_path(candidate: Option<String>, candidate_is_file: bool, exe_suffix: &str) -> (res: String)
    ensures
        res@ == match candidate {
            Some(c) => if candidate_is_file { c@ } else { daemon_file_name(exe_suffix@) },
            None => daemon_file_name(exe_suffix@),
        },
        (candidate is Some && candidate_is_file) || res@ == "agenthubd"@ + exe_suffix@,
{
    match candidate {
        Some(c) => {
            if candidate_is_file {
                return c;
            }
        },
        None => {},
    }
    let mut name = owned("agenthubd");
    name.append(exe_suffix);
    name
}

/// The daemon is looked for under the name `agenthubd` followed by the
/// platform's executable suffix, in the running executable's directory or,
/// when that directory is named `deps`, in the one above; without a known
/// executable or directory there is no candidate.
pub proof fn law_daemon_candidate_place(current_exe: Option<Seq<char>>, exe_suffix: Seq<char>)
    ensures
        current_exe is None ==> daemon_candidate_spec(current_exe, exe_suffix) is None,
        forall|c: Seq<char>| daemon_candidate_spec(current_exe, exe_suffix) == Some(c) ==> exists|d: Seq<char>|
            #[trigger] path_joined(d, "agenthubd"@ + exe_suffix) == c && (current_exe matches Some(e)
                && (path_parent(e) == Some(d) || exists|p: Seq<char>| path_parent(e) == Some(p)
                    && #[trigger] path_file_name(p) == Some("deps"@) && path_parent(p) == Some(d))),
{
    assert forall|c: Seq<char>| daemon_candidate_spec(current_exe, exe_suffix) == Some(c) implies exists|d: Seq<char>|
        #[trigger] path_joined(d, "agenthubd"@ + exe_suffix) == c && (current_exe matches Some(e)
            && (path_parent(e) == Some(d) || exists|p: Seq<char>| path_parent(e) == Some(p)
                && #[trigger] path_file_name(p) == Some("deps"@) && path_parent(p) == Some(d))) by {
        let e = current_exe->0;
        let parent = path_parent(e)->0;
        if path_file_name(parent) == Some("deps"@) {
            let d = path_parent(parent)->0;
            assert(path_joined(d, "agenthubd"@ + exe_suffix) == c);
        } else {
            assert(path_joined(parent, "agenthubd"@ + exe_suffix) == c);
        }
    }
}

} // verus!
