//! Finding the program that a command name stands for: the places to look at,
//! in order, and the first of them that can be run.

use crate::files::{has_execute_bit, status_in, FileStatus, FileTable};
use crate::text::{cut_at, has_char, split_on};
use vstd::prelude::*;

verus! {

/// The directories of a search path value, which lists them separated by
/// colons.
pub open spec fn search_directories(path: Seq<char>) -> Seq<Seq<char>> {
    cut_at(path, ':')
}

/// The file called `name` in each of `directories`, in their order.
pub open spec fn in_each(directories: Seq<Seq<char>>, name: Seq<char>) -> Seq<Seq<char>> {
    Seq::new(directories.len(), |i: int| directories[i] + "/"@ + name)
}

/// The places where a command name may be found, in the order in which they
/// are tried. A name with a `/` in it is a path already and is the only
/// place; any other name is looked for in each directory of the search path,
/// and nowhere if there is no search path.
pub open spec fn candidate_paths(name: Seq<char>, path: Option<Seq<char>>) -> Seq<Seq<char>> {
    if name.contains('/') {
        seq![name]
    } else {
        match path {
            Some(value) => in_each(search_directories(value), name),
            None => Seq::empty(),
        }
    }
}

/// The first of `candidates` that `files` knows as a file that can be run.
pub open spec fn first_runnable(
    candidates: Seq<Seq<char>>,
    files: Map<Seq<char>, FileStatus>,
) -> Option<Seq<char>>
    decreases candidates.len(),
{
    if candidates.len() == 0 {
        None
    } else if status_in(files, candidates[0]).runnable() {
        Some(candidates[0])
    } else {
        first_runnable(candidates.skip(1), files)
    }
}

/// The program that `name` stands for, given the search path and the file
/// system.
pub open spec fn resolve(
    name: Seq<char>,
    path: Option<Seq<char>>,
    files: Map<Seq<char>, FileStatus>,
) -> Option<Seq<char>> {
    first_runnable(candidate_paths(name, path), files)
}

/// Whether the candidate at `index` can be run and none before it can.
pub open spec fn wins(
    candidates: Seq<Seq<char>>,
    files: Map<Seq<char>, FileStatus>,
    index: int,
) -> bool {
    &&& 0 <= index < candidates.len()
    &&& status_in(files, candidates[index]).runnable()
    &&& forall|earlier: int|
        0 <= earlier < index ==> !status_in(files, #[trigger] candidates[earlier]).runnable()
}

/// Candidates are tried strictly in order and the search stops at the first
/// hit: what is found can be run and stands before every other candidate that
/// can; nothing is found only if no candidate can be run. So a directory, a
/// missing path or a file without an execute bit is never the result.
pub proof fn lemma_first_runnable(candidates: Seq<Seq<char>>, files: Map<Seq<char>, FileStatus>)
    ensures
        match first_runnable(candidates, files) {
            Some(found) => exists|index: int| #[trigger]
                wins(candidates, files, index) && candidates[index] == found,
            None => forall|index: int|
                0 <= index < candidates.len() ==> !status_in(
                    files,
                    #[trigger] candidates[index],
                ).runnable(),
        },
    decreases candidates.len(),
{
    if candidates.len() == 0 {
    } else if status_in(files, candidates[0]).runnable() {
        assert(wins(candidates, files, 0));
    } else {
        let rest = candidates.skip(1);
        lemma_first_runnable(rest, files);
        match first_runnable(rest, files) {
            Some(found) => {
                let index = choose|index: int| #[trigger]
                    wins(rest, files, index) && rest[index] == found;
                assert forall|earlier: int| 0 <= earlier < index + 1 implies !status_in(
                    files,
                    #[trigger] candidates[earlier],
                ).runnable() by {
                    if earlier > 0 {
                        assert(candidates[earlier] == rest[earlier - 1]);
                    }
                }
                assert(candidates[index + 1] == rest[index]);
                assert(wins(candidates, files, index + 1));
            },
            None => {
                assert forall|index: int| 0 <= index < candidates.len() implies !status_in(
                    files,
                    #[trigger] candidates[index],
                ).runnable() by {
                    if index > 0 {
                        assert(candidates[index] == rest[index - 1]);
                    }
                }
            },
        }
    }
}

/// The first candidate that can be run is the one found, however many others
/// after it can be run as well: among several directories that hold a program
/// of the name, the one listed first wins.
pub proof fn lemma_winner_is_found(
    candidates: Seq<Seq<char>>,
    files: Map<Seq<char>, FileStatus>,
    index: int,
)
    requires
        wins(candidates, files, index),
    ensures
        first_runnable(candidates, files) == Some(candidates[index]),
    decreases index,
{
    if index > 0 {
        let rest = candidates.skip(1);
        assert(!status_in(files, candidates[0]).runnable());
        assert forall|earlier: int| 0 <= earlier < index - 1 implies !status_in(
            files,
            #[trigger] rest[earlier],
        ).runnable() by {
            assert(rest[earlier] == candidates[earlier + 1]);
        }
        assert(rest[index - 1] == candidates[index]);
        lemma_winner_is_found(rest, files, index - 1);
    }
}

/// What resolution returns is one of the places tried, and the file system
/// knows it as a file, not a directory and not missing, with an execute bit.
pub proof fn lemma_resolved_can_run(
    name: Seq<char>,
    path: Option<Seq<char>>,
    files: Map<Seq<char>, FileStatus>,
)
    ensures
        resolve(name, path, files) matches Some(found) ==> {
            &&& candidate_paths(name, path).contains(found)
            &&& status_in(files, found) matches FileStatus::File { mode }
            &&& has_execute_bit(mode)
        },
{
    lemma_first_runnable(candidate_paths(name, path), files);
}

/// Where none of the places tried can be run, be it that a file of the name
/// is there but has no execute bit, resolution finds nothing.
pub proof fn lemma_nothing_to_run(
    name: Seq<char>,
    path: Option<Seq<char>>,
    files: Map<Seq<char>, FileStatus>,
)
    requires
        forall|index: int|
            0 <= index < candidate_paths(name, path).len() ==> !status_in(
                files,
                #[trigger] candidate_paths(name, path)[index],
            ).runnable(),
    ensures
        resolve(name, path, files) is None,
{
    let candidates = candidate_paths(name, path);
    lemma_first_runnable(candidates, files);
    if resolve(name, path, files) is Some {
        let index = choose|index: int| #[trigger]
            wins(candidates, files, index) && candidates[index] == resolve(name, path, files)->0;
        assert(status_in(files, candidates[index]).runnable());
    }
}

/// The search looks at the candidates only: two file systems that give every
/// candidate the same status give the same result.
pub proof fn lemma_first_runnable_reads_candidates(
    candidates: Seq<Seq<char>>,
    files: Map<Seq<char>, FileStatus>,
    others: Map<Seq<char>, FileStatus>,
)
    requires
        forall|index: int|
            0 <= index < candidates.len() ==> status_in(files, #[trigger] candidates[index])
                == status_in(others, candidates[index]),
    ensures
        first_runnable(candidates, files) == first_runnable(candidates, others),
    decreases candidates.len(),
{
    if candidates.len() > 0 {
        let rest = candidates.skip(1);
        assert forall|index: int| 0 <= index < rest.len() implies status_in(
            files,
            #[trigger] rest[index],
        ) == status_in(others, rest[index]) by {
            assert(rest[index] == candidates[index + 1]);
        }
        lemma_first_runnable_reads_candidates(rest, files, others);
    }
}

/// The places where `command_to_search` may be found, in the order in which
/// they are tried.
pub fn candidates_for(command_to_search: &str, path: Option<&String>) -> (candidates: Vec<String>)
    ensures
        candidates.deep_view() == candidate_paths(command_to_search@, path.deep_view()),
{
    let mut candidates: Vec<String> = Vec::new();
    if has_char(command_to_search, '/') {
        candidates.push(command_to_search.to_owned());
        proof {
            assert(candidates.deep_view() == seq![command_to_search@]);
        }
    } else {
        match path {
            Some(value) => {
                let directories = split_on(value.as_str(), ':');
                let ghost wanted = in_each(directories.deep_view(), command_to_search@);
                let mut done: usize = 0;
                while done < directories.len()
                    invariant
                        done <= directories.len(),
                        wanted == in_each(directories.deep_view(), command_to_search@),
                        candidates.deep_view() == wanted.take(done as int),
                    decreases directories.len() - done,
                {
                    let ghost before = candidates.deep_view();
                    let mut candidate = directories[done].clone();
                    candidate.append("/");
                    candidate.append(command_to_search);
                    candidates.push(candidate);
                    proof {
                        assert(candidates.deep_view() == before.push(candidate@));
                        assert(wanted.take(done + 1) == wanted.take(done as int).push(
                            wanted[done as int],
                        ));
                    }
                    done = done + 1;
                }
                proof {
                    assert(wanted.take(directories.len() as int) == wanted);
                }
            },
            None => {
                proof {
                    assert(candidates.deep_view() == Seq::<Seq<char>>::empty());
                }
            },
        }
    }
    candidates
}

/// The first of `candidates` that `files` knows as a file that can be run.
pub fn first_runnable_among(candidates: &Vec<String>, files: &FileTable) -> (found: Option<String>)
    ensures
        found.deep_view() == first_runnable(candidates.deep_view(), files@),
{
    let ghost all = candidates.deep_view();
    let mut index: usize = 0;
    proof {
        assert(all.skip(0) == all);
    }
    while index < candidates.len()
        invariant
            index <= candidates.len(),
            candidates.deep_view() == all,
            first_runnable(all, files@) == first_runnable(all.skip(index as int), files@),
        decreases candidates.len() - index,
    {
        proof {
            assert(all.skip(index as int)[0] == candidates[index as int]@);
            assert(all.skip(index as int).skip(1) == all.skip(index + 1));
        }
        if files.status_of(candidates[index].as_str()).is_runnable() {
            return Some(candidates[index].clone());
        }
        index = index + 1;
    }
    None
}

/// Looks `command_to_search` up: in the directories of the search path `path`
/// in their order, or directly if the name holds a `/`. The result is the
/// first place that `files` knows as a file with an execute bit.
pub fn search_for_command_in_path(
    command_to_search: &String,
    path: Option<&String>,
    files: &FileTable,
) -> (found: Option<String>)
    ensures
        found.deep_view() == resolve(command_to_search@, path.deep_view(), files@),
{
    first_runnable_among(&candidates_for(command_to_search.as_str(), path), files)
}

} // verus!
