use vstd::prelude::*;
use crate::errors::BackendError;

verus! {

/// Where the backend entry point was found and the directory it runs in.
pub struct BackendLocation {
    pub entry_path: String,
    pub working_directory: String,
}

/// File name of the backend entry point.
pub open spec fn entry_file_name() -> Seq<char> {
    seq!['a', 'p', 'p', '.', 'p', 'y']
}

/// Subdirectory of the resource bundle that the packager may place resources in.
pub open spec fn packaged_subdirectory() -> Seq<char> {
    seq!['_', 'u', 'p', '_']
}

/// `dir` followed by a separator and `name`.
pub open spec fn join_spec(dir: Seq<char>, name: Seq<char>) -> Seq<char> {
    dir + seq!['/'] + name
}

/// Path of the entry point inside directory `dir`.
pub open spec fn entry_in(dir: Seq<char>) -> Seq<char> {
    join_spec(dir, entry_file_name())
}

/// The directories searched for the entry point, highest priority first:
/// the resource root, its packaged subdirectory, the working directory.
pub open spec fn candidate_dirs_spec(resource_root: Seq<char>, current_dir: Seq<char>) -> Seq<Seq<char>> {
    seq![resource_root, join_spec(resource_root, packaged_subdirectory()), current_dir]
}

/// Index of the first `true` in `exists`, if any.
pub open spec fn first_existing(exists: Seq<bool>) -> Option<int>
    decreases exists.len(),
{
    if exists.len() == 0 {
        None
    } else if exists[0] {
        Some(0)
    } else {
        match first_existing(exists.drop_first()) {
            Some(i) => Some(i + 1),
            None => None,
        }
    }
}

/// `first_existing` picks an existing candidate with none before it, and finds
/// nothing only when no candidate exists: a later candidate never wins over an
/// earlier one.
pub proof fn lemma_first_existing_is_first(exists: Seq<bool>)
    ensures
        match first_existing(exists) {
            Some(i) => 0 <= i < exists.len() && exists[i] && forall|j: int| 0 <= j < i ==> !exists[j],
            None => forall|j: int| 0 <= j < exists.len() ==> !exists[j],
        },
    decreases exists.len(),
{
    if exists.len() > 0 && !exists[0] {
        let rest = exists.drop_first();
        lemma_first_existing_is_first(rest);
        assert forall|j: int| 0 < j < exists.len() implies exists[j] == rest[j - 1] by {}
    }
}

/// `dir` joined with `name` by a path separator.
pub fn join_path(dir: &str, name: &str) -> (r: String)
    ensures
        r@ == join_spec(dir@, name@),
{
    let mut r = String::from_str(dir);
    r.append("/");
    r.append(name);
    proof {
        reveal_strlit("/");
    }
    r
}

/// Path of the entry point inside `dir`.
pub fn entry_path_in(dir: &str) -> (r: String)
    ensures
        r@ == entry_in(dir@),
{
    proof {
        reveal_strlit("app.py");
    }
    join_path(dir, "app.py")
}

/// The directories searched for the entry point, in priority order.
pub fn candidate_directories(resource_root: &str, current_dir: &str) -> (r: Vec<String>)
    ensures
        r@.len() == 3,
        forall|i: int| 0 <= i < 3 ==> #[trigger] r@[i]@ == candidate_dirs_spec(resource_root@, current_dir@)[i],
{
    proof {
        reveal_strlit("_up_");
    }
    let mut r: Vec<String> = Vec::new();
    r.push(String::from_str(resource_root));
    r.push(join_path(resource_root, "_up_"));
    r.push(String::from_str(current_dir));
    r
}

/// Picks the first candidate directory whose entry point exists;
/// `exists[i]` tells whether the entry point inside `candidates[i]` is on disk.
pub fn resolve(candidates: &Vec<String>, exists: &Vec<bool>) -> (r: Result<BackendLocation, BackendError>)
    requires
        candidates@.len() == exists@.len(),
    ensures
        match first_existing(exists@) {
            Some(i) => r matches Ok(loc) && loc.working_directory@ == candidates@[i]@
                && loc.entry_path@ == entry_in(candidates@[i]@),
            None => r == Err::<BackendLocation, BackendError>(BackendError::NotFound),
        },
{
    let mut i: usize = 0;
    while i < exists.len()
        invariant
            candidates@.len() == exists@.len(),
            i <= exists@.len(),
            forall|j: int| 0 <= j < i ==> !exists@[j],
        decreases exists@.len() - i,
    {
        if exists[i] {
            proof {
                lemma_first_existing_is_first(exists@);
                lemma_first_existing_unique(exists@, i as int);
            }
            let dir = candidates[i].as_str();
            return Ok(BackendLocation { entry_path: entry_path_in(dir), working_directory: String::from_str(dir) });
        }
        i = i + 1;
    }
    proof {
        lemma_first_existing_is_first(exists@);
        if first_existing(exists@) is Some {
            let k = first_existing(exists@)->Some_0;
            assert(!exists@[k]);
        }
    }
    Err(BackendError::NotFound)
}

/// An existing candidate with none before it is the one `first_existing` picks.
proof fn lemma_first_existing_unique(exists: Seq<bool>, i: int)
    requires
        0 <= i < exists.len(),
        exists[i],
        forall|j: int| 0 <= j < i ==> !exists[j],
    ensures
        first_existing(exists) == Some(i),
    decreases exists.len(),
{
    if i > 0 {
        let rest = exists.drop_first();
        assert forall|j: int| 0 <= j < i - 1 implies !rest[j] by {
            assert(rest[j] == exists[j + 1]);
        }
        lemma_first_existing_unique(rest, i - 1);
    }
}

} // verus!
