//! The artifact locator: which of the files of a directory is the archive
//! to deploy, and what its folder is called.
//!
//! Scanning the directory is the caller's business. The caller says, for
//! each entry it read, whether it is a file, what its extension is and
//! when it was last modified.

use vstd::prelude::*;
use vstd::string::StringExecFns;
use crate::error::DeployError;
use crate::text::chars_of;

verus! {

/// One entry of the scanned directory.
#[derive(Debug, Clone, PartialEq, Eq)]
pub struct ArchiveCandidate {
    pub path: String,
    pub is_file: bool,
    /// The extension of the file's name, without the dot.
    pub extension: Option<String>,
    /// The time of the last modification, in nanoseconds since the epoch;
    /// `None` where it could not be read.
    pub modified: Option<i128>,
}

/// An `ArchiveCandidate` with its texts as character sequences.
pub struct ArchiveCandidateView {
    pub path: Seq<char>,
    pub is_file: bool,
    pub extension: Option<Seq<char>>,
    pub modified: Option<i128>,
}

impl View for ArchiveCandidate {
    type V = ArchiveCandidateView;

    open spec fn view(&self) -> ArchiveCandidateView {
        ArchiveCandidateView {
            path: self.path@,
            is_file: self.is_file,
            extension: match self.extension {
                Some(extension) => Some(extension@),
                None => None,
            },
            modified: self.modified,
        }
    }
}

/// The views of a vector of candidates.
pub open spec fn candidate_views(candidates: Seq<ArchiveCandidate>) -> Seq<ArchiveCandidateView> {
    candidates.map_values(|c: ArchiveCandidate| c@)
}

/// A candidate is an archive where it is a file with the extension `zip`
/// whose modification time is known.
pub open spec fn is_archive(candidate: ArchiveCandidateView) -> bool {
    candidate.is_file && candidate.extension == Some("zip"@) && candidate.modified is Some
}

/// The candidate at `index` is the archive to deploy: no archive is newer,
/// and of the archives that are as new, it comes first.
pub open spec fn is_newest_archive(candidates: Seq<ArchiveCandidateView>, index: int) -> bool {
    &&& 0 <= index < candidates.len()
    &&& is_archive(candidates[index])
    &&& forall|j: int|
        0 <= j < candidates.len() && is_archive(#[trigger] candidates[j])
            ==> candidates[j].modified->0 <= candidates[index].modified->0
    &&& forall|j: int|
        0 <= j < index && is_archive(#[trigger] candidates[j]) ==> candidates[j].modified->0
            < candidates[index].modified->0
}

/// The position of the last slash of `path`.
pub open spec fn last_slash(path: Seq<char>) -> Option<int>
    decreases path.len(),
{
    if path.len() == 0 {
        None
    } else if path.last() == '/' {
        Some(path.len() - 1)
    } else {
        last_slash(path.drop_last())
    }
}

/// The folder name of the archive at `path`: what follows the last slash,
/// without its last four characters, the dot and the extension. A path
/// without a slash has none, nor one with fewer than four characters after
/// the last slash.
pub open spec fn folder_of(path: Seq<char>) -> Option<Seq<char>> {
    match last_slash(path) {
        None => None,
        Some(slash) => if path.len() - (slash + 1) < 4 {
            None
        } else {
            Some(path.subrange(slash + 1, path.len() - 4))
        },
    }
}

/// Whether `candidate` is an archive.
pub fn is_archive_candidate(candidate: &ArchiveCandidate) -> (r: bool)
    ensures
        r == is_archive(candidate@),
{
    if !candidate.is_file || candidate.modified.is_none() {
        return false;
    }
    match &candidate.extension {
        Some(extension) => *extension == String::from_str("zip"),
        None => false,
    }
}

/// The archive to deploy: the most recently modified one, and of several
/// that are equally recent, the first. Where there is no archive, there is
/// nothing to deploy.
pub fn newest_archive(candidates: &Vec<ArchiveCandidate>) -> (r: Result<usize, DeployError>)
    ensures
        match r {
            Ok(index) => is_newest_archive(candidate_views(candidates@), index as int),
            Err(error) => error == DeployError::Discovery && forall|j: int|
                0 <= j < candidates@.len() ==> !is_archive(
                    #[trigger] candidate_views(candidates@)[j],
                ),
        },
{
    let ghost all = candidate_views(candidates@);
    let mut best: Option<usize> = None;
    let mut best_time: i128 = 0;
    let mut i: usize = 0;
    while i < candidates.len()
        invariant
            i <= candidates.len(),
            all == candidate_views(candidates@),
            match best {
                Some(index) => {
                    &&& index < i
                    &&& is_archive(all[index as int])
                    &&& best_time == all[index as int].modified->0
                    &&& forall|j: int|
                        0 <= j < i && is_archive(#[trigger] all[j]) ==> all[j].modified->0
                            <= best_time
                    &&& forall|j: int|
                        0 <= j < index && is_archive(#[trigger] all[j]) ==> all[j].modified->0
                            < best_time
                },
                None => forall|j: int| 0 <= j < i ==> !is_archive(#[trigger] all[j]),
            },
        decreases candidates.len() - i,
    {
        let candidate = &candidates[i];
        assert(candidate@ == all[i as int]);
        if is_archive_candidate(candidate) {
            let time: i128 = match candidate.modified {
                Some(time) => time,
                None => 0,
            };
            if best.is_none() || time > best_time {
                best = Some(i);
                best_time = time;
            }
        }
        i = i + 1;
    }
    match best {
        Some(index) => Ok(index),
        None => Err(DeployError::Discovery),
    }
}

/// The last slash of a path is a slash, and no slash follows it.
proof fn lemma_last_slash(path: Seq<char>)
    ensures
        match last_slash(path) {
            Some(slash) => {
                &&& 0 <= slash < path.len()
                &&& path[slash] == '/'
                &&& forall|i: int| slash < i < path.len() ==> path[i] != '/'
            },
            None => forall|i: int| 0 <= i < path.len() ==> path[i] != '/',
        },
    decreases path.len(),
{
    if path.len() > 0 && path.last() != '/' {
        lemma_last_slash(path.drop_last());
        let shorter = path.drop_last();
        assert forall|i: int| 0 <= i < shorter.len() implies shorter[i] == path[i] by {}
    }
}

/// The folder name of the archive at `path`. It holds no slash.
pub fn artifact_folder(path: &str) -> (r: Option<String>)
    ensures
        match r {
            Some(folder) => folder_of(path@) == Some(folder@) && !folder@.contains('/'),
            None => folder_of(path@) is None,
        },
{
    let chars: Vec<char> = chars_of(path);
    let n: usize = chars.len();
    let mut i: usize = n;
    assert(path@.take(n as int) =~= path@);
    while i > 0
        invariant
            i <= n,
            n == path@.len(),
            chars@ == path@,
            last_slash(path@) == last_slash(path@.take(i as int)),
        decreases i,
    {
        proof {
            let prefix = path@.take(i as int);
            assert(prefix.last() == path@[i - 1]);
            assert(prefix.drop_last() =~= path@.take(i - 1));
        }
        if chars[i - 1] == '/' {
            if n - i < 4 {
                return None;
            }
            let folder = String::from_str(path.substring_char(i, n - 4));
            proof {
                lemma_last_slash(path@);
                assert forall|k: int| 0 <= k < folder@.len() implies folder@[k] != '/' by {
                    assert(folder@[k] == path@[i + k]);
                }
            }
            return Some(folder);
        }
        i = i - 1;
    }
    None
}

} // verus!
