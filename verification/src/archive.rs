//! What to do with the entries of an archive, and the manifest of the files
//! that extraction leaves behind.
//!
//! Reading the archive and writing to disk is the caller's business. The
//! caller says what each entry is called and where it would go; the plan
//! says, entry by entry, whether to skip it, to make a directory or to write
//! a file, and lists the files in a manifest.

use vstd::prelude::*;
use crate::text::ends_with;

verus! {

/// One extracted file: where it lies, and its name inside the archive.
#[derive(Debug, Clone, PartialEq, Eq)]
pub struct ManifestEntry {
    pub path: String,
    pub name: String,
}

/// A `ManifestEntry` with its texts as character sequences.
pub struct ManifestEntryView {
    pub path: Seq<char>,
    pub name: Seq<char>,
}

impl View for ManifestEntry {
    type V = ManifestEntryView;

    open spec fn view(&self) -> ManifestEntryView {
        ManifestEntryView { path: self.path@, name: self.name@ }
    }
}

/// The views of a vector of manifest entries.
pub open spec fn manifest_views(entries: Seq<ManifestEntry>) -> Seq<ManifestEntryView> {
    entries.map_values(|e: ManifestEntry| e@)
}

/// The relative names of a manifest, in order.
pub open spec fn manifest_names(manifest: Seq<ManifestEntryView>) -> Seq<Seq<char>> {
    manifest.map_values(|e: ManifestEntryView| e.name)
}

/// In a manifest, no relative name occurs twice.
pub open spec fn well_formed_manifest(manifest: Seq<ManifestEntryView>) -> bool {
    manifest_names(manifest).no_duplicates()
}

/// `manifest` with the file `name` at `path` added, unless a file of that
/// name is listed already.
pub open spec fn with_file(
    manifest: Seq<ManifestEntryView>,
    path: Seq<char>,
    name: Seq<char>,
) -> Seq<ManifestEntryView> {
    if manifest_names(manifest).contains(name) {
        manifest
    } else {
        manifest.push(ManifestEntryView { path, name })
    }
}

/// Where an entry goes: its path on disk and its name relative to the
/// archive's root.
#[derive(Debug, Clone, PartialEq, Eq)]
pub struct ExtractionTarget {
    pub path: String,
    pub name: String,
}

/// One entry of an archive: its name as stored, and where it goes, if it
/// can be extracted safely at all.
#[derive(Debug, Clone, PartialEq, Eq)]
pub struct ArchiveEntry {
    pub raw_name: String,
    pub target: Option<ExtractionTarget>,
}

/// An `ArchiveEntry` over views; the target is a pair of path and name.
pub struct ArchiveEntryView {
    pub raw_name: Seq<char>,
    pub target: Option<(Seq<char>, Seq<char>)>,
}

impl View for ArchiveEntry {
    type V = ArchiveEntryView;

    open spec fn view(&self) -> ArchiveEntryView {
        ArchiveEntryView {
            raw_name: self.raw_name@,
            target: match self.target {
                Some(target) => Some((target.path@, target.name@)),
                None => None,
            },
        }
    }
}

/// The views of a vector of archive entries.
pub open spec fn archive_views(entries: Seq<ArchiveEntry>) -> Seq<ArchiveEntryView> {
    entries.map_values(|e: ArchiveEntry| e@)
}

/// What is done with one entry.
#[derive(Debug, Clone, PartialEq, Eq)]
pub enum EntryAction {
    /// The entry has no safe target: nothing is done.
    Skip,
    /// The entry is a directory: create it, with its parents.
    CreateDirectory { path: String },
    /// The entry is a file: write it, creating its parent directory first.
    WriteFile { path: String },
}

/// An `EntryAction` over views.
pub enum EntryActionView {
    Skip,
    CreateDirectory { path: Seq<char> },
    WriteFile { path: Seq<char> },
}

impl View for EntryAction {
    type V = EntryActionView;

    open spec fn view(&self) -> EntryActionView {
        match self {
            EntryAction::Skip => EntryActionView::Skip,
            EntryAction::CreateDirectory { path } => EntryActionView::CreateDirectory {
                path: path@,
            },
            EntryAction::WriteFile { path } => EntryActionView::WriteFile { path: path@ },
        }
    }
}

/// The views of a vector of actions.
pub open spec fn action_views(actions: Seq<EntryAction>) -> Seq<EntryActionView> {
    actions.map_values(|a: EntryAction| a@)
}

/// An entry whose stored name ends with a slash is a directory.
pub open spec fn is_directory_name(raw_name: Seq<char>) -> bool {
    "/"@.is_suffix_of(raw_name)
}

/// What is done with `entry`.
pub open spec fn action_of(entry: ArchiveEntryView) -> EntryActionView {
    match entry.target {
        None => EntryActionView::Skip,
        Some(target) => if is_directory_name(entry.raw_name) {
            EntryActionView::CreateDirectory { path: target.0 }
        } else {
            EntryActionView::WriteFile { path: target.0 }
        },
    }
}

/// The manifest of an archive: its files in archive order, directories and
/// skipped entries left out, each name listed where it first occurs.
pub open spec fn manifest_of(entries: Seq<ArchiveEntryView>) -> Seq<ManifestEntryView>
    decreases entries.len(),
{
    if entries.len() == 0 {
        Seq::empty()
    } else {
        let before = manifest_of(entries.drop_last());
        let entry = entries.last();
        match entry.target {
            Some(target) => if is_directory_name(entry.raw_name) {
                before
            } else {
                with_file(before, target.0, target.1)
            },
            None => before,
        }
    }
}

/// The files that extraction leaves behind, each under its own name.
pub struct Manifest {
    entries: Vec<ManifestEntry>,
}

impl View for Manifest {
    type V = Seq<ManifestEntryView>;

    closed spec fn view(&self) -> Seq<ManifestEntryView> {
        manifest_views(self.entries@)
    }
}

impl Manifest {
    #[verifier::type_invariant]
    spec fn names_are_distinct(self) -> bool {
        well_formed_manifest(manifest_views(self.entries@))
    }

    /// The manifest of no files.
    pub fn new() -> (r: Manifest)
        ensures
            r@ == Seq::<ManifestEntryView>::empty(),
    {
        let r = Manifest { entries: Vec::new() };
        assert(manifest_views(r.entries@) =~= Seq::empty());
        r
    }

    /// The number of files. Their names are distinct.
    pub fn len(&self) -> (n: usize)
        ensures
            n == self@.len(),
            well_formed_manifest(self@),
    {
        proof {
            use_type_invariant(self);
        }
        self.entries.len()
    }

    /// The file at `index`, in manifest order.
    pub(crate) fn entry(&self, index: usize) -> (e: &ManifestEntry)
        requires
            index < self@.len(),
        ensures
            e@ == self@[index as int],
    {
        &self.entries[index]
    }

    /// The file at `index`, in manifest order; `None` past the end.
    pub fn get(&self, index: usize) -> (e: Option<&ManifestEntry>)
        ensures
            e is Some <==> index < self@.len(),
            e matches Some(entry) ==> entry@ == self@[index as int],
    {
        if index < self.entries.len() {
            Some(&self.entries[index])
        } else {
            None
        }
    }

    /// Whether a file of the name `name` is listed.
    pub fn contains_name(&self, name: &String) -> (r: bool)
        ensures
            r == manifest_names(self@).contains(name@),
    {
        let ghost names = manifest_names(self@);
        let mut i: usize = 0;
        while i < self.entries.len()
            invariant
                i <= self.entries.len(),
                names == manifest_names(manifest_views(self.entries@)),
                forall|k: int| 0 <= k < i ==> names[k] != name@,
            decreases self.entries.len() - i,
        {
            if self.entries[i].name == *name {
                assert(names[i as int] == name@);
                return true;
            }
            i = i + 1;
        }
        false
    }

    /// This manifest with the file `name` at `path` listed too, unless a
    /// file of that name is listed already.
    pub fn add(self, path: String, name: String) -> (r: Manifest)
        ensures
            r@ == with_file(self@, path@, name@),
    {
        proof {
            use_type_invariant(&self);
        }
        if self.contains_name(&name) {
            self
        } else {
            let ghost before = manifest_views(self.entries@);
            let ghost entry = ManifestEntryView { path: path@, name: name@ };
            let mut entries = self.entries;
            entries.push(ManifestEntry { path, name });
            proof {
                let after = before.push(entry);
                let names = manifest_names(after);
                assert(manifest_views(entries@) =~= after);
                assert forall|a: int, b: int|
                    0 <= a < names.len() && 0 <= b < names.len() && a != b implies names[a]
                    != names[b] by {
                    if a < before.len() {
                        assert(names[a] == manifest_names(before)[a]);
                    }
                    if b < before.len() {
                        assert(names[b] == manifest_names(before)[b]);
                    }
                }
            }
            Manifest { entries }
        }
    }
}

/// What to do with each entry of an archive, and the manifest that results.
pub struct ExtractionPlan {
    /// One action for each entry, in archive order.
    pub actions: Vec<EntryAction>,
    pub manifest: Manifest,
}

/// Plans the extraction of the entries `entries`.
pub fn plan_extraction(entries: &Vec<ArchiveEntry>) -> (plan: ExtractionPlan)
    ensures
        action_views(plan.actions@) == archive_views(entries@).map_values(
            |e: ArchiveEntryView| action_of(e),
        ),
        plan.manifest@ == manifest_of(archive_views(entries@)),
        well_formed_manifest(plan.manifest@),
{
    let mut actions: Vec<EntryAction> = Vec::new();
    let mut manifest = Manifest::new();
    let ghost all = archive_views(entries@);
    let mut i: usize = 0;
    assert(all.take(0) =~= Seq::empty());
    while i < entries.len()
        invariant
            i <= entries.len(),
            all == archive_views(entries@),
            actions@.len() == i,
            forall|k: int| 0 <= k < i ==> (#[trigger] actions@[k])@ == action_of(all[k]),
            manifest@ == manifest_of(all.take(i as int)),
        decreases entries.len() - i,
    {
        let entry = &entries[i];
        proof {
            assert(all.take(i + 1).drop_last() =~= all.take(i as int));
            assert(all.take(i + 1).last() == entry@);
        }
        let action = match &entry.target {
            None => EntryAction::Skip,
            Some(target) => {
                if ends_with(entry.raw_name.as_str(), "/") {
                    EntryAction::CreateDirectory { path: target.path.clone() }
                } else {
                    manifest = manifest.add(target.path.clone(), target.name.clone());
                    EntryAction::WriteFile { path: target.path.clone() }
                }
            },
        };
        actions.push(action);
        i = i + 1;
    }
    assert(all.take(i as int) =~= all);
    assert(action_views(actions@) =~= all.map_values(|e: ArchiveEntryView| action_of(e)));
    proof {
        use_type_invariant(&manifest);
    }
    ExtractionPlan { actions, manifest }
}

} // verus!
