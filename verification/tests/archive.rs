use stack_deploy::archive::{
    plan_extraction, ArchiveEntry, EntryAction, ExtractionTarget, Manifest, ManifestEntry,
};

fn entry(raw_name: &str, target: Option<(&str, &str)>) -> ArchiveEntry {
    ArchiveEntry {
        raw_name: raw_name.to_string(),
        target: target
            .map(|(path, name)| ExtractionTarget { path: path.to_string(), name: name.to_string() }),
    }
}

fn listed(manifest: &Manifest) -> Vec<ManifestEntry> {
    let mut all = Vec::new();
    let mut index = 0;
    while let Some(entry) = manifest.get(index) {
        all.push(entry.clone());
        index += 1;
    }
    assert_eq!(index, manifest.len());
    all
}

fn file(path: &str, name: &str) -> ManifestEntry {
    ManifestEntry { path: path.to_string(), name: name.to_string() }
}

#[test]
fn the_plan_has_one_action_for_each_entry() {
    let entries = vec![
        entry("lib/", Some(("/out/lib", "lib"))),
        entry("lib/a.txt", Some(("/out/lib/a.txt", "lib/a.txt"))),
        entry("../evil", None),
        entry("template.json", Some(("/out/template.json", "template.json"))),
    ];
    let plan = plan_extraction(&entries);
    assert_eq!(
        plan.actions,
        vec![
            EntryAction::CreateDirectory { path: "/out/lib".to_string() },
            EntryAction::WriteFile { path: "/out/lib/a.txt".to_string() },
            EntryAction::Skip,
            EntryAction::WriteFile { path: "/out/template.json".to_string() },
        ]
    );
    assert_eq!(
        listed(&plan.manifest),
        vec![file("/out/lib/a.txt", "lib/a.txt"), file("/out/template.json", "template.json")]
    );
}

#[test]
fn directories_and_skipped_entries_are_not_in_the_manifest() {
    let entries = vec![entry("a/", Some(("/out/a", "a"))), entry("/abs", None), entry("b/", None)];
    let plan = plan_extraction(&entries);
    assert_eq!(plan.manifest.len(), 0);
    assert_eq!(
        plan.actions,
        vec![
            EntryAction::CreateDirectory { path: "/out/a".to_string() },
            EntryAction::Skip,
            EntryAction::Skip
        ]
    );
}

#[test]
fn a_file_stored_twice_is_written_twice_and_listed_once() {
    let entries = vec![
        entry("a.txt", Some(("/out/a.txt", "a.txt"))),
        entry("a.txt", Some(("/out/a.txt", "a.txt"))),
    ];
    let plan = plan_extraction(&entries);
    assert_eq!(plan.actions.len(), 2);
    assert_eq!(listed(&plan.manifest), vec![file("/out/a.txt", "a.txt")]);
}

#[test]
fn an_empty_archive_has_an_empty_plan() {
    let plan = plan_extraction(&Vec::new());
    assert!(plan.actions.is_empty());
    assert_eq!(plan.manifest.len(), 0);
}

#[test]
fn a_manifest_lists_each_name_where_it_first_occurs() {
    let manifest = Manifest::new()
        .add("/one".to_string(), "a".to_string())
        .add("/two".to_string(), "b".to_string())
        .add("/three".to_string(), "a".to_string());
    assert_eq!(listed(&manifest), vec![file("/one", "a"), file("/two", "b")]);
    assert!(manifest.contains_name(&"a".to_string()));
    assert!(manifest.contains_name(&"b".to_string()));
    assert!(!manifest.contains_name(&"/one".to_string()));
    assert!(manifest.get(2).is_none());
}
