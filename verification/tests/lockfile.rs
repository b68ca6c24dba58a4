use modpm::data_structs::{LockfileMod, LockfileRead, ModpmLockfile};
use modpm::error::ModpmError;
use modpm::modrinth::{ModVersion, ModVersionFile, ModVersionFileHashes};

fn lock_release(id: &str, project: &str) -> ModVersion {
    ModVersion {
        mpm_id: None,
        id: id.to_string(),
        name: format!("release {}", id),
        version_number: "1.0".to_string(),
        loaders: vec!["fabric".to_string()],
        files: vec![lock_file(id)],
        game_versions: vec!["1.20.1".to_string()],
        project_id: project.to_string(),
        date_published: "2022-06-21T17:11:12+00:00".to_string(),
        dependencies: vec![],
    }
}

fn lock_file(id: &str) -> ModVersionFile {
    ModVersionFile {
        hashes: ModVersionFileHashes { sha512: "00ff".to_string() },
        url: format!("https://cdn.example/{}.jar", id),
        filename: format!("{}.jar", id),
        primary: true,
    }
}

fn lock_entry(id: &str, project: &str) -> LockfileMod {
    LockfileMod { version: lock_release(id, project), file: lock_file(id), mpm_mod: None }
}

#[test]
fn an_absent_lockfile_holds_nothing() {
    assert_eq!(ModpmLockfile::get_lockfile(LockfileRead::Absent), Ok(vec![]));
}

#[test]
fn a_malformed_lockfile_is_an_error() {
    assert_eq!(ModpmLockfile::get_lockfile(LockfileRead::Malformed), Err(ModpmError::CorruptLockfile));
    assert_eq!(
        ModpmLockfile::add_to_lockfile(LockfileRead::Malformed, &lock_release("a", "p"), &lock_file("a")),
        Err(ModpmError::CorruptLockfile)
    );
}

#[test]
fn a_parsed_lockfile_is_handed_out_as_it_is() {
    let entries = vec![lock_entry("a", "pa"), lock_entry("b", "pb")];
    let same = vec![lock_entry("a", "pa"), lock_entry("b", "pb")];
    assert_eq!(ModpmLockfile::get_lockfile(LockfileRead::Parsed(entries)), Ok(same));
}

#[test]
fn append_then_get_on_an_empty_lockfile_gives_the_entry_alone() {
    let written =
        ModpmLockfile::add_to_lockfile(LockfileRead::Absent, &lock_release("a", "pa"), &lock_file("a")).unwrap();
    let read_back = ModpmLockfile::get_lockfile(LockfileRead::Parsed(written)).unwrap();
    assert_eq!(read_back, vec![lock_entry("a", "pa")]);

    let written = ModpmLockfile::add_to_lockfile(
        LockfileRead::Parsed(vec![]),
        &lock_release("a", "pa"),
        &lock_file("a"),
    )
    .unwrap();
    assert_eq!(written, vec![lock_entry("a", "pa")]);
}

#[test]
fn append_keeps_the_prior_entries_and_puts_the_new_one_last() {
    let prior = vec![lock_entry("a", "pa"), lock_entry("b", "pb")];
    let written =
        ModpmLockfile::add_to_lockfile(LockfileRead::Parsed(prior), &lock_release("c", "pc"), &lock_file("c"))
            .unwrap();
    let read_back = ModpmLockfile::get_lockfile(LockfileRead::Parsed(written)).unwrap();
    assert_eq!(read_back, vec![lock_entry("a", "pa"), lock_entry("b", "pb"), lock_entry("c", "pc")]);
}

#[test]
fn the_new_entry_holds_the_release_and_the_file_and_no_project() {
    let version = lock_release("a", "pa");
    let file = lock_file("other");
    let written = ModpmLockfile::add_to_lockfile(LockfileRead::Absent, &version, &file).unwrap();
    assert_eq!(written.len(), 1);
    assert_eq!(written[0].version, version);
    assert_eq!(written[0].file, file);
    assert_eq!(written[0].mpm_mod, None);
}

#[test]
fn has_project_looks_at_the_project_ids() {
    let entries = vec![lock_entry("a", "pa"), lock_entry("b", "pb")];
    assert!(ModpmLockfile::has_project(&entries, &"pa".to_string()));
    assert!(ModpmLockfile::has_project(&entries, &"pb".to_string()));
    assert!(!ModpmLockfile::has_project(&entries, &"a".to_string()));
    assert!(!ModpmLockfile::has_project(&entries, &"p".to_string()));
    assert!(!ModpmLockfile::has_project(&vec![], &"pa".to_string()));
}

#[test]
fn the_lockfile_lies_in_the_mods_directory() {
    assert_eq!(
        ModpmLockfile::path("/home/u/.local/share/PolyMC/instances/main/.minecraft/mods"),
        "/home/u/.local/share/PolyMC/instances/main/.minecraft/mods/.modpm_lockfile.json"
    );
}
