use modpm::download::{download_progress, download_target};
use modpm::error::ModpmError;
use modpm::hash::{hash_file, to_hex};
use modpm::json::{format_to_vec_of_strings, strip_all_quotes, strip_quotes};
use modpm::lookup::{ids_text, FindingMembers, Lookup, ProjectRecord};
use serde_json::Value;
use modpm::modrinth::{
    ModVersion, ModrinthLicense, ModrinthTeamMember, ModrinthTeamUser, MpmMod,
};

fn user(login: &str, name: Option<&str>) -> ModrinthTeamUser {
    ModrinthTeamUser {
        username: login.to_string(),
        name: name.map(|n| n.to_string()),
        email: None,
        bio: None,
        id: format!("id-{}", login),
        github_id: 1,
        avatar_url: String::new(),
        created: String::new(),
        role: "developer".to_string(),
    }
}

fn member(login: &str, role: &str) -> ModrinthTeamMember {
    ModrinthTeamMember {
        team_id: "team".to_string(),
        user: user(login, None),
        role: role.to_string(),
        permissions: None,
        accepted: true,
    }
}

fn record(id: &str, versions: &[&str]) -> ProjectRecord {
    ProjectRecord {
        title: "Sodium".to_string(),
        id: id.to_string(),
        license: ModrinthLicense { id: "lgpl-3".to_string(), name: "LGPL".to_string(), url: String::new() },
        versions: versions.iter().map(|v| v.to_string()).collect(),
        description: "fast".to_string(),
        categories: vec!["optimization".to_string()],
        source_url: "https://example.org/src".to_string(),
        donation_urls: vec![],
    }
}

fn plain_release(id: &str, project: &str) -> ModVersion {
    ModVersion {
        mpm_id: None,
        id: id.to_string(),
        name: id.to_string(),
        version_number: "1".to_string(),
        loaders: vec![],
        files: vec![],
        game_versions: vec![],
        project_id: project.to_string(),
        date_published: String::new(),
        dependencies: vec![],
    }
}

#[test]
fn display_name_prefers_the_chosen_name() {
    assert_eq!(user("jelly", Some("Jelly Squid")).display_name(), "Jelly Squid");
    assert_eq!(user("jelly", None).display_name(), "jelly");
    assert_eq!(user("jelly", Some("")).display_name(), "");
}

#[test]
fn the_owner_is_the_first_member_with_that_role() {
    let mut m = MpmMod {
        title: String::new(),
        id: String::new(),
        license: ModrinthLicense { id: String::new(), name: String::new(), url: String::new() },
        versions: vec![],
        description: String::new(),
        categories: vec![],
        source_url: String::new(),
        donation_urls: vec![],
        members: vec![member("a", "Developer"), member("b", "Owner"), member("c", "Owner")],
    };
    assert_eq!(m.get_owner().map(|o| o.user.username.as_str()), Some("b"));
    m.members = vec![member("a", "owner"), member("b", "Maintainer")];
    assert_eq!(m.get_owner(), None);
    m.members = vec![];
    assert_eq!(m.get_owner(), None);
}

#[test]
fn json_arrays_become_plain_strings() {
    let ids = Value::Array(vec![Value::String("AABBCC".to_string()), Value::String("x y".to_string())]);
    assert_eq!(format_to_vec_of_strings(&ids), vec!["AABBCC", "x y"]);
    let mixed = Value::Array(vec![
        Value::from(12),
        Value::Bool(true),
        Value::Null,
        Value::String("say \"hi\"".to_string()),
        Value::Array(vec![Value::String("in".to_string()), Value::from(1)]),
    ]);
    assert_eq!(format_to_vec_of_strings(&mixed), vec!["12", "true", "null", "say \\hi\\", "[in,1]"]);
    assert_eq!(format_to_vec_of_strings(&Value::Array(vec![])), Vec::<String>::new());
}

#[test]
fn json_values_that_are_no_arrays_give_nothing() {
    assert_eq!(format_to_vec_of_strings(&Value::Null), Vec::<String>::new());
    assert_eq!(format_to_vec_of_strings(&Value::String("abc".to_string())), Vec::<String>::new());
    assert_eq!(format_to_vec_of_strings(&Value::from(3)), Vec::<String>::new());
    assert_eq!(format_to_vec_of_strings(&Value::Object(serde_json::Map::new())), Vec::<String>::new());
}

#[test]
fn quotes_are_removed_and_nothing_else() {
    assert_eq!(strip_quotes("\"abc\""), "abc");
    assert_eq!(strip_quotes("a\"b\"c"), "abc");
    assert_eq!(strip_quotes("\"\"\""), "");
    assert_eq!(strip_quotes("'a' \\ é"), "'a' \\ é");
    assert_eq!(strip_quotes(""), "");
    assert_eq!(
        strip_all_quotes(&vec!["\"a\"".to_string(), "b".to_string(), "\"".to_string()]),
        vec!["a", "b", ""]
    );
}

#[test]
fn hex_has_two_lower_case_digits_for_each_byte() {
    assert_eq!(to_hex(&[]), "");
    assert_eq!(to_hex(&[0x00, 0x0f, 0x10, 0xab, 0xff]), "000f10abff");
    assert_eq!(to_hex(&[1, 2, 3, 15, 16]), "0102030f10");
    let all: Vec<u8> = (0..=255).collect();
    assert_eq!(to_hex(&all), hex::encode(&all));
}

#[test]
fn the_hash_of_a_file_is_its_sha_512_in_hex() {
    assert_eq!(
        hash_file(b"abc"),
        "ddaf35a193617abacc417349ae20413112e6fa4e89a97ea20a9eeee64b55d39a2192992a274fc1a836ba3c23a3feebbd454d4423643ce80e2a9ac94fa54ca49f"
    );
    assert_eq!(
        hash_file(b""),
        "cf83e1357eefb8bdf1542850d66d8007d620e4050b5715dc83f4a921d36ce9ce47d0d13c5d85f2b0ff8318d2877eec2f63b931bd47417a81a538327af927da3e"
    );
}

#[test]
fn progress_never_passes_the_total() {
    assert_eq!(download_progress(0, 100, 1000), 100);
    assert_eq!(download_progress(900, 100, 1000), 1000);
    assert_eq!(download_progress(950, 100, 1000), 1000);
    assert_eq!(download_progress(0, 0, 0), 0);
    assert_eq!(download_progress(5, 1, 0), 0);
    assert_eq!(download_progress(1200, 10, 1000), 1000);
    assert_eq!(download_progress(u64::MAX - 1, usize::MAX, u64::MAX), u64::MAX);
}

#[test]
fn a_download_goes_into_the_directory_under_its_name() {
    assert_eq!(download_target("/mods", "sodium.jar"), "/mods/sodium.jar");
    assert_eq!(download_target("", ""), "/");
}

#[test]
fn ids_are_listed_between_quotes() {
    assert_eq!(ids_text(&vec![]), "[]");
    assert_eq!(ids_text(&vec!["a".to_string()]), "[\"a\"]");
    let ids = vec!["AABB".to_string(), "ccdd".to_string(), "e".to_string()];
    assert_eq!(ids_text(&ids), "[\"AABB\", \"ccdd\", \"e\"]");
    assert_eq!(ids_text(&ids), format!("{:?}", ids));
}

#[test]
fn a_search_by_project_fetches_project_releases_and_team() {
    let first = match MpmMod::new("sodium") {
        Lookup::Project(step) => step,
        other => panic!("expected the project request, got {:?}", other),
    };
    assert_eq!(first.url(), "https://api.modrinth.com/v2/project/sodium");
    let second = match first.fetched(Some(record("AANobbMI", &["v1", "v2"]))) {
        Lookup::Versions(step) => step,
        other => panic!("expected the releases request, got {:?}", other),
    };
    assert_eq!(second.url(), "https://api.modrinth.com/v2/versions?ids=[\"v1\", \"v2\"]");
    let releases = vec![plain_release("v1", "AANobbMI"), plain_release("v2", "AANobbMI")];
    let third = match second.fetched(releases.clone()) {
        Lookup::Members(step) => step,
        other => panic!("expected the team request, got {:?}", other),
    };
    assert_eq!(third.url(), "https://api.modrinth.com/v2/project/AANobbMI/members");
    let team = vec![member("jelly", "Owner")];
    match third.fetched(team.clone()) {
        Lookup::Found(found) => {
            let given = record("AANobbMI", &["v1", "v2"]);
            assert_eq!(found.title, given.title);
            assert_eq!(found.id, given.id);
            assert_eq!(found.license, given.license);
            assert_eq!(found.versions, releases);
            assert_eq!(found.description, given.description);
            assert_eq!(found.categories, given.categories);
            assert_eq!(found.source_url, given.source_url);
            assert_eq!(found.donation_urls, given.donation_urls);
            assert_eq!(found.members, team);
        }
        other => panic!("expected the project, got {:?}", other),
    }
}

#[test]
fn an_unknown_project_is_not_found() {
    match MpmMod::new("nope") {
        Lookup::Project(step) => assert_eq!(step.fetched(None), Lookup::Fail(ModpmError::NotFound)),
        other => panic!("expected the project request, got {:?}", other),
    }
}

#[test]
fn a_search_by_hash_goes_on_with_the_project_of_the_release() {
    let first = match MpmMod::new_from_hash("00ff") {
        Lookup::ByHash(step) => step,
        other => panic!("expected the hash request, got {:?}", other),
    };
    assert_eq!(first.url(), "https://api.modrinth.com/v2/version_file/00ff?algorithm=sha512");
    match first.fetched(Some(plain_release("v9", "projid"))) {
        Lookup::Project(step) => {
            assert_eq!(step.query, "projid");
            assert_eq!(step.url(), "https://api.modrinth.com/v2/project/projid");
        }
        other => panic!("expected the project request, got {:?}", other),
    }
    match MpmMod::new_from_hash("00ff") {
        Lookup::ByHash(step) => assert_eq!(step.fetched(None), Lookup::Fail(ModpmError::NotFound)),
        other => panic!("expected the hash request, got {:?}", other),
    }
}

#[test]
fn a_release_has_its_own_address() {
    assert_eq!(ModVersion::url("abc123"), "https://api.modrinth.com/v2/version/abc123");
    let step = FindingMembers { project: record("p", &[]), versions: vec![] };
    assert_eq!(step.url(), "https://api.modrinth.com/v2/project/p/members");
}

#[test]
fn every_error_has_its_sentence() {
    let all = [
        ModpmError::NotFound,
        ModpmError::UnsupportedModloader,
        ModpmError::NoCompatibleVersion,
        ModpmError::InvalidSelection,
        ModpmError::NoPrimaryFile,
        ModpmError::NoDependencyVersion,
        ModpmError::DownloadFailed,
        ModpmError::CorruptLockfile,
        ModpmError::AlreadyInstalled,
        ModpmError::LockfileWriteFailed,
    ];
    for (i, a) in all.iter().enumerate() {
        assert!(!a.message().is_empty());
        for b in &all[i + 1..] {
            assert_ne!(a.message(), b.message());
        }
    }
    assert_eq!(ModpmError::NotFound.message(), "Couldn't find mod");
    assert_eq!(ModpmError::NoPrimaryFile.message(), "Couldn't find a mod version's primary file");
}
