use modpm::error::ModpmError;
use modpm::modrinth::{ModVersion, ModVersionFile, ModVersionFileHashes};
use modpm::polymc::PolyInstance;
use modpm::latest::{latest_index, published_times, text_less};
use modpm::prompt::{choices, decimal_text, selected};
use modpm::resolver::{filter_compatible, first_compatible, resolve, Resolution};

fn release(id: &str, game_versions: &[&str], loaders: &[&str]) -> ModVersion {
    ModVersion {
        mpm_id: None,
        id: id.to_string(),
        name: format!("release {}", id),
        version_number: format!("{}.0", id),
        loaders: loaders.iter().map(|s| s.to_string()).collect(),
        files: vec![],
        game_versions: game_versions.iter().map(|s| s.to_string()).collect(),
        project_id: "proj".to_string(),
        date_published: "2022-06-21T17:11:12+00:00".to_string(),
        dependencies: vec![],
    }
}

fn dated(id: &str, date: &str) -> ModVersion {
    let mut v = release(id, &["1.20.1"], &["fabric"]);
    v.date_published = date.to_string();
    v
}

fn file(name: &str, primary: bool) -> ModVersionFile {
    ModVersionFile {
        hashes: ModVersionFileHashes { sha512: format!("hash-of-{}", name) },
        url: format!("https://cdn.example/{}", name),
        filename: name.to_string(),
        primary,
    }
}

fn with_files(files: Vec<ModVersionFile>) -> ModVersion {
    let mut v = release("v", &["1.20.1"], &["fabric"]);
    v.files = files;
    v
}

fn fabric_1_20_1() -> PolyInstance {
    PolyInstance {
        id: 1,
        name: "main".to_string(),
        folder_name: "main".to_string(),
        game_version: "1.20.1".to_string(),
        modloader: "fabric".to_string(),
    }
}

#[test]
fn resolve_returns_the_only_release_that_fits() {
    let candidates = vec![
        release("v1", &["1.19"], &["fabric"]),
        release("v2", &["1.20.1"], &["fabric"]),
    ];
    match resolve(&candidates, &fabric_1_20_1()) {
        Ok(Resolution::Unique(v)) => assert_eq!(v, candidates[1]),
        other => panic!("expected a unique release, got {:?}", other),
    }
}

#[test]
fn resolve_fails_where_nothing_fits() {
    let candidates = vec![
        release("v1", &["1.19"], &["fabric"]),
        release("v3", &["1.20.1"], &["forge"]),
    ];
    assert_eq!(resolve(&candidates, &fabric_1_20_1()), Err(ModpmError::NoCompatibleVersion));
    assert_eq!(resolve(&vec![], &fabric_1_20_1()), Err(ModpmError::NoCompatibleVersion));
}

#[test]
fn resolve_is_ambiguous_where_several_fit() {
    let candidates = vec![
        release("v1", &["1.20.1", "1.20"], &["quilt", "fabric"]),
        release("v2", &["1.19"], &["fabric"]),
        release("v3", &["1.20.1"], &["fabric"]),
    ];
    match resolve(&candidates, &fabric_1_20_1()) {
        Ok(Resolution::Ambiguous(list)) => {
            assert_eq!(list.len(), 2);
            assert_eq!(list[0], candidates[0]);
            assert_eq!(list[1], candidates[2]);
        }
        other => panic!("expected several releases, got {:?}", other),
    }
}

#[test]
fn filter_keeps_exactly_the_releases_that_fit_in_order() {
    let candidates = vec![
        release("a", &["1.20.1"], &["forge"]),
        release("b", &["1.20.1"], &["fabric"]),
        release("c", &["1.20"], &["fabric"]),
        release("d", &["1.18", "1.20.1"], &["forge", "fabric"]),
        release("e", &[], &[]),
    ];
    let kept = filter_compatible(&candidates, &fabric_1_20_1());
    let ids: Vec<&str> = kept.iter().map(|v| v.id.as_str()).collect();
    assert_eq!(ids, vec!["b", "d"]);
    for v in &candidates {
        assert_eq!(kept.contains(v), v.fits(&fabric_1_20_1()));
    }
}

#[test]
fn game_version_and_loader_must_match_letter_for_letter() {
    let profile = fabric_1_20_1();
    assert!(release("a", &["1.20.1"], &["fabric"]).fits(&profile));
    assert!(!release("a", &["1.20.10"], &["fabric"]).fits(&profile));
    assert!(!release("a", &["1.20.1"], &["Fabric"]).fits(&profile));
    assert!(!release("a", &["1.20.1"], &[]).fits(&profile));
}

#[test]
fn first_compatible_takes_the_first_that_fits() {
    let candidates = vec![
        release("a", &["1.19"], &["fabric"]),
        release("b", &["1.20.1"], &["fabric"]),
        release("c", &["1.20.1"], &["fabric"]),
    ];
    assert_eq!(first_compatible(&candidates, &fabric_1_20_1()), Some(release("b", &["1.20.1"], &["fabric"])));
    assert_eq!(first_compatible(&candidates[..1].to_vec(), &fabric_1_20_1()), None);
}

#[test]
fn time_reads_rfc_3339() {
    assert_eq!(dated("a", "2022-06-21T17:11:12+00:00").time(), Some(1655831472));
    assert_eq!(dated("a", "2022-06-21T17:11:12Z").time(), Some(1655831472));
    assert_eq!(dated("a", "1996-12-19T16:39:57-08:00").time(), Some(851042397));
    assert_eq!(dated("a", "1970-01-01T00:00:00Z").time(), Some(0));
    assert_eq!(dated("a", "yesterday").time(), None);
    assert_eq!(dated("a", "").time(), None);
}

#[test]
fn published_times_follow_the_candidates() {
    let candidates = vec![
        dated("a", "1970-01-01T00:00:10Z"),
        dated("b", "not a date"),
        dated("c", "1970-01-01T00:01:00Z"),
    ];
    assert_eq!(published_times(&candidates), vec![Some(10), None, Some(60)]);
}

fn named(ids: &[&str]) -> Vec<ModVersion> {
    ids.iter().map(|id| dated(id, "")).collect()
}

#[test]
fn latest_is_the_greatest_time() {
    assert_eq!(latest_index(&named(&["a", "b", "c"]), &vec![Some(5), Some(9), Some(7)]), Some(1));
    assert_eq!(latest_index(&named(&["a", "b"]), &vec![Some(-5), Some(-9)]), Some(0));
    assert_eq!(latest_index(&named(&["b", "a"]), &vec![Some(-9), Some(-5)]), Some(1));
    assert_eq!(latest_index(&named(&["a"]), &vec![Some(i64::MIN)]), Some(0));
}

#[test]
fn latest_of_equal_times_is_the_one_with_the_least_id() {
    let times = vec![Some(3), Some(9), Some(9), Some(1), Some(9)];
    assert_eq!(latest_index(&named(&["a", "d", "c", "b", "e"]), &times), Some(2));
    assert_eq!(latest_index(&named(&["a", "b", "c", "d", "e"]), &times), Some(1));
    assert_eq!(latest_index(&named(&["z", "y", "x"]), &vec![Some(0), Some(0), Some(0)]), Some(2));
    assert_eq!(latest_index(&named(&["ab", "a", "abc"]), &vec![Some(0), Some(0), Some(0)]), Some(1));
    assert_eq!(latest_index(&named(&["b", "B"]), &vec![Some(0), Some(0)]), Some(1));
    assert_eq!(latest_index(&named(&["é", "z"]), &vec![Some(0), Some(0)]), Some(1));
}

#[test]
fn latest_of_equal_times_and_ids_is_the_first_listed() {
    assert_eq!(latest_index(&named(&["b", "a", "a"]), &vec![Some(4), Some(4), Some(4)]), Some(1));
    assert_eq!(latest_index(&named(&["", ""]), &vec![Some(0), Some(0)]), Some(0));
}

#[test]
fn the_latest_does_not_depend_on_the_order_of_the_list() {
    let one = vec![dated("c", "2022-01-01T00:00:00Z"), dated("a", "2022-01-01T00:00:00Z"), dated("b", "2021-01-01T00:00:00Z")];
    let other = vec![dated("b", "2021-01-01T00:00:00Z"), dated("a", "2022-01-01T00:00:00Z"), dated("c", "2022-01-01T00:00:00Z")];
    let first = latest_index(&one, &published_times(&one)).unwrap();
    let second = latest_index(&other, &published_times(&other)).unwrap();
    assert_eq!(one[first].id, "a");
    assert_eq!(other[second].id, "a");
}

#[test]
fn latest_skips_entries_without_a_time() {
    assert_eq!(latest_index(&named(&["a", "b", "c"]), &vec![None, Some(-4), None]), Some(1));
    assert_eq!(latest_index(&named(&["a", "b"]), &vec![None, None]), None);
    assert_eq!(latest_index(&vec![], &vec![]), None);
}

#[test]
fn texts_are_ordered_as_in_a_dictionary() {
    let pairs = [
        ("", ""), ("", "a"), ("a", ""), ("a", "a"), ("a", "b"), ("b", "a"), ("ab", "abc"),
        ("abc", "ab"), ("abd", "abc"), ("B", "a"), ("a", "B"), ("z", "é"), ("é", "z"), ("10", "9"),
        ("\u{10FFFF}", "\u{E000}"), ("\u{D7FF}", "\u{E000}"),
    ];
    for (a, b) in pairs {
        assert_eq!(text_less(a, b), a < b, "{:?} before {:?}", a, b);
    }
}

#[test]
fn choices_are_numbered_from_one_and_mark_the_latest() {
    let candidates = vec![
        dated("a", "2022-01-01T00:00:00Z"),
        dated("b", "2023-01-01T00:00:00Z"),
        dated("c", "2021-01-01T00:00:00Z"),
    ];
    let latest = latest_index(&candidates, &published_times(&candidates));
    assert_eq!(latest, Some(1));
    let lines = choices(&candidates, latest);
    assert_eq!(lines.len(), 3);
    for (i, line) in lines.iter().enumerate() {
        assert_eq!(line.number, i + 1);
        assert_eq!(line.name, candidates[i].name);
        assert_eq!(line.version_number, candidates[i].version_number);
        assert_eq!(line.latest, i == 1);
    }
    assert!(choices(&candidates, None).iter().all(|line| !line.latest));
}

#[test]
fn decimal_text_writes_numbers_without_padding() {
    assert_eq!(decimal_text(0), "0");
    assert_eq!(decimal_text(7), "7");
    assert_eq!(decimal_text(10), "10");
    assert_eq!(decimal_text(255), "255");
    assert_eq!(decimal_text(1234567890), "1234567890");
    assert_eq!(decimal_text(usize::MAX), usize::MAX.to_string());
}

#[test]
fn an_answer_names_the_choice_of_that_number() {
    assert_eq!(selected("1", 3), Some(0));
    assert_eq!(selected("3", 3), Some(2));
    assert_eq!(selected("12", 12), Some(11));
}

#[test]
fn an_answer_that_is_no_offered_number_names_nothing() {
    assert_eq!(selected("0", 3), None);
    assert_eq!(selected("4", 3), None);
    assert_eq!(selected("", 3), None);
    assert_eq!(selected("01", 3), None);
    assert_eq!(selected("+1", 3), None);
    assert_eq!(selected(" 1", 3), None);
    assert_eq!(selected("one", 3), None);
    assert_eq!(selected("1", 0), None);
}

#[test]
fn a_single_file_is_selected_whatever_its_flag() {
    let v = with_files(vec![file("only.jar", false)]);
    assert_eq!(v.select_file(), Ok(&v.files[0]));
    let v = with_files(vec![file("only.jar", true)]);
    assert_eq!(v.select_file(), Ok(&v.files[0]));
}

#[test]
fn of_several_files_the_primary_one_is_selected() {
    let v = with_files(vec![file("sources.jar", false), file("mod.jar", true), file("dev.jar", false)]);
    assert_eq!(v.select_file(), Ok(&v.files[1]));
    let v = with_files(vec![file("a.jar", false), file("b.jar", true), file("c.jar", true)]);
    assert_eq!(v.select_file(), Ok(&v.files[1]));
}

#[test]
fn several_files_without_a_primary_one_select_nothing() {
    let v = with_files(vec![file("a.jar", false), file("b.jar", false)]);
    assert_eq!(v.select_file(), Err(ModpmError::NoPrimaryFile));
    let v = with_files(vec![]);
    assert_eq!(v.select_file(), Err(ModpmError::NoPrimaryFile));
}
