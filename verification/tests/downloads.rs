use quicktype_shell::update::{
    describe_file, download_list, file_pattern_str, find_name, get_download_list, index_names,
    list_files, list_searched, pair_up, search_files, sort_newest_first, split_path,
    DownloadError, Field, FileMetadata, FoundFile, Known, Searched,
};

fn file(path: &str, created: u64) -> FoundFile {
    FoundFile { path: path.to_string(), created }
}

fn line(name: &str, ext: &str, created: u64, id: &str) -> FileMetadata {
    FileMetadata { name: name.to_string(), ext: ext.to_string(), created, id: id.to_string() }
}

fn text(s: &str) -> Field {
    Field::Text(s.to_string())
}

fn known(id: Field, name: Field) -> Known {
    Known { id, name }
}

fn parts(id: &str, ext: &str) -> Option<(String, String)> {
    Some((id.to_string(), ext.to_string()))
}

fn searched(parts: Option<Option<(String, String)>>, created: u64) -> Searched {
    Searched { parts, created }
}

#[test]
fn stored_list_is_read_entry_by_entry() {
    let content = r#"[
        {"id": "a1", "name": "first"},
        {"id": "b2", "name": 7},
        {"id": 3, "name": "third"},
        {"name": "no id"},
        {"id": "c3"},
        "text",
        null
    ]"#;
    let (entries, rewrite) = get_download_list(Some(content));
    assert!(!rewrite);
    assert_eq!(
        entries,
        vec![
            known(text("a1"), text("first")),
            known(text("b2"), Field::Other),
            known(Field::Other, text("third")),
            known(Field::Missing, text("no id")),
            known(text("c3"), Field::Missing),
            known(Field::Missing, Field::Missing),
            known(Field::Missing, Field::Missing),
        ]
    );
}

#[test]
fn unreadable_or_broken_stored_list_is_empty() {
    assert_eq!(get_download_list(None), (vec![], true));
    assert_eq!(get_download_list(Some("not json")), (vec![], false));
    assert_eq!(get_download_list(Some("{\"id\": \"a\"}")), (vec![], false));
    assert_eq!(get_download_list(Some("")), (vec![], false));
    assert_eq!(get_download_list(Some("[]")), (vec![], false));
}

#[test]
fn last_entry_with_an_identifier_gives_the_name() {
    let entries = vec![
        known(text("a"), text("old")),
        known(text("b"), text("bee")),
        known(text("a"), text("new")),
        known(Field::Other, text("x")),
    ];
    let index = index_names(&entries);
    assert_eq!(index.len(), 2);
    assert_eq!(find_name(&index, "a"), Some(text("new")));
    assert_eq!(find_name(&index, "b"), Some(text("bee")));
    assert_eq!(find_name(&index, "c"), None);
    assert_eq!(find_name(&index, "x"), None);
    assert_eq!(find_name(&index_names(&vec![]), "a"), None);
    let nameless = index_names(&vec![known(text("a"), Field::Missing)]);
    assert_eq!(find_name(&nameless, "a"), Some(Field::Missing));
    let shadowed = index_names(&vec![known(text("a"), text("n")), known(text("a"), Field::Other)]);
    assert_eq!(find_name(&shadowed, "a"), Some(Field::Other));
}

#[test]
fn a_file_is_described_from_its_parts() {
    let parts = Some(("abc".to_string(), "png".to_string()));
    assert_eq!(
        describe_file(parts.clone(), 5, &index_names(&vec![]), &None, &None),
        Ok(line("abc", "png", 5, "abc"))
    );
    let entries = index_names(&vec![known(text("abc"), text("Holiday"))]);
    assert_eq!(
        describe_file(parts.clone(), 5, &entries, &None, &None),
        Ok(line("Holiday", "png", 5, "abc"))
    );
    let other = index_names(&vec![known(text("abc"), Field::Other)]);
    assert_eq!(
        describe_file(parts.clone(), 5, &other, &None, &None),
        Ok(line("abc", "png", 5, "abc"))
    );
    assert_eq!(
        describe_file(
            parts.clone(),
            5,
            &entries,
            &Some("Renamed".to_string()),
            &Some("abc".to_string())
        ),
        Ok(line("Renamed", "png", 5, "abc"))
    );
    assert_eq!(
        describe_file(
            parts.clone(),
            5,
            &entries,
            &Some("Renamed".to_string()),
            &Some("xyz".to_string())
        ),
        Ok(line("Holiday", "png", 5, "abc"))
    );
    assert_eq!(
        describe_file(parts.clone(), 5, &entries, &Some("Renamed".to_string()), &None),
        Ok(line("Holiday", "png", 5, "abc"))
    );
    assert_eq!(
        describe_file(parts, 5, &entries, &None, &Some("abc".to_string())),
        Ok(line("Holiday", "png", 5, "abc"))
    );
}

#[test]
fn errors_of_describing_a_file() {
    assert_eq!(
        describe_file(None, 1, &index_names(&vec![]), &None, &None),
        Err(DownloadError::NoMatch)
    );
    let parts = Some(("abc".to_string(), "png".to_string()));
    let nameless = index_names(&vec![known(text("abc"), Field::Missing)]);
    assert_eq!(
        describe_file(parts.clone(), 1, &nameless, &None, &None),
        Err(DownloadError::NameMissing)
    );
    assert_eq!(
        describe_file(parts, 1, &nameless, &Some("n".to_string()), &Some("abc".to_string())),
        Err(DownloadError::NameMissing)
    );
}

#[test]
fn sorting_is_newest_first_and_stable() {
    let list = vec![
        line("a", "x", 10, "a"),
        line("b", "x", 30, "b"),
        line("c", "x", 10, "c"),
        line("d", "x", 20, "d"),
        line("e", "x", 30, "e"),
        line("f", "x", 0, "f"),
    ];
    let sorted = sort_newest_first(list);
    let ids: Vec<&str> = sorted.iter().map(|l| l.id.as_str()).collect();
    assert_eq!(ids, vec!["b", "e", "d", "a", "c", "f"]);
    assert_eq!(sort_newest_first(vec![]), vec![]);
    assert_eq!(sort_newest_first(vec![line("a", "x", 1, "a")]), vec![line("a", "x", 1, "a")]);
    let big = vec![line("a", "x", u64::MAX, "a"), line("b", "x", 0, "b"), line("c", "x", u64::MAX, "c")];
    let ids: Vec<String> = sort_newest_first(big).into_iter().map(|l| l.id).collect();
    assert_eq!(ids, vec!["a", "c", "b"]);
}

#[test]
fn download_list_names_and_orders_the_files() {
    let content = r#"[{"id": "abc123", "name": "Report"}, {"id": "zzz", "name": "gone"}]"#;
    let files = vec![
        file("/home/u/.quicktype/downloads/abc123.pdf", 100),
        file("/home/u/.quicktype/downloads/def_456.png", 300),
        file("/home/u/.quicktype/downloads/ghi.tar.gz", 200),
    ];
    let r = download_list(Some(content), &files, None, None);
    assert_eq!(
        r,
        Ok(vec![
            line("def_456", "png", 300, "def_456"),
            line("tar", "gz", 200, "tar"),
            line("Report", "pdf", 100, "abc123"),
        ])
    );
}

#[test]
fn download_list_renames_the_given_file() {
    let files = vec![file("dir/one.txt", 1), file("dir/two.txt", 2)];
    let r = download_list(None, &files, Some("Second".to_string()), Some("two".to_string()));
    assert_eq!(r, Ok(vec![line("Second", "txt", 2, "two"), line("one", "txt", 1, "one")]));
    let r = download_list(Some("[]"), &files, Some("Second".to_string()), None);
    assert_eq!(r, Ok(vec![line("two", "txt", 2, "two"), line("one", "txt", 1, "one")]));
}

#[test]
fn download_list_takes_the_separator_as_any_character() {
    let files = vec![file("photo-jpg", 1), file("dir/ünï.cöde", 2)];
    let r = download_list(None, &files, None, None);
    assert_eq!(r, Ok(vec![line("ünï", "cöde", 2, "ünï"), line("photo", "jpg", 1, "photo")]));
}

#[test]
fn download_list_fails_on_a_path_without_extension() {
    let files = vec![file("dir/one.txt", 1), file("dir/-", 2), file("dir/three.txt", 3)];
    assert_eq!(download_list(None, &files, None, None), Err(DownloadError::NoMatch));
    assert_eq!(download_list(None, &vec![file("a", 1)], None, None), Err(DownloadError::NoMatch));
    assert_eq!(download_list(None, &vec![file("", 1)], None, None), Err(DownloadError::NoMatch));
}

#[test]
fn download_list_fails_on_a_stored_entry_without_name() {
    let content = r#"[{"id": "one"}]"#;
    let files = vec![file("dir/one.txt", 1)];
    assert_eq!(download_list(Some(content), &files, None, None), Err(DownloadError::NameMissing));
    let first_error = vec![file("dir/-", 0), file("dir/one.txt", 1)];
    assert_eq!(download_list(Some(content), &first_error, None, None), Err(DownloadError::NoMatch));
}

#[test]
fn download_list_without_files_is_empty() {
    assert_eq!(download_list(None, &vec![], None, None), Ok(vec![]));
    assert_eq!(download_list(Some("broken"), &vec![], Some("n".to_string()), None), Ok(vec![]));
}

#[test]
fn a_path_is_split_at_its_end() {
    let pattern = file_pattern_str();
    assert_eq!(pattern, r"(?P<id>[\d\w]+).(?P<ext>\w+)$");
    assert_eq!(
        split_path(pattern, "/downloads/abc_1.png"),
        Some(Some(("abc_1".to_string(), "png".to_string())))
    );
    assert_eq!(split_path(pattern, "a.b.c"), Some(Some(("b".to_string(), "c".to_string()))));
    assert_eq!(split_path(pattern, "ab"), Some(None));
    assert_eq!(split_path(pattern, "abc"), Some(Some(("a".to_string(), "c".to_string()))));
    assert_eq!(split_path(pattern, "one.txt "), Some(None));
    assert_eq!(split_path(pattern, ""), Some(None));
}

#[test]
fn other_patterns_split_by_their_groups() {
    let pattern = r"^(?P<ext>[a-z]+):(?P<id>\d+)";
    assert_eq!(split_path(pattern, "png:42 rest"), Some(Some(("42".to_string(), "png".to_string()))));
    assert_eq!(split_path(pattern, "PNG:42"), Some(None));
    assert_eq!(split_path(r"(?P<id>\d+)", "42"), Some(None));
    assert_eq!(split_path(r"(?P<id>a)|(?P<ext>b)", "a"), Some(None));
}

#[test]
fn a_pattern_that_is_not_accepted() {
    assert_eq!(split_path("(?P<id>", "abc.png"), None);
    assert_eq!(split_path(r"\w{1000}(?P<id>\w{1000})(?P<ext>\w{1000})", "abc.png"), None);
    let files = vec![file("dir/one.txt", 1)];
    assert_eq!(list_files("(", &files, &vec![], &None, &None), Err(DownloadError::Pattern));
    assert_eq!(list_files("(", &vec![], &vec![], &None, &None), Ok(vec![]));
}

#[test]
fn list_files_with_given_entries() {
    let entries = vec![known(text("one"), text("First")), known(text("one"), text("Uno"))];
    let files = vec![file("dir/one.txt", 7), file("dir/two.txt", 7)];
    assert_eq!(
        list_files(file_pattern_str(), &files, &entries, &None, &None),
        Ok(vec![line("Uno", "txt", 7, "one"), line("two", "txt", 7, "two")])
    );
}

#[test]
fn parts_are_paired_only_when_both_are_there() {
    assert_eq!(pair_up(Some("a".to_string()), Some("b".to_string())), parts("a", "b"));
    assert_eq!(pair_up(Some("a".to_string()), None), None);
    assert_eq!(pair_up(None, Some("b".to_string())), None);
    assert_eq!(pair_up(None, None), None);
}

#[test]
fn every_file_is_searched() {
    let files = vec![file("dir/one.txt", 3), file("dir/-", 4), file("two.png", 5)];
    assert_eq!(
        search_files(file_pattern_str(), &files),
        vec![
            searched(Some(parts("one", "txt")), 3),
            searched(Some(None), 4),
            searched(Some(parts("two", "png")), 5),
        ]
    );
    assert_eq!(
        search_files("(", &files),
        vec![searched(None, 3), searched(None, 4), searched(None, 5)]
    );
    assert_eq!(search_files("(", &vec![]), vec![]);
}

#[test]
fn the_list_is_made_from_what_the_searches_came_to() {
    let index = index_names(&vec![known(text("one"), text("First")), known(text("bad"), Field::Missing)]);
    let found = vec![
        searched(Some(parts("one", "txt")), 3),
        searched(Some(parts("two", "png")), 9),
        searched(Some(parts("six", "gif")), 3),
    ];
    assert_eq!(
        list_searched(&found, &index, &Some("Second".to_string()), &Some("two".to_string())),
        Ok(vec![
            line("Second", "png", 9, "two"),
            line("First", "txt", 3, "one"),
            line("six", "gif", 3, "six"),
        ])
    );
    assert_eq!(list_searched(&vec![], &index, &None, &None), Ok(vec![]));
}

#[test]
fn the_first_error_among_the_searches_is_the_error_of_the_list() {
    let index = index_names(&vec![known(text("bad"), Field::Missing)]);
    let refused = searched(None, 1);
    let unmatched = searched(Some(None), 2);
    let nameless = searched(Some(parts("bad", "txt")), 3);
    let fine = searched(Some(parts("one", "txt")), 4);
    let list = |found: Vec<Searched>| list_searched(&found, &index, &None, &None);
    assert_eq!(list(vec![refused.clone()]), Err(DownloadError::Pattern));
    assert_eq!(list(vec![fine.clone(), refused.clone()]), Err(DownloadError::Pattern));
    assert_eq!(list(vec![refused.clone(), unmatched.clone()]), Err(DownloadError::Pattern));
    assert_eq!(list(vec![unmatched.clone(), refused.clone()]), Err(DownloadError::NoMatch));
    assert_eq!(list(vec![fine.clone(), nameless.clone(), refused]), Err(DownloadError::NameMissing));
    assert_eq!(list(vec![nameless, unmatched]), Err(DownloadError::NameMissing));
    assert_eq!(list(vec![fine]), Ok(vec![line("one", "txt", 4, "one")]));
}
