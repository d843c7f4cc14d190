use apk_decompiler::archive::ArchiveEntry;
use apk_decompiler::extract::plan_entry;
use apk_decompiler::extract::plan_extraction;
use apk_decompiler::extract::ExtractStep;
use apk_decompiler::extract::Materialize;

fn entry(name: &str, sanitized: &str, comment: &str, data: &[u8]) -> ArchiveEntry {
    ArchiveEntry {
        name: name.to_owned(),
        sanitized: sanitized.to_owned(),
        comment: comment.to_owned(),
        size: data.len() as u64,
        data: data.to_vec(),
    }
}

#[test]
fn a_file_member_is_written_below_the_extraction_root() {
    let step = plan_entry("/work/output", 3, entry("res/a.xml", "res/a.xml", "", b"<a/>"));
    assert_eq!(
        step,
        ExtractStep {
            index: 3,
            destination: "/work/output/extracted/res/a.xml".to_owned(),
            comment: None,
            size: 4,
            action: Materialize::File {
                parent: Some("/work/output/extracted/res".to_owned()),
                data: b"<a/>".to_vec(),
            },
        }
    );
}

#[test]
fn a_directory_member_writes_no_file() {
    let step = plan_entry("/work/output", 0, entry("res/", "res", "", b""));
    assert_eq!(step.destination, "/work/output/extracted/res");
    assert_eq!(step.action, Materialize::Directory);
    assert_eq!(step.size, 0);
}

#[test]
fn a_member_at_the_top_has_the_extraction_root_as_parent() {
    let step = plan_entry("/work/output", 0, entry("classes.dex", "classes.dex", "", b"dex"));
    assert_eq!(
        step.action,
        Materialize::File {
            parent: Some("/work/output/extracted".to_owned()),
            data: b"dex".to_vec()
        }
    );
}

#[test]
fn a_comment_is_reported_only_where_it_is_not_empty() {
    let with = plan_entry("out", 0, entry("a", "a", "signed", b"1"));
    assert_eq!(with.comment, Some("signed".to_owned()));
    let without = plan_entry("out", 0, entry("a", "a", "", b"1"));
    assert_eq!(without.comment, None);
}

#[test]
fn the_declared_size_is_carried_as_it_is() {
    let mut odd = entry("a", "a", "", b"12345");
    odd.size = 7;
    let step = plan_entry("out", 0, odd);
    assert_eq!(step.size, 7);
    assert_eq!(step.action, Materialize::File { parent: Some("out/extracted".to_owned()), data: b"12345".to_vec() });
}

#[test]
fn a_traversing_name_stays_inside_the_extraction_root() {
    let step = plan_entry(
        "/work/output",
        0,
        entry("../../../etc/passwd", "etc/passwd", "", b"root"),
    );
    assert_eq!(step.destination, "/work/output/extracted/etc/passwd");
    assert!(step.destination.starts_with("/work/output/extracted/"));
    assert!(!step.destination.split('/').any(|part| part == ".."));
}

#[test]
fn a_member_without_a_name_goes_to_the_extraction_root_itself() {
    let step = plan_entry("/work/output", 0, entry("..", "", "", b"x"));
    assert_eq!(step.destination, "/work/output/extracted/");
    assert_eq!(
        step.action,
        Materialize::File { parent: Some("/work/output".to_owned()), data: b"x".to_vec() }
    );
}

#[test]
fn every_member_has_its_step_in_order() {
    let entries = vec![
        entry("a/", "a", "", b""),
        entry("a/one.txt", "a/one.txt", "first", b"1"),
        entry("two.bin", "two.bin", "", b"22"),
        entry("b/c/", "b/c", "", b""),
        entry("b/c/three", "b/c/three", "", b"333"),
    ];
    let steps = plan_extraction("/o", entries.clone());
    assert_eq!(steps.len(), 5);
    for (i, step) in steps.iter().enumerate() {
        assert_eq!(step.index, i);
        assert_eq!(step.size, entries[i].size);
        match &step.action {
            Materialize::Directory => assert!(entries[i].name.ends_with('/')),
            Materialize::File { data, .. } => {
                assert!(!entries[i].name.ends_with('/'));
                assert_eq!(data, &entries[i].data);
                assert_eq!(data.len() as u64, entries[i].size);
            }
        }
    }
    let destinations: Vec<&str> = steps.iter().map(|s| s.destination.as_str()).collect();
    assert_eq!(
        destinations,
        vec![
            "/o/extracted/a",
            "/o/extracted/a/one.txt",
            "/o/extracted/two.bin",
            "/o/extracted/b/c",
            "/o/extracted/b/c/three"
        ]
    );
}

#[test]
fn no_members_no_steps() {
    assert_eq!(plan_extraction("/o", Vec::new()), Vec::<ExtractStep>::new());
}
