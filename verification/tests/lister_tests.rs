use branch_sweep::branches::{build_branch_list, BranchRecord};
use branch_sweep::errors::Error;

fn id_of(fill: u8) -> String {
    let mut s = String::new();
    for _ in 0..40 {
        s.push(fill as char);
    }
    s
}

fn rec(name: &str, fill: u8, seconds: i64, offset_minutes: i32, is_head: bool) -> BranchRecord {
    BranchRecord {
        name_bytes: name.as_bytes().to_vec(),
        id: id_of(fill),
        seconds,
        offset_minutes,
        is_head,
    }
}

#[test]
fn master_never_listed() {
    let records = vec![
        rec("master", b'a', 50, 0, false),
        rec("feature-a", b'b', 100, 0, false),
        rec("feature-b", b'c', 10, 0, false),
    ];
    let out = build_branch_list(records).unwrap();
    assert_eq!(out.len(), 2);
    for d in &out {
        assert_ne!(d.name, "master");
    }
}

#[test]
fn master_filtered_at_any_position() {
    for pos in 0..3 {
        let mut records = vec![
            rec("one", b'a', 1, 0, false),
            rec("two", b'b', 2, 0, false),
        ];
        records.insert(pos, rec("master", b'c', 0, 0, true));
        let out = build_branch_list(records).unwrap();
        assert_eq!(out.len(), 2);
        assert!(out.iter().all(|d| d.name != "master"));
    }
}

#[test]
fn sorted_ascending_by_local_time() {
    let records = vec![
        rec("newest", b'a', 3000, 0, false),
        rec("oldest", b'b', 1000, 0, false),
        rec("middle", b'c', 2000, 0, false),
    ];
    let out = build_branch_list(records).unwrap();
    let names: Vec<&str> = out.iter().map(|d| d.name.as_str()).collect();
    assert_eq!(names, vec!["oldest", "middle", "newest"]);
    for w in out.windows(2) {
        assert!(w[0].local_secs <= w[1].local_secs);
    }
}

#[test]
fn offset_decides_order() {
    // Same UTC timestamp, but the recorded offsets put "east" one hour later
    // on its local wall clock.
    let records = vec![
        rec("east", b'a', 5000, 60, false),
        rec("west", b'b', 5000, -60, false),
    ];
    let out = build_branch_list(records).unwrap();
    assert_eq!(out[0].name, "west");
    assert_eq!(out[0].local_secs, 5000 - 3600);
    assert_eq!(out[1].name, "east");
    assert_eq!(out[1].local_secs, 5000 + 3600);
}

#[test]
fn time_display_is_local_wall_clock() {
    // 2021-01-01 00:00:00 UTC, recorded at offset +90 minutes.
    let records = vec![rec("tip", b'a', 1609459200, 90, false)];
    let out = build_branch_list(records).unwrap();
    assert_eq!(out[0].time_display, "2021-01-01 01:30:00");
}

#[test]
fn epoch_time_display() {
    let records = vec![rec("tip", b'a', 0, 0, false)];
    let out = build_branch_list(records).unwrap();
    assert_eq!(out[0].time_display, "1970-01-01 00:00:00");
}

#[test]
fn invalid_utf8_name_is_an_encoding_error() {
    let records = vec![BranchRecord {
        name_bytes: vec![0xff, 0xfe, 0x41],
        id: id_of(b'a'),
        seconds: 0,
        offset_minutes: 0,
        is_head: false,
    }];
    let err = build_branch_list(records).unwrap_err();
    assert!(matches!(err, Error::Encoding));
}

#[test]
fn out_of_range_time_is_rejected() {
    let records = vec![rec("tip", b'a', i64::MAX, 0, false)];
    let err = build_branch_list(records).unwrap_err();
    match err {
        Error::Repository(m) => assert_eq!(m, "commit time out of range"),
        other => panic!("unexpected error: {}", other.message()),
    }
}

#[test]
fn empty_records_give_empty_list() {
    let out = build_branch_list(Vec::new()).unwrap();
    assert!(out.is_empty());
}

#[test]
fn names_are_decoded_and_ids_kept() {
    let records = vec![rec("feature-a", b'7', 42, 0, true)];
    let out = build_branch_list(records).unwrap();
    assert_eq!(out[0].name, "feature-a");
    assert_eq!(out[0].id, "7".repeat(40));
    assert!(out[0].is_head);
}
