use rfs::error::api::ApiErrorKind;
use rfs::fs::backend::Node;
use rfs::fs::item::IdSet;
use rfs::routing::api::fs::upload::{new_file_record, replaced_record};
use rfs::routing::api::fs::{attachment_header, checksum_header};
use rfs::routing::api::fs::upload::{
    bytes_eq, check_target, create_paths, get_basename, get_mime, get_validation_hash,
    replace_paths, undo_steps, upload_plan, FileOp, UploadDigest, UploadKind, UploadQuery,
};

fn hex(bytes: &[u8]) -> String {
    bytes.iter().map(|b| format!("{b:02x}")).collect()
}

#[test]
fn validation_hash_absent_header() {
    assert_eq!(get_validation_hash(None), Ok(None));
}

#[test]
fn validation_hash_blake3_digest() {
    let digest = blake3::hash(b"hello world");
    let header = format!("blake3:{}", digest.to_hex());
    assert_eq!(get_validation_hash(Some(&header)), Ok(Some(*digest.as_bytes())));
}

#[test]
fn validation_hash_upper_case_digits() {
    let digest = blake3::hash(b"abc");
    let header = format!("blake3:{}", digest.to_hex().to_uppercase());
    assert_eq!(get_validation_hash(Some(&header)), Ok(Some(*digest.as_bytes())));
}

#[test]
fn validation_hash_splits_at_last_colon() {
    let digest = blake3::hash(b"abc");
    let header = format!("x:blake3:{}", digest.to_hex());
    assert_eq!(get_validation_hash(Some(&header)), Err(ApiErrorKind::InvalidHeaderValue));
}

#[test]
fn validation_hash_rejections() {
    let digest = blake3::hash(b"abc").to_hex().to_string();
    for bad in [
        digest.clone(),
        format!("sha256:{digest}"),
        format!("BLAKE3:{digest}"),
        format!("blake3:{}", &digest[..63]),
        format!("blake3:{digest}0"),
        format!("blake3:{}g", &digest[..63]),
        "blake3:".to_owned(),
    ] {
        assert_eq!(
            get_validation_hash(Some(&bad)),
            Err(ApiErrorKind::InvalidHeaderValue),
            "{bad:?}"
        );
    }
}

#[test]
fn digest_matches_blake3() {
    let mut d = UploadDigest::new();
    assert_eq!(d.absorb(b"hello ", 6), Ok(()));
    assert_eq!(d.absorb(b"world", 5), Ok(()));
    let expected = blake3::hash(b"hello world");
    let (size, hash) = d.finish(None).unwrap();
    assert_eq!(size, 11);
    assert_eq!(hex(&hash), expected.to_hex().to_string());
}

#[test]
fn digest_of_nothing() {
    let d = UploadDigest::new();
    let (size, hash) = d.finish(None).unwrap();
    assert_eq!(size, 0);
    assert_eq!(&hash, blake3::hash(b"").as_bytes());
    assert_ne!(hash, [0u8; 32]);
}

#[test]
fn digest_checked_against_expected() {
    let mut d = UploadDigest::new();
    d.absorb(b"payload", 7).unwrap();
    let good = *blake3::hash(b"payload").as_bytes();
    let bad = *blake3::hash(b"other").as_bytes();
    assert_eq!(d.finish(Some(good)), Ok((7, good)));
    assert_eq!(d.finish(Some(bad)), Err(ApiErrorKind::InvalidHash));
}

#[test]
fn digest_counts_reported_writes() {
    let mut d = UploadDigest::new();
    d.absorb(b"abcdef", 4).unwrap();
    let (size, hash) = d.finish(None).unwrap();
    assert_eq!(size, 4);
    assert_eq!(&hash, blake3::hash(b"abcdef").as_bytes());
}

#[test]
fn digest_refuses_overflowing_count() {
    let mut d = UploadDigest::new();
    d.absorb(b"a", usize::MAX).unwrap();
    assert_eq!(d.absorb(b"b", 1), Err(ApiErrorKind::MaxSize));
    let (size, hash) = d.finish(None).unwrap();
    assert_eq!(size, usize::MAX as u64);
    assert_eq!(&hash, blake3::hash(b"ab").as_bytes());
}

#[test]
fn bytes_compare() {
    let a = [7u8; 32];
    let mut b = a;
    assert!(bytes_eq(&a, &b));
    b[31] = 8;
    assert!(!bytes_eq(&a, &b));
}

#[test]
fn mime_header() {
    assert_eq!(get_mime(None), Err(ApiErrorKind::NoContentType));
    assert_eq!(
        get_mime(Some("text/plain; charset=utf-8")),
        Ok(("text".to_owned(), "plain".to_owned()))
    );
    assert_eq!(
        get_mime(Some("image/svg+xml")),
        Ok(("image".to_owned(), "svg".to_owned()))
    );
    assert_eq!(get_mime(Some("not a mime")), Err(ApiErrorKind::InvalidMimeType));
    assert_eq!(get_mime(Some("text/pl\u{e4}in")), Err(ApiErrorKind::InvalidHeaderValue));
}

#[test]
fn basename_sources() {
    let q = UploadQuery { basename: Some("from-query.txt".to_owned()) };
    assert_eq!(get_basename(&q, Some("from-header.txt"), true), Ok("from-query.txt".to_owned()));
    assert_eq!(get_basename(&q, Some("h\u{e9}"), true), Ok("from-query.txt".to_owned()));
    assert_eq!(get_basename(&q, None, false), Err(ApiErrorKind::ValidationFailed));
    let q = UploadQuery { basename: None };
    assert_eq!(get_basename(&q, Some("from-header.txt"), true), Ok("from-header.txt".to_owned()));
    assert_eq!(get_basename(&q, Some("from-header.txt"), false), Err(ApiErrorKind::ValidationFailed));
    assert_eq!(get_basename(&q, Some("caf\u{e9}.txt"), true), Err(ApiErrorKind::InvalidHeaderValue));
    assert_eq!(get_basename(&q, None, true), Err(ApiErrorKind::MissingData));
    assert_eq!(get_basename(&q, None, false), Err(ApiErrorKind::MissingData));
}

#[test]
fn target_checks() {
    assert_eq!(check_target(UploadKind::Create, false), Ok(()));
    assert_eq!(check_target(UploadKind::Create, true), Err(ApiErrorKind::AlreadyExists));
    assert_eq!(check_target(UploadKind::Replace, true), Ok(()));
    assert_eq!(check_target(UploadKind::Replace, false), Err(ApiErrorKind::FileNotFound));
}

#[test]
fn plans() {
    assert_eq!(
        upload_plan(UploadKind::Create),
        vec![
            FileOp::CreateTmp,
            FileOp::WriteTmp,
            FileOp::Record,
            FileOp::MoveTmpToFull,
            FileOp::Commit
        ]
    );
    assert_eq!(
        upload_plan(UploadKind::Replace),
        vec![
            FileOp::CreateTmp,
            FileOp::WriteTmp,
            FileOp::Record,
            FileOp::MoveFullToPrev,
            FileOp::MoveTmpToFull,
            FileOp::Commit,
            FileOp::RemovePrev
        ]
    );
}

#[test]
fn undo_after_failures() {
    assert_eq!(undo_steps(UploadKind::Create, 0), vec![]);
    assert_eq!(undo_steps(UploadKind::Create, 1), vec![FileOp::RemoveTmp]);
    assert_eq!(undo_steps(UploadKind::Create, 3), vec![FileOp::RemoveTmp]);
    assert_eq!(undo_steps(UploadKind::Create, 4), vec![FileOp::RemoveFull]);
    assert_eq!(undo_steps(UploadKind::Replace, 2), vec![FileOp::RemoveTmp]);
    assert_eq!(undo_steps(UploadKind::Replace, 3), vec![FileOp::RemoveTmp]);
    assert_eq!(
        undo_steps(UploadKind::Replace, 4),
        vec![FileOp::MovePrevToFull, FileOp::RemoveTmp]
    );
    assert_eq!(undo_steps(UploadKind::Replace, 5), vec![FileOp::MovePrevToFull]);
    assert_eq!(undo_steps(UploadKind::Replace, 6), vec![]);
}

#[derive(Clone, Copy, PartialEq, Debug)]
enum C {
    Partial,
    Old,
    New,
}

#[derive(Clone, Copy, PartialEq, Debug)]
struct L {
    tmp: Option<C>,
    full: Option<C>,
    prev: Option<C>,
    committed: bool,
}

fn apply(op: FileOp, l: L) -> L {
    match op {
        FileOp::CreateTmp => L { tmp: Some(C::Partial), ..l },
        FileOp::WriteTmp => L { tmp: Some(C::New), ..l },
        FileOp::Record => l,
        FileOp::MoveFullToPrev => L { prev: l.full, full: None, ..l },
        FileOp::MoveTmpToFull => L { full: l.tmp, tmp: None, ..l },
        FileOp::Commit => L { committed: true, ..l },
        FileOp::RemovePrev => L { prev: None, ..l },
        FileOp::RemoveTmp => L { tmp: None, ..l },
        FileOp::RemoveFull => L { full: None, ..l },
        FileOp::MovePrevToFull => L { full: l.prev, prev: None, ..l },
    }
}

#[test]
fn every_failure_is_undone() {
    for kind in [UploadKind::Create, UploadKind::Replace] {
        let start = L {
            tmp: None,
            full: if kind == UploadKind::Create { None } else { Some(C::Old) },
            prev: None,
            committed: false,
        };
        let plan = upload_plan(kind);
        let done = plan.iter().fold(start, |l, op| apply(*op, l));
        assert_eq!(done, L { tmp: None, full: Some(C::New), prev: None, committed: true });
        for failed in 0..plan.len() {
            let at = plan[..failed].iter().fold(start, |l, op| apply(*op, l));
            let end = undo_steps(kind, failed).iter().fold(at, |l, op| apply(*op, l));
            if kind == UploadKind::Replace && failed == 6 {
                assert_eq!(end.full, Some(C::New));
                assert!(end.committed);
            } else {
                assert_eq!(end, start, "{kind:?} failing at {failed}");
            }
        }
    }
}

#[test]
fn paths_of_new_file() {
    let p = create_paths("/srv/store", "docs", "report.pdf", "abc123");
    assert_eq!(p.full, "/srv/store/docs/report.pdf");
    assert_eq!(p.tmp, "/srv/store/docs/abc123.tmp.rfs");
    assert_eq!(p.prev, None);
}

#[test]
fn paths_of_replaced_file() {
    let p = replace_paths("/srv/store", "docs/report.pdf", "abc123").unwrap();
    assert_eq!(p.full, "/srv/store/docs/report.pdf");
    assert_eq!(p.tmp, "/srv/store/docs/abc123.tmp.rfs");
    assert_eq!(p.prev, Some("/srv/store/docs/abc123.prev.rfs".to_owned()));
    assert!(replace_paths("", "/", "abc").is_none());
}

#[test]
fn download_checksum_is_read_back_by_upload() {
    let digest = blake3::hash(b"some file contents");
    let header = checksum_header(digest.as_bytes());
    assert_eq!(header, format!("blake3:{}", digest.to_hex()));
    assert_eq!(get_validation_hash(Some(&header)), Ok(Some(*digest.as_bytes())));
}

#[test]
fn download_attachment_header() {
    assert_eq!(attachment_header("report.pdf"), "attachment; filename=\"report.pdf\"");
}

#[test]
fn new_and_replaced_file_records() {
    use_record_checks();
}

fn use_record_checks() {
    let id = |n: i64| IdSet { local: n, uid: format!("u{n}") };
    let f = new_file_record(
        id(9),
        id(1),
        id(2),
        id(4),
        "root/docs".to_owned(),
        "a.txt".to_owned(),
        "docs",
        ("text".to_owned(), "plain".to_owned()),
        5,
        [1u8; 32],
        77,
    );
    match &f.backend {
        Node::Local(l) => assert_eq!(l.path, "docs/a.txt"),
    }
    assert_eq!(f.id.local, 9);
    assert_eq!(f.path, "root/docs");
    assert!(f.tags.is_empty() && f.comment.is_none() && f.updated.is_none());
    let g = replaced_record(f, ("image".to_owned(), "png".to_owned()), 8, [2u8; 32], 99);
    assert_eq!(g.size, 8);
    assert_eq!(g.hash, [2u8; 32]);
    assert_eq!(g.mime.1, "png");
    assert_eq!(g.updated, Some(99));
    assert_eq!(g.created, 77);
    assert_eq!(g.basename, "a.txt");
}
