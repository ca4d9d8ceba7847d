use sha1sum::digest::digest_bytes;
use sha1sum::verify::{
    bytes_eq, classify_record, format_digest_line, parse_record, tokenize, ChecksumRecord,
    FileScan, VerificationResult,
};

#[test]
fn tokenize_splits_on_whitespace() {
    let toks = tokenize(b"  abc \t def\n");
    assert_eq!(toks, vec![b"abc".to_vec(), b"def".to_vec()]);
}

#[test]
fn tokenize_empty_and_blank_lines() {
    assert_eq!(tokenize(b""), Vec::<Vec<u8>>::new());
    assert_eq!(tokenize(b" \t\r\n"), Vec::<Vec<u8>>::new());
}

#[test]
fn parse_record_takes_first_two_tokens() {
    let r = parse_record(b"deadbeef  path/to/file extra tokens\n").unwrap();
    assert_eq!(r.expected, b"deadbeef".to_vec());
    assert_eq!(r.path, b"path/to/file".to_vec());
}

#[test]
fn parse_record_rejects_short_lines() {
    assert!(parse_record(b"\n").is_none());
    assert!(parse_record(b"onlyonetoken\n").is_none());
    assert!(parse_record(b"  \t \n").is_none());
}

#[test]
fn bytes_eq_is_exact() {
    assert!(bytes_eq(b"abc", b"abc"));
    assert!(!bytes_eq(b"abc", b"abd"));
    assert!(!bytes_eq(b"abc", b"ab"));
    assert!(bytes_eq(b"", b""));
}

#[test]
fn uppercase_digest_never_matches() {
    let d = digest_bytes(b"abc");
    let upper: Vec<u8> = d
        .iter()
        .map(|c| if *c >= b'a' { *c - 32 } else { *c })
        .collect();
    let rec = ChecksumRecord {
        expected: upper,
        path: b"f".to_vec(),
    };
    let res = classify_record(rec, &d);
    assert!(matches!(res, VerificationResult::RecordFailed { .. }));
}

#[test]
fn verification_round_trip() {
    let content = b"some file content\n";
    let d = digest_bytes(content);

    // a record line "D  F" classifies as OK
    let mut scan = FileScan::new();
    assert!(!scan.has_pending());
    let mut line = d.clone();
    line.extend_from_slice(b"  target.txt\n");
    let need = scan.offer_line(&line);
    assert_eq!(need, Some(b"target.txt".to_vec()));
    assert!(scan.has_pending());
    scan.supply_digest(&digest_bytes(content));
    assert!(!scan.has_pending());

    // changing one hex character of D classifies as FAILED
    let mut bad = d.clone();
    bad[0] = if bad[0] == b'0' { b'1' } else { b'0' };
    let mut line2 = bad;
    line2.extend_from_slice(b"  target.txt\n");
    let need2 = scan.offer_line(&line2);
    assert_eq!(need2, Some(b"target.txt".to_vec()));
    scan.supply_digest(&digest_bytes(content));

    // a one-token line is a parse error, excluded from the OK/FAILED lines
    let need3 = scan.offer_line(b"justonetoken\n");
    assert!(need3.is_none());

    let lines = scan.render_lines();
    assert_eq!(
        lines,
        vec![b"target.txt: OK".to_vec(), b"target.txt: FAILED".to_vec()]
    );
    assert!(scan.has_failure());
}

#[test]
fn quiet_short_circuit_decision() {
    let da = digest_bytes(b"contents of a");
    let mut scan = FileScan::new();

    let mut l1 = da.clone();
    l1.extend_from_slice(b"  fileA\n");
    let need = scan.offer_line(&l1);
    assert!(need.is_some());
    scan.supply_digest(&da); // OK

    let mut l2 = da.clone();
    l2.extend_from_slice(b"  fileB\n");
    let need2 = scan.offer_line(&l2);
    assert!(need2.is_some());
    scan.supply_digest(&digest_bytes(b"contents of b")); // FAILED

    // quiet mode stops the run with a failure status before printing
    assert!(scan.quiet_short_circuit(true));
    // non-quiet mode prints both lines, in record order
    assert!(!scan.quiet_short_circuit(false));
    let lines = scan.render_lines();
    assert_eq!(
        lines,
        vec![b"fileA: OK".to_vec(), b"fileB: FAILED".to_vec()]
    );
}

#[test]
fn quiet_without_failures_does_not_stop() {
    let da = digest_bytes(b"x");
    let mut scan = FileScan::new();
    let mut l = da.clone();
    l.extend_from_slice(b"  f\n");
    scan.offer_line(&l);
    scan.supply_digest(&da);
    assert!(!scan.quiet_short_circuit(true));
    assert!(!scan.has_failure());
    assert_eq!(scan.render_lines(), vec![b"f: OK".to_vec()]);
}

#[test]
fn format_digest_line_two_spaces() {
    let line = format_digest_line(b"00ff", b"some/file");
    assert_eq!(line, b"00ff  some/file".to_vec());
}
