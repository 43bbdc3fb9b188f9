use archive_sum::print::hash_member;
use archive_sum::verify::Verifier;
use archive_sum::{
    digest_line, error_line, failed_summary, io_block_size, join_path, missing_summary, outcome_line,
    resolve_source, route, to_decimal, to_hex, Algorithm, Destination, DigestState, Entry, Error,
    ErrorKind, FileType, Outcome, SourceTree, DEFAULT_BLOCK_SIZE,
};

fn hex_digest(alg: Algorithm, data: &[u8]) -> String {
    let mut acc = DigestState::new(alg);
    acc.update(data);
    acc.finalize_to_hex()
}

#[test]
fn hex_encoding() {
    assert_eq!(to_hex(&[]), "");
    assert_eq!(to_hex(&[0x00, 0x0f, 0xa0, 0xff, 0x5c]), "000fa0ff5c");
}

#[test]
fn decimal_formatting() {
    assert_eq!(to_decimal(0), "0");
    assert_eq!(to_decimal(7), "7");
    assert_eq!(to_decimal(10), "10");
    assert_eq!(to_decimal(1234), "1234");
    assert_eq!(to_decimal(u64::MAX), "18446744073709551615");
}

#[test]
fn digests_of_empty_input() {
    assert_eq!(hex_digest(Algorithm::Md5, b""), "d41d8cd98f00b204e9800998ecf8427e");
    assert_eq!(hex_digest(Algorithm::Sha1, b""), "da39a3ee5e6b4b0d3255bfef95601890afd80709");
    assert_eq!(
        hex_digest(Algorithm::Sha224, b""),
        "d14a028c2a3a2bc9476102bb288234c415a2b01f828ea62ac5b3e42f"
    );
    assert_eq!(
        hex_digest(Algorithm::Sha256, b""),
        "e3b0c44298fc1c149afbf4c8996fb92427ae41e4649b934ca495991b7852b855"
    );
    assert_eq!(
        hex_digest(Algorithm::Sha384, b""),
        "38b060a751ac96384cd9327eb1b1e36a21fdb71114be07434c0cc7bf63f6e1da274edebfe76f65fbd51ad2f14898b95b"
    );
    assert_eq!(
        hex_digest(Algorithm::Sha512, b""),
        "cf83e1357eefb8bdf1542850d66d8007d620e4050b5715dc83f4a921d36ce9ce47d0d13c5d85f2b0ff8318d2877eec2f63b931bd47417a81a538327af927da3e"
    );
}

#[test]
fn digests_of_content() {
    assert_eq!(hex_digest(Algorithm::Md5, b"foo\n"), "d3b07384d113edec49eaa6238ad5ff00");
    assert_eq!(
        hex_digest(Algorithm::Sha256, b"abc"),
        "ba7816bf8f01cfea414140de5dae2223b00361a396177a9cb410ff61f20015ad"
    );
    assert_eq!(hex_digest(Algorithm::Sha1, b"abc"), "a9993e364706816aba3e25717850c26c9cd0d89d");
}

#[test]
fn digest_lengths() {
    for (alg, len) in [
        (Algorithm::Md5, 16),
        (Algorithm::Sha1, 20),
        (Algorithm::Sha224, 28),
        (Algorithm::Sha256, 32),
        (Algorithm::Sha384, 48),
        (Algorithm::Sha512, 64),
    ] {
        let acc = DigestState::new(alg);
        assert_eq!(acc.finalize().len(), len);
        assert_eq!(acc.finalize_to_hex().len(), 2 * len);
    }
}

#[test]
fn updates_concatenate() {
    let mut acc = DigestState::new(Algorithm::Md5);
    acc.update(b"fo");
    acc.update(b"o\n");
    assert_eq!(acc.finalize_to_hex(), "d3b07384d113edec49eaa6238ad5ff00");
}

#[test]
fn reset_restores_fresh_state() {
    let mut acc = DigestState::new(Algorithm::Sha1);
    acc.update(b"something else");
    acc.reset();
    acc.update(b"abc");
    assert_eq!(acc.finalize_to_hex(), hex_digest(Algorithm::Sha1, b"abc"));
    assert_eq!(acc.algorithm(), Algorithm::Sha1);
}

#[test]
fn hashing_twice_with_reset_is_identical() {
    let entry = Entry::new("src/foo".to_string(), FileType::RegularFile, b"foo\n".to_vec());
    let mut acc = DigestState::new(Algorithm::Md5);
    let first = hash_member(&mut acc, &entry);
    let second = hash_member(&mut acc, &entry);
    assert_eq!(first, second);
    assert_eq!(first, "d3b07384d113edec49eaa6238ad5ff00");
}

#[test]
fn hash_member_streams_multiple_blocks() {
    let data: Vec<u8> = (0..150_000u32).map(|i| (i % 251) as u8).collect();
    let entry = Entry::new("big".to_string(), FileType::RegularFile, data.clone());
    let mut acc = DigestState::new(Algorithm::Sha256);
    let streamed = hash_member(&mut acc, &entry);
    assert_eq!(streamed, hex_digest(Algorithm::Sha256, &data));
}

#[test]
fn blocks_cover_content_in_order() {
    let data: Vec<u8> = (0..150_000u32).map(|i| (i % 7) as u8).collect();
    let entry = Entry::new("big".to_string(), FileType::RegularFile, data.clone());
    let mut blocks = entry.blocks();
    let mut sizes = Vec::new();
    let mut joined = Vec::new();
    while let Some(b) = blocks.next_block() {
        sizes.push(b.len());
        joined.extend_from_slice(b);
    }
    assert_eq!(sizes, vec![DEFAULT_BLOCK_SIZE, DEFAULT_BLOCK_SIZE, 150_000 - 2 * DEFAULT_BLOCK_SIZE]);
    assert_eq!(joined, data);

    let empty = Entry::new("e".to_string(), FileType::RegularFile, Vec::new());
    assert!(empty.blocks().next_block().is_none());
}

#[test]
fn entry_accessors() {
    let e = Entry::new("dir/".to_string(), FileType::Directory, Vec::new());
    assert_eq!(e.path(), "dir/");
    assert_eq!(e.file_type(), FileType::Directory);
    assert!(!e.is_file());
    let f = Entry::new("f".to_string(), FileType::RegularFile, vec![1, 2]);
    assert!(f.is_file());
    assert_eq!(f.data(), &[1, 2]);
}

#[test]
fn line_formats() {
    assert_eq!(digest_line("abc", "src/foo"), "abc  src/foo\n");
    assert_eq!(outcome_line("src/foo", Outcome::Passed), "src/foo: OK\n");
    assert_eq!(outcome_line("src/foo", Outcome::Failed), "src/foo: FAILED\n");
    assert_eq!(outcome_line("src/foo", Outcome::Missing), "src/foo: MISSING\n");
    assert_eq!(missing_summary(3), "archive-sum: WARNING: 3 MISSING file(s)\n");
    assert_eq!(failed_summary(12), "archive-sum: FATAL: 12 FAILED checksum(s)\n");
    assert_eq!(error_line("boom"), "archive-sum: error: boom\n");
}

#[test]
fn path_joining() {
    assert_eq!(join_path("/tmp/x", "src/foo"), "/tmp/x/src/foo");
    assert_eq!(join_path("/tmp/x/", "src/foo"), "/tmp/x/src/foo");
    assert_eq!(join_path("", "src/foo"), "src/foo");
    assert_eq!(join_path("/tmp/x", "/etc/passwd"), "/etc/passwd");
    assert_eq!(resolve_source(None, "src/foo"), "src/foo");
    assert_eq!(resolve_source(Some("base"), "src/foo"), "base/src/foo");
}

#[test]
fn routing_matrix() {
    let none = route(false, None, None);
    assert_eq!((none.primary, none.diagnostic), (Destination::Stdout, Destination::Stderr));
    let status = route(false, None, Some(2));
    assert_eq!((status.primary, status.diagnostic), (Destination::Discard, Destination::Discard));
    let quiet = route(false, Some(2), None);
    assert_eq!((quiet.primary, quiet.diagnostic), (Destination::Discard, Destination::Stderr));
    let status_then_quiet = route(false, Some(3), Some(1));
    assert_eq!(
        (status_then_quiet.primary, status_then_quiet.diagnostic),
        (Destination::Discard, Destination::Stderr)
    );
    let quiet_then_status = route(false, Some(1), Some(3));
    assert_eq!(
        (quiet_then_status.primary, quiet_then_status.diagnostic),
        (Destination::Discard, Destination::Discard)
    );
}

#[test]
fn block_size_fallback() {
    assert_eq!(io_block_size(Some(4096)), 4096);
    assert_eq!(io_block_size(Some(0)), DEFAULT_BLOCK_SIZE);
    assert_eq!(io_block_size(None), DEFAULT_BLOCK_SIZE);
}

#[test]
fn errors() {
    let e = Error::new("corrupt header");
    assert_eq!(e.kind, ErrorKind::Archive);
    assert_eq!(e.message, "corrupt header");
    assert_eq!(e.report_line(), "archive-sum: error: corrupt header\n");
    let io = Error::io("permission denied");
    assert_eq!(io.kind, ErrorKind::Io);
}

#[test]
fn source_tree_last_insert_wins() {
    let mut t = SourceTree::new();
    assert!(t.lookup(&"a".to_string()).is_none());
    t.insert("a".to_string(), vec![1]);
    t.insert("b".to_string(), vec![2]);
    t.insert("a".to_string(), vec![3]);
    assert_eq!(t.lookup(&"a".to_string()), Some(&[3u8][..]));
    assert_eq!(t.lookup(&"b".to_string()), Some(&[2u8][..]));
    assert!(t.lookup(&"c".to_string()).is_none());
}

#[test]
fn verifier_steps() {
    let mut v = Verifier::new(DigestState::new(Algorithm::Md5), Some("/r".to_string()));
    let dir = Entry::new("src/".to_string(), FileType::Directory, Vec::new());
    assert!(v.begin_member(&dir).is_none());

    let foo = Entry::new("src/foo".to_string(), FileType::RegularFile, b"foo\n".to_vec());
    let pending = v.begin_member(&foo).unwrap();
    assert_eq!(pending.hash, "d3b07384d113edec49eaa6238ad5ff00");
    assert_eq!(pending.source_path, "/r/src/foo");
    assert_eq!(pending.digest_line, "d3b07384d113edec49eaa6238ad5ff00  src/foo\n");

    let same = v.complete_member(&pending, Some(b"foo\n"));
    assert_eq!(same.outcome, Outcome::Passed);
    assert_eq!(same.line, "/r/src/foo: OK\n");

    let differs = v.complete_member(&pending, Some(b"foo\nfoo\n"));
    assert_eq!(differs.outcome, Outcome::Failed);

    let gone = v.complete_member(&pending, None);
    assert_eq!(gone.outcome, Outcome::Missing);
    assert_eq!(gone.line, "/r/src/foo: MISSING\n");

    assert_eq!((v.passed(), v.failed(), v.missing()), (1, 1, 1));
    assert!(!v.success());
    assert_eq!(
        v.summary(),
        vec![
            "archive-sum: WARNING: 1 MISSING file(s)\n".to_string(),
            "archive-sum: FATAL: 1 FAILED checksum(s)\n".to_string(),
        ]
    );
}

#[test]
fn missing_leaves_failures_alone() {
    let mut v = Verifier::new(DigestState::new(Algorithm::Md5), None);
    let foo = Entry::new("src/foo".to_string(), FileType::RegularFile, b"foo\n".to_vec());
    let pending = v.begin_member(&foo).unwrap();
    v.complete_member(&pending, None);
    assert_eq!(v.failed(), 0);
    assert_eq!(v.missing(), 1);
    assert_eq!(v.summary(), vec!["archive-sum: WARNING: 1 MISSING file(s)\n".to_string()]);
}

#[test]
fn fresh_verifier_succeeds() {
    let v = Verifier::new(DigestState::new(Algorithm::Sha512), None);
    assert!(v.success());
    assert!(v.summary().is_empty());
}
