use include_zstd::{
    absolutize_source_file, bytes, compress, create_zstd_asset, decode_utf8, decompress_bytes, expand_from_data,
    invocation_source_file_abs, is_rust_source, is_skipped_dir_name, mentions_path, resolve_path, scans_sources, str,
    try_decode_utf8, try_decompress_bytes, unique_match, CandidateFacts, FileMacroInput, InputError,
    InvocationSourceFile, MacroToken, ResolveEnv, ResolveError, SourceFacts, ZstdMetadata,
};
use std::time::{Duration, SystemTime};

const ZSTD_MAGIC: [u8; 4] = [0x28, 0xb5, 0x2f, 0xfd];

fn leak(data: Vec<u8>) -> &'static [u8] {
    Box::leak(data.into_boxed_slice())
}

fn no_facts() -> CandidateFacts {
    CandidateFacts { is_file: false, parent_exists: false }
}

fn facts(file: &str) -> SourceFacts {
    SourceFacts {
        local_file: None,
        local_file_is_file: false,
        file: file.to_string(),
        file_is_file: false,
        manifest_dir: None,
        manifest_candidate: no_facts(),
        cwd: None,
        cwd_candidate: no_facts(),
    }
}

fn env(invocation: &str, reliable: bool, manifest_dir: Option<&str>, literal_match: Option<&str>) -> ResolveEnv {
    ResolveEnv {
        manifest_dir: manifest_dir.map(|s| s.to_string()),
        invocation: InvocationSourceFile { path: invocation.to_string(), reliable },
        literal_match: literal_match.map(|s| s.to_string()),
    }
}

fn lit(s: &str) -> MacroToken {
    MacroToken::StrLit(s.to_string())
}

#[test]
fn compressed_frame_decompresses_to_the_data() {
    let inputs: Vec<Vec<u8>> = vec![
        Vec::new(),
        b"a".to_vec(),
        b"hello hello hello hello hello".to_vec(),
        (0..5000u32).map(|i| (i % 251) as u8).collect(),
    ];
    for data in inputs {
        let frame = compress(&data).unwrap();
        assert_eq!(&*decompress_bytes(&frame), data.as_slice());
    }
}

#[test]
fn compressed_frame_is_a_zstd_frame_not_the_data() {
    let data = vec![7u8; 1000];
    let frame = compress(&data).unwrap();
    assert_eq!(&frame[..4], &ZSTD_MAGIC);
    assert_ne!(frame, data);
    assert!(frame.len() < data.len());
}

#[test]
fn compression_is_deterministic() {
    let data = b"the same data embedded twice".to_vec();
    assert_eq!(compress(&data).unwrap(), compress(&data).unwrap());
}

#[test]
fn garbage_does_not_decompress() {
    assert!(try_decompress_bytes(b"not a zstd frame").is_err());
    assert!(try_decompress_bytes(&[0x28, 0xb5, 0x2f, 0xfd, 0xff]).is_err());
}

#[test]
fn try_decompress_gives_the_data() {
    let frame = compress(b"payload").unwrap();
    assert_eq!(&*try_decompress_bytes(&frame).unwrap(), b"payload");
}

#[test]
fn utf8_text_decodes() {
    let text = "h\u{e9}llo \u{1f600}";
    let decoded = decode_utf8(leak(text.as_bytes().to_vec()));
    assert_eq!(decoded, text);
    assert_eq!(try_decode_utf8(leak(b"plain".to_vec())), Some("plain"));
}

#[test]
fn invalid_utf8_is_refused() {
    assert_eq!(try_decode_utf8(leak(vec![0xff, 0xfe])), None);
    assert_eq!(try_decode_utf8(leak(vec![b'a', 0xc3])), None);
}

#[test]
fn expansion_keeps_the_text_flag_and_the_data() {
    let text = expand_from_data(b"abc".to_vec(), true).unwrap();
    assert!(text.decode_utf8);
    assert_eq!(&*decompress_bytes(&text.compressed), b"abc");
    let raw = expand_from_data(b"abc".to_vec(), false).unwrap();
    assert!(!raw.decode_utf8);
    assert_eq!(raw.compressed, text.compressed);
}

#[test]
fn embedded_text_round_trips() {
    let value = "gr\u{fc}\u{df}e, \u{4e16}\u{754c}";
    let e = str(value).unwrap();
    assert!(e.decode_utf8);
    let data = leak(decompress_bytes(&e.compressed).into_vec());
    assert_eq!(decode_utf8(data), value);
}

#[test]
fn embedded_bytes_round_trip() {
    let value: &[u8] = &[0, 1, 2, 3, 255, 254];
    let e = bytes(value).unwrap();
    assert!(!e.decode_utf8);
    assert_eq!(&*decompress_bytes(&e.compressed), value);
}

#[test]
fn asset_keeps_metadata_and_content() {
    let when = SystemTime::UNIX_EPOCH + Duration::new(1_700_000_000, 5);
    let frame = compress(b"asset content").unwrap();
    let asset = create_zstd_asset(
        ZstdMetadata { len: 13, modified: Some(when), accessed: None, created: Some(when), is_file: true, is_dir: false },
        leak(frame),
    );
    assert_eq!(asset.metadata().len, 13);
    assert_eq!(asset.metadata().modified, Some(when));
    assert_eq!(asset.metadata().accessed, None);
    assert_eq!(asset.bytes(), b"asset content");
    assert_eq!(asset.try_bytes(), Some(&b"asset content"[..]));
}

#[test]
fn asset_with_a_bad_frame_gives_no_bytes() {
    let asset = create_zstd_asset(
        ZstdMetadata { len: 0, modified: None, accessed: None, created: None, is_file: false, is_dir: true },
        b"garbage",
    );
    assert!(asset.try_bytes().is_none());
    assert!(asset.metadata().is_dir);
}

#[test]
fn input_with_one_literal_is_the_path() {
    let parsed = FileMacroInput::parse(&vec![lit("data/a.txt")]).ok().unwrap();
    assert_eq!(parsed.source_file, None);
    assert_eq!(parsed.target_path, "data/a.txt");
}

#[test]
fn input_with_two_literals_names_the_source_file() {
    let parsed = FileMacroInput::parse(&vec![lit("src/main.rs"), MacroToken::Comma, lit("a.bin")]).ok().unwrap();
    assert_eq!(parsed.source_file.as_deref(), Some("src/main.rs"));
    assert_eq!(parsed.target_path, "a.bin");
}

#[test]
fn input_errors() {
    let err = |tokens: Vec<MacroToken>| FileMacroInput::parse(&tokens).err().unwrap();
    assert_eq!(err(vec![]), InputError::ExpectedStringLiteral);
    assert_eq!(err(vec![MacroToken::Other]), InputError::ExpectedStringLiteral);
    assert_eq!(err(vec![MacroToken::Comma, lit("a")]), InputError::ExpectedStringLiteral);
    assert_eq!(err(vec![lit("a"), MacroToken::Other]), InputError::ExpectedComma);
    assert_eq!(err(vec![lit("a"), lit("b")]), InputError::ExpectedComma);
    assert_eq!(err(vec![lit("a"), MacroToken::Comma]), InputError::ExpectedStringLiteral);
    assert_eq!(err(vec![lit("a"), MacroToken::Comma, MacroToken::Other]), InputError::ExpectedStringLiteral);
    assert_eq!(err(vec![lit("a"), MacroToken::Comma, lit("b"), MacroToken::Comma]), InputError::TrailingInput);
}

#[test]
fn compiler_local_file_is_taken_first() {
    let mut f = facts("src/lib.rs");
    f.local_file = Some("/work/crate/src/lib.rs".to_string());
    let got = invocation_source_file_abs(&f);
    assert_eq!(got.path, "/work/crate/src/lib.rs");
    assert!(got.reliable);

    let mut g = facts("src/lib.rs");
    g.local_file = Some("/work/crate/src/noext".to_string());
    g.local_file_is_file = true;
    assert_eq!(invocation_source_file_abs(&g).path, "/work/crate/src/noext");

    let mut h = facts("src/lib.rs");
    h.local_file = Some("/work/crate/src".to_string());
    h.manifest_dir = Some("/work/crate".to_string());
    h.manifest_candidate.is_file = true;
    let got = invocation_source_file_abs(&h);
    assert_eq!(got.path, "/work/crate/src/lib.rs");
    assert!(got.reliable);
}

#[test]
fn absolute_reported_file_is_reliable_only_if_it_exists() {
    let mut f = facts("/abs/src/lib.rs");
    f.manifest_dir = Some("/work".to_string());
    let got = invocation_source_file_abs(&f);
    assert_eq!(got.path, "/abs/src/lib.rs");
    assert!(!got.reliable);
    f.file_is_file = true;
    assert!(invocation_source_file_abs(&f).reliable);
}

#[test]
fn reported_file_is_taken_from_the_crate_root_then_the_working_directory() {
    let mut f = facts("src/lib.rs");
    f.manifest_dir = Some("/work/crate".to_string());
    f.cwd = Some("/cwd".to_string());
    f.manifest_candidate.parent_exists = true;
    let got = invocation_source_file_abs(&f);
    assert_eq!(got.path, "/work/crate/src/lib.rs");
    assert!(!got.reliable);

    f.manifest_candidate.parent_exists = false;
    f.cwd_candidate.is_file = true;
    let got = invocation_source_file_abs(&f);
    assert_eq!(got.path, "/cwd/src/lib.rs");
    assert!(got.reliable);

    f.cwd_candidate.is_file = false;
    f.cwd_candidate.parent_exists = true;
    let got = invocation_source_file_abs(&f);
    assert_eq!(got.path, "/cwd/src/lib.rs");
    assert!(!got.reliable);
}

#[test]
fn unknown_source_file_falls_back() {
    let mut f = facts("src/lib.rs");
    f.manifest_dir = Some("/work/crate".to_string());
    f.cwd = Some("/cwd".to_string());
    let got = invocation_source_file_abs(&f);
    assert_eq!(got.path, "/work/crate/__include_zstd_unknown.rs");
    assert!(!got.reliable);

    f.manifest_dir = None;
    assert_eq!(invocation_source_file_abs(&f).path, "/cwd/__include_zstd_unknown.rs");

    f.cwd = None;
    let got = invocation_source_file_abs(&f);
    assert_eq!(got.path, "src/lib.rs");
    assert!(!got.reliable);

    let mut empty = facts("");
    empty.cwd = Some("/cwd".to_string());
    empty.cwd_candidate.is_file = true;
    assert_eq!(invocation_source_file_abs(&empty).path, "/cwd/__include_zstd_unknown.rs");
}

#[test]
fn given_source_file_is_made_absolute() {
    assert_eq!(absolutize_source_file("/x/y.rs", Some("/root")), "/x/y.rs");
    assert_eq!(absolutize_source_file("src/y.rs", Some("/root")), "/root/src/y.rs");
    assert_eq!(absolutize_source_file("src/y.rs", None), "src/y.rs");
}

#[test]
fn absolute_path_resolves_to_itself() {
    let e = env("/work/src/lib.rs", false, None, Some("/elsewhere/a.txt"));
    assert_eq!(resolve_path(None, "/data/a.txt", &e).ok().unwrap(), "/data/a.txt");
    assert!(!scans_sources(None, "/data/a.txt", &e.invocation));
}

#[test]
fn relative_path_is_taken_from_the_source_directory() {
    let e = env("/work/src/lib.rs", true, None, None);
    assert_eq!(resolve_path(None, "data/a.txt", &e).ok().unwrap(), "/work/src/data/a.txt");
    let given = env("/ignored/lib.rs", false, Some("/work"), Some("/elsewhere/a.txt"));
    assert_eq!(resolve_path(Some("src/main.rs"), "a.txt", &given).ok().unwrap(), "/work/src/a.txt");
    assert!(!scans_sources(Some("src/main.rs"), "a.txt", &given.invocation));
}

#[test]
fn unreliable_source_file_prefers_the_scan() {
    let e = env("/work/__include_zstd_unknown.rs", false, None, Some("/work/assets/key.pem"));
    assert!(scans_sources(None, "../../assets/key.pem", &e.invocation));
    assert_eq!(resolve_path(None, "../../assets/key.pem", &e).ok().unwrap(), "/work/assets/key.pem");
    let none_found = env("/work/__include_zstd_unknown.rs", false, None, None);
    assert_eq!(resolve_path(None, "a.txt", &none_found).ok().unwrap(), "/work/a.txt");
    let reliable = env("/work/src/lib.rs", true, None, Some("/work/assets/key.pem"));
    assert!(!scans_sources(None, "a.txt", &reliable.invocation));
    assert_eq!(resolve_path(None, "a.txt", &reliable).ok().unwrap(), "/work/src/a.txt");
}

#[test]
fn source_file_without_parent_is_an_error() {
    let e = env("", true, None, None);
    match resolve_path(None, "a.txt", &e) {
        Err(ResolveError::NoParentDirectory { source_path, source_file }) => {
            assert_eq!(source_path, "a.txt");
            assert_eq!(source_file, "");
        }
        Ok(p) => panic!("resolved to {p}"),
    }
}

#[test]
fn scan_match_must_be_unique() {
    assert_eq!(unique_match(&vec![]), None);
    assert_eq!(unique_match(&vec!["/a".to_string()]), Some("/a".to_string()));
    assert_eq!(unique_match(&vec!["/a".to_string(), "/a".to_string()]), Some("/a".to_string()));
    assert_eq!(unique_match(&vec!["/a".to_string(), "/b".to_string()]), None);
}

#[test]
fn scan_predicates() {
    assert!(mentions_path("let k = file_str!(\"../../assets/key.pem\");", "../../assets/key.pem"));
    assert!(!mentions_path("let k = 1;", "../../assets/key.pem"));
    assert!(mentions_path("anything", ""));
    assert!(is_rust_source("src/request_handler/auth_handler.rs"));
    assert!(!is_rust_source("assets/key.pem"));
    assert!(!is_rust_source("src/rs"));
    assert!(is_skipped_dir_name("target"));
    assert!(is_skipped_dir_name(".git"));
    assert!(!is_skipped_dir_name("src"));
    assert!(!is_skipped_dir_name("targets"));
    assert!(!is_skipped_dir_name(""));
}
