//! Tests of the safety facade: input validation, the planned engine calls,
//! reply decoding, the copy-then-free discipline, and status mapping.

use die::error::Error;
use die::facade::load_database;
use die::facade::load_status;
use die::facade::scan_file;
use die::facade::scan_file_with_db;
use die::facade::scan_memory;
use die::facade::scan_memory_with_db;
use die::facade::EngineCall;
use die::facade::ScanSession;
use die::flags::Capability;
use die::flags::ScanFlags;

fn deep_scan() -> ScanFlags {
    ScanFlags::capability(Capability::DeepScan)
}

/// A stub of the engine for one scan exchange: it counts the boundary
/// crossings the session requests, as an instrumented set of entry points
/// would, and hands back a fixed reply.
struct EngineStub {
    reply: Vec<u8>,
    calls: usize,
    frees: usize,
}

impl EngineStub {
    fn new(reply: &[u8]) -> EngineStub {
        EngineStub { reply: reply.to_vec(), calls: 0, frees: 0 }
    }

    /// Drives one full exchange: invoke, copy, free.
    fn drive(&mut self, mut session: ScanSession) -> Result<String, Error> {
        self.calls += 1;
        let copied = self.reply.clone();
        session.reply_received(copied);
        self.frees += 1;
        session.buffer_freed()
    }
}

#[test]
fn scan_file_plans_the_no_db_entry_point() {
    let session = scan_file(b"/bin/ls".to_vec(), deep_scan()).unwrap();
    match session.call() {
        EngineCall::ScanFile { path, flags } => {
            assert_eq!(path.as_bytes().as_slice(), b"/bin/ls");
            assert_eq!(*flags, 0x1);
        }
        _ => panic!("wrong entry point"),
    }
}

#[test]
fn scan_file_rejects_non_utf8_path() {
    let r = scan_file(vec![0xff, 0xfe, 0x2f], deep_scan());
    assert!(matches!(r, Err(Error::ConversionFailure)));
}

#[test]
fn scan_file_rejects_interior_nul() {
    let r = scan_file(b"a\0b".to_vec(), deep_scan());
    assert!(matches!(r, Err(Error::Nul { position: 1 })));
}

#[test]
fn scan_file_reply_round_trip() {
    // A stubbed engine reply for a native executable: the result string is
    // handed back exactly, so its format tag stays the prefix.
    let mut stub = EngineStub::new(b"ELF64 executable, x86-64");
    let session = scan_file(b"/bin/ls".to_vec(), deep_scan()).unwrap();
    let out = stub.drive(session).unwrap();
    assert_eq!(out, "ELF64 executable, x86-64");
    assert!(out.starts_with("ELF64"));
    assert_eq!(stub.calls, 1);
    assert_eq!(stub.frees, 1);
}

#[test]
fn scan_file_with_db_plans_both_paths() {
    let session =
        scan_file_with_db(b"/bin/ls".to_vec(), deep_scan(), b"/opt/sig.db".to_vec()).unwrap();
    match session.call() {
        EngineCall::ScanFileWithDb { path, flags, db } => {
            assert_eq!(path.as_bytes().as_slice(), b"/bin/ls");
            assert_eq!(*flags, 0x1);
            assert_eq!(db.as_bytes().as_slice(), b"/opt/sig.db");
        }
        _ => panic!("wrong entry point"),
    }
}

#[test]
fn scan_file_with_db_checks_file_path_first() {
    // Both inputs are bad: the file path's nul is reported, not the database.
    let r = scan_file_with_db(b"a\0b".to_vec(), deep_scan(), vec![0xff]);
    assert!(matches!(r, Err(Error::Nul { position: 1 })));
    // Only the database path is bad.
    let r = scan_file_with_db(b"/bin/ls".to_vec(), deep_scan(), vec![0xff]);
    assert!(matches!(r, Err(Error::ConversionFailure)));
}

#[test]
fn scan_memory_plans_length_and_flags() {
    let session = scan_memory(1024, deep_scan()).unwrap();
    match session.call() {
        EngineCall::ScanMemory { len, flags } => {
            assert_eq!(*len, 1024);
            assert_eq!(*flags, 0x1);
        }
        _ => panic!("wrong entry point"),
    }
}

#[test]
fn scan_memory_rejects_oversized_buffer_before_any_call() {
    let stub = EngineStub::new(b"never reached");
    let huge = (u32::MAX as usize) + 1;
    match scan_memory(huge, deep_scan()) {
        Err(Error::Overflow) => {}
        _ => panic!("expected the overflow error"),
    }
    // No session exists, so the engine stub was never invoked.
    assert_eq!(stub.calls, 0);
    assert_eq!(stub.frees, 0);
}

#[test]
fn scan_memory_with_db_checks_database_before_length() {
    let huge = (u32::MAX as usize) + 1;
    // The database path is converted before the length is checked.
    let r = scan_memory_with_db(huge, deep_scan(), vec![0xff]);
    assert!(matches!(r, Err(Error::ConversionFailure)));
    let r = scan_memory_with_db(huge, deep_scan(), b"/opt/sig.db".to_vec());
    assert!(matches!(r, Err(Error::Overflow)));
    let session = scan_memory_with_db(2048, deep_scan(), b"/opt/sig.db".to_vec()).unwrap();
    match session.call() {
        EngineCall::ScanMemoryWithDb { len, flags, db } => {
            assert_eq!(*len, 2048);
            assert_eq!(*flags, 0x1);
            assert_eq!(db.as_bytes().as_slice(), b"/opt/sig.db");
        }
        _ => panic!("wrong entry point"),
    }
}

#[test]
fn invalid_reply_is_freed_then_reported() {
    // The reply is not UTF-8: the buffer is still freed exactly once, and the
    // decoding error carries the longest valid prefix.
    let mut stub = EngineStub::new(&[0x50, 0x45, 0xff]);
    let session = scan_file(b"/bin/ls".to_vec(), deep_scan()).unwrap();
    let r = stub.drive(session);
    assert!(matches!(r, Err(Error::Utf8 { valid_up_to: 2 })));
    assert_eq!(stub.frees, 1);
}

#[test]
fn equal_replies_decode_equally() {
    // A memory scan and a file scan of the same bytes: once the engine
    // replies agree, so do the facade's results.
    let mut stub = EngineStub::new(b"PE64 executable");
    let from_file = scan_file(b"winver.exe".to_vec(), deep_scan()).unwrap();
    let from_memory = scan_memory(4096, deep_scan()).unwrap();
    let r1 = stub.drive(from_file);
    let r2 = stub.drive(from_memory);
    assert_eq!(r1, r2);
    assert_eq!(stub.calls, 2);
    assert_eq!(stub.frees, 2);
}

#[test]
fn load_database_validates_the_path() {
    let load = load_database(b"/opt/sig.db".to_vec()).unwrap();
    assert_eq!(load.path().as_slice(), b"/opt/sig.db");
    assert!(matches!(load_database(vec![0xff]), Err(Error::ConversionFailure)));
    assert!(matches!(load_database(b"\0".to_vec()), Err(Error::Nul { position: 0 })));
}

#[test]
fn load_status_maps_zero_to_success() {
    assert!(load_status(0).is_ok());
}

#[test]
fn load_status_carries_the_engine_code() {
    assert_eq!(load_status(3), Err(Error::Ffi { error_code: 3 }));
    assert_eq!(load_status(-7), Err(Error::Ffi { error_code: -7 }));
}

#[test]
fn multi_byte_reply_survives_the_round_trip() {
    let reply = "MACHO64 exécutable — détecté".as_bytes();
    let mut stub = EngineStub::new(reply);
    let session = scan_file(b"/bin/ls".to_vec(), deep_scan()).unwrap();
    let out = stub.drive(session).unwrap();
    assert_eq!(out, "MACHO64 exécutable — détecté");
    assert!(out.starts_with("MACHO64"));
}

#[test]
fn empty_reply_decodes_to_the_empty_string() {
    let mut stub = EngineStub::new(b"");
    let session = scan_memory(16, deep_scan()).unwrap();
    let out = stub.drive(session).unwrap();
    assert_eq!(out, "");
}

/// Decodes one reply through a fresh session.
fn decode_reply(reply: &[u8]) -> Result<String, Error> {
    let mut stub = EngineStub::new(reply);
    let session = scan_memory(1, deep_scan()).unwrap();
    stub.drive(session)
}

#[test]
fn reply_decoding_agrees_with_the_standard_library() {
    let samples: Vec<Vec<u8>> = vec![
        b"plain ascii".to_vec(),
        "déjà vu — übermäßig".as_bytes().to_vec(),
        "\u{10348}\u{1F600}".as_bytes().to_vec(),
        vec![0xc0, 0xaf],                   // overlong two-byte encoding
        vec![0xe0, 0x80, 0x80],             // overlong three-byte encoding
        vec![0xf0, 0x80, 0x80, 0x80],       // overlong four-byte encoding
        vec![0xed, 0xa0, 0x80],             // surrogate half
        vec![0xed, 0x9f, 0xbf],             // just below the surrogate range
        vec![0xee, 0x80, 0x80],             // just above the surrogate range
        vec![0xf4, 0x8f, 0xbf, 0xbf],       // the largest scalar
        vec![0xf4, 0x90, 0x80, 0x80],       // one past the largest scalar
        vec![0x61, 0xc3],                   // truncated two-byte encoding
        vec![0x61, 0xe2, 0x82],             // truncated three-byte encoding
        vec![0x61, 0xf0, 0x9f, 0x98],       // truncated four-byte encoding
        vec![0x80],                         // a lone continuation byte
        vec![0xff, 0xfe],                   // bytes no encoding uses
        vec![0x61, 0x62, 0xf8, 0x63],       // an out-of-range leading byte
        vec![0xc3, 0xa9, 0xc3],             // valid scalar then truncation
    ];
    for sample in samples {
        match (decode_reply(&sample), std::str::from_utf8(&sample)) {
            (Ok(mine), Ok(std_str)) => assert_eq!(mine, std_str, "on {sample:?}"),
            (Err(Error::Utf8 { valid_up_to }), Err(e)) => {
                assert_eq!(valid_up_to, e.valid_up_to(), "on {sample:?}")
            }
            (mine, std_res) => panic!("disagreement on {sample:?}: {mine:?} vs {std_res:?}"),
        }
    }
}
