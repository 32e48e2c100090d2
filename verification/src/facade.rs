//! The safety facade over the engine's C entry points.
//!
//! The engine is reached through a handful of C functions that take
//! nul-terminated byte strings or a raw buffer plus a 32-bit length, and that
//! hand back an engine-owned, nul-terminated result buffer.  This module owns
//! everything around those calls that can be checked: input validation, the
//! exact call to make, decoding of the reply, and the discipline that the
//! engine's buffer is copied first and released exactly once.
//!
//! A scan is a small exchange, driven from outside as a [`ScanSession`]:
//!
//! 1. one of [`scan_file`], [`scan_file_with_db`], [`scan_memory`],
//!    [`scan_memory_with_db`] validates the inputs and either rejects them
//!    with the exact [`Error`] or opens a session whose [`EngineCall`] says
//!    which entry point to invoke with which arguments;
//! 2. the caller performs that one call, copies the engine's reply bytes, and
//!    hands them to [`ScanSession::reply_received`], which decodes them;
//! 3. the caller releases the engine's buffer through the designated free
//!    entry point and acknowledges it with [`ScanSession::buffer_freed`],
//!    which only then surfaces the result.
//!
//! The session's ghost history records each crossing of the boundary;
//! [`lemma_free_exactly_once`] states the leak-freedom discipline over it.
//! Database loading follows the same pattern without a result buffer:
//! [`load_database`] plans the call and [`load_status`] interprets the
//! engine's status code.

use vstd::prelude::*;

use crate::error::Error;
use crate::flags::ScanFlags;
use crate::utf8_scan::is_longest_valid_prefix;
use crate::utf8_scan::validate_utf8;
use vstd::utf8::decode_utf8;
use vstd::utf8::valid_utf8;

verus! {

/// No byte of the string is nul.
pub open spec fn nul_free(bytes: Seq<u8>) -> bool {
    forall|i: int| 0 <= i < bytes.len() ==> bytes[i] != 0
}

/// The first nul byte of the string sits at position `p`.
pub open spec fn first_nul_at(bytes: Seq<u8>, p: int) -> bool {
    &&& 0 <= p < bytes.len()
    &&& bytes[p] == 0
    &&& forall|i: int| 0 <= i < p ==> bytes[i] != 0
}

/// The bytes can be handed to the engine as a path: they are valid UTF-8 and
/// carry no interior nul.
pub open spec fn path_ok(bytes: Seq<u8>) -> bool {
    valid_utf8(bytes) && nul_free(bytes)
}

/// `e` is exactly the error with which the facade rejects this path: a
/// conversion failure when the bytes are not UTF-8, else the position of the
/// first nul byte.
pub open spec fn path_rejected(bytes: Seq<u8>, e: Error) -> bool {
    match e {
        Error::ConversionFailure => !valid_utf8(bytes),
        Error::Nul { position } => valid_utf8(bytes) && first_nul_at(bytes, position as int),
        _ => false,
    }
}

/// The buffer length fits the engine's 32-bit length parameter.
pub open spec fn fits_engine_len(len: usize) -> bool {
    len <= u32::MAX
}

/// Relies on `String::from_utf8`: on bytes that are valid UTF-8 — which the
/// verified validator has established before this is called — it succeeds,
/// and the string reads as the decoded bytes.
#[verifier::external_body]
fn utf8_string(bytes: Vec<u8>) -> (r: String)
    requires
        valid_utf8(bytes@),
    ensures
        r@ == decode_utf8(bytes@),
{
    String::from_utf8(bytes).expect("the bytes were validated")
}

/// Finds the first nul byte, if any.
fn find_nul(bytes: &Vec<u8>) -> (r: Option<usize>)
    ensures
        match r {
            Some(p) => first_nul_at(bytes@, p as int),
            None => nul_free(bytes@),
        },
{
    let n = bytes.len();
    let mut i: usize = 0;
    while i < n
        invariant
            i <= n,
            n == bytes@.len(),
            forall|j: int| 0 <= j < i ==> bytes@[j] != 0,
        decreases n - i,
    {
        if bytes[i] == 0 {
            return Some(i);
        }
        i += 1;
    }
    None
}

/// A path as the engine expects it: valid UTF-8 bytes with no interior nul,
/// ready to be nul-terminated at the boundary.
pub struct CPath {
    bytes: Vec<u8>,
}

impl View for CPath {
    type V = Seq<u8>;

    closed spec fn view(&self) -> Seq<u8> {
        self.bytes@
    }
}

impl CPath {
    /// The constructor's guarantee, kept by every value of the type.
    pub open spec fn wf(self) -> bool {
        path_ok(self@)
    }

    /// Validates path bytes, rejecting them exactly as [`path_rejected`]
    /// describes.
    pub fn new(bytes: Vec<u8>) -> (r: Result<CPath, Error>)
        ensures
            match r {
                Ok(p) => path_ok(bytes@) && p.wf() && p@ == bytes@,
                Err(e) => path_rejected(bytes@, e),
            },
    {
        if validate_utf8(&bytes).is_err() {
            return Err(Error::ConversionFailure);
        }
        match find_nul(&bytes) {
            Some(p) => Err(Error::Nul { position: p }),
            None => Ok(CPath { bytes }),
        }
    }

    /// The path's bytes, for marshalling at the boundary.
    pub fn as_bytes(&self) -> (r: &Vec<u8>)
        ensures
            r@ == self@,
    {
        &self.bytes
    }
}

/// The one engine entry point a scan session crosses the boundary through,
/// with the already validated arguments.
///
/// The in-memory variants carry only the buffer's length: the buffer itself
/// stays with the caller, who must keep it alive and unchanged for the single
/// synchronous call.
pub enum EngineCall {
    /// The no-database file entry point: path and flag word.
    ScanFile { path: CPath, flags: u32 },
    /// The database-aware file entry point: path, flag word and database path.
    ScanFileWithDb { path: CPath, flags: u32, db: CPath },
    /// The no-database memory entry point: buffer length and flag word.
    ScanMemory { len: u32, flags: u32 },
    /// The database-aware memory entry point: buffer length, flag word and
    /// database path.
    ScanMemoryWithDb { len: u32, flags: u32, db: CPath },
}

impl EngineCall {
    /// Every path carried by the call is validated.
    pub open spec fn wf(self) -> bool {
        match self {
            EngineCall::ScanFile { path, .. } => path.wf(),
            EngineCall::ScanFileWithDb { path, db, .. } => path.wf() && db.wf(),
            EngineCall::ScanMemory { .. } => true,
            EngineCall::ScanMemoryWithDb { db, .. } => db.wf(),
        }
    }
}

/// One crossing of the FFI boundary during a scan exchange.
#[derive(Clone, Copy, Debug, PartialEq, Eq, Structural)]
pub enum BoundaryOp {
    /// The engine entry point was invoked and returned an owned buffer.
    CallEngine,
    /// The engine's buffer was copied into owned memory.
    CopyReply,
    /// The engine was asked to free its buffer.
    FreeReply,
}

/// Where a scan exchange stands.
#[derive(Clone, Copy, Debug, PartialEq, Eq, Structural)]
pub enum Phase {
    /// The call is planned; the engine's reply has not been copied yet.
    AwaitReply,
    /// The reply was copied and decoded; the engine's buffer must now be
    /// freed before the result is surfaced.
    AwaitFree,
    /// The buffer was freed and the result handed out.
    Done,
}

/// The view of a scan result: the decoded text, or the error unchanged.
pub open spec fn outcome_view(r: Result<String, Error>) -> Result<Seq<char>, Error> {
    match r {
        Ok(s) => Ok(s@),
        Err(e) => Err(e),
    }
}

/// `r` is the one result the facade may return for an engine reply consisting
/// of `reply`: the decoded text if the reply is valid UTF-8, else the
/// decoding error with the longest valid prefix.
pub open spec fn scan_outcome_matches(reply: Seq<u8>, r: Result<Seq<char>, Error>) -> bool {
    match r {
        Ok(text) => valid_utf8(reply) && text == decode_utf8(reply),
        Err(Error::Utf8 { valid_up_to }) => !valid_utf8(reply) && is_longest_valid_prefix(
            reply,
            valid_up_to as int,
        ),
        Err(_) => false,
    }
}

/// One planned scan exchange with the engine.
///
/// A session is created by one of the scan operations, fed the engine's reply
/// once, and closed by acknowledging the buffer's release; only then does it
/// hand out the result.
pub struct ScanSession {
    call: EngineCall,
    phase: Phase,
    outcome: Option<Result<String, Error>>,
    reply: Ghost<Seq<u8>>,
    history: Ghost<Seq<BoundaryOp>>,
}

impl ScanSession {
    /// The call this session crosses the boundary through.
    pub closed spec fn spec_call(self) -> EngineCall {
        self.call
    }

    /// Where the exchange stands.
    pub closed spec fn spec_phase(self) -> Phase {
        self.phase
    }

    /// The reply bytes received so far (empty before the reply).
    pub closed spec fn spec_reply(self) -> Seq<u8> {
        self.reply@
    }

    /// The boundary crossings of the exchange, in order.
    pub closed spec fn history(self) -> Seq<BoundaryOp> {
        self.history@
    }

    /// The session's invariant: the call is validated and the history records
    /// exactly the crossings the phase implies; once the reply was copied,
    /// the stored outcome is the one decoding of it.
    pub closed spec fn wf(self) -> bool {
        &&& self.call.wf()
        &&& match self.phase {
            Phase::AwaitReply => {
                &&& self.outcome is None
                &&& self.history@ == seq![BoundaryOp::CallEngine]
            },
            Phase::AwaitFree => {
                &&& self.outcome matches Some(oc) && scan_outcome_matches(
                    self.reply@,
                    outcome_view(oc),
                )
                &&& self.history@ == seq![BoundaryOp::CallEngine, BoundaryOp::CopyReply]
            },
            Phase::Done => {
                &&& self.outcome is None
                &&& self.history@ == seq![
                    BoundaryOp::CallEngine,
                    BoundaryOp::CopyReply,
                    BoundaryOp::FreeReply,
                ]
            },
        }
    }

    /// Opens the exchange for an already validated call.
    fn begin(call: EngineCall) -> (r: ScanSession)
        requires
            call.wf(),
        ensures
            r.wf(),
            r.spec_phase() == Phase::AwaitReply,
            r.spec_call() == call,
            r.history() == seq![BoundaryOp::CallEngine],
    {
        let ghost h = seq![BoundaryOp::CallEngine];
        ScanSession {
            call,
            phase: Phase::AwaitReply,
            outcome: None,
            reply: Ghost(Seq::empty()),
            history: Ghost(h),
        }
    }

    /// The call to perform, for marshalling at the boundary.
    pub fn call(&self) -> (r: &EngineCall)
        ensures
            r == self.spec_call(),
    {
        &self.call
    }

    /// Records the engine's reply, already copied out of the engine's buffer,
    /// and decodes it.  The engine's buffer is now owed exactly one release.
    pub fn reply_received(&mut self, bytes: Vec<u8>)
        requires
            old(self).wf(),
            old(self).spec_phase() == Phase::AwaitReply,
        ensures
            final(self).wf(),
            final(self).spec_phase() == Phase::AwaitFree,
            final(self).spec_call() == old(self).spec_call(),
            final(self).spec_reply() == bytes@,
            final(self).history() == old(self).history() + seq![BoundaryOp::CopyReply],
    {
        let ghost b = bytes@;
        let outcome = match validate_utf8(&bytes) {
            Ok(_) => Ok(utf8_string(bytes)),
            Err(p) => Err(Error::Utf8 { valid_up_to: p }),
        };
        self.outcome = Some(outcome);
        self.phase = Phase::AwaitFree;
        self.reply = Ghost(b);
        let ghost h = self.history@ + seq![BoundaryOp::CopyReply];
        self.history = Ghost(h);
        proof {
            assert(h =~= seq![BoundaryOp::CallEngine, BoundaryOp::CopyReply]);
        }
    }

    /// Acknowledges that the engine's buffer was released through the
    /// designated free entry point, and surfaces the result: the decoded
    /// reply, or the decoding error — in either case only after the release.
    pub fn buffer_freed(&mut self) -> (r: Result<String, Error>)
        requires
            old(self).wf(),
            old(self).spec_phase() == Phase::AwaitFree,
        ensures
            final(self).wf(),
            final(self).spec_phase() == Phase::Done,
            final(self).spec_call() == old(self).spec_call(),
            final(self).spec_reply() == old(self).spec_reply(),
            final(self).history() == old(self).history() + seq![BoundaryOp::FreeReply],
            scan_outcome_matches(old(self).spec_reply(), outcome_view(r)),
    {
        let r = self.outcome.take();
        self.phase = Phase::Done;
        let ghost h = self.history@ + seq![BoundaryOp::FreeReply];
        self.history = Ghost(h);
        proof {
            assert(h =~= seq![BoundaryOp::CallEngine, BoundaryOp::CopyReply, BoundaryOp::FreeReply]);
        }
        r.unwrap()
    }
}

/// Leak freedom: a finished exchange crossed the boundary exactly three
/// times — one engine call, one copy of the reply, one release of the
/// engine's buffer — in that order.  In particular the free entry point was
/// requested exactly once, and only after the reply was copied.
pub proof fn lemma_free_exactly_once(s: &ScanSession)
    requires
        s.wf(),
        s.spec_phase() == Phase::Done,
    ensures
        s.history() == seq![BoundaryOp::CallEngine, BoundaryOp::CopyReply, BoundaryOp::FreeReply],
        forall|i: int|
            0 <= i < s.history().len() ==> (s.history()[i] == BoundaryOp::FreeReply <==> i == 2),
        forall|i: int|
            0 <= i < s.history().len() ==> (s.history()[i] == BoundaryOp::CopyReply <==> i == 1),
{
    assert forall|i: int| 0 <= i < s.history().len() implies (s.history()[i]
        == BoundaryOp::FreeReply <==> i == 2) && (s.history()[i] == BoundaryOp::CopyReply <==> i
        == 1) by {
        assert(s.history() == seq![
            BoundaryOp::CallEngine,
            BoundaryOp::CopyReply,
            BoundaryOp::FreeReply,
        ]);
    }
}

/// One reply, one result: whatever two scan operations led to the same engine
/// reply — a memory scan and a file scan of the same bytes, say — the facade
/// decodes them to the same outcome.
pub proof fn lemma_reply_determines_outcome(
    reply: Seq<u8>,
    r1: Result<String, Error>,
    r2: Result<String, Error>,
)
    requires
        scan_outcome_matches(reply, outcome_view(r1)),
        scan_outcome_matches(reply, outcome_view(r2)),
    ensures
        outcome_view(r1) == outcome_view(r2),
{
    match (outcome_view(r1), outcome_view(r2)) {
        (Err(Error::Utf8 { valid_up_to: p1 }), Err(Error::Utf8 { valid_up_to: p2 })) => {
            if p1 < p2 {
                assert(!valid_utf8(reply.take(p2 as int)));
            }
            if p2 < p1 {
                assert(!valid_utf8(reply.take(p1 as int)));
            }
        },
        _ => {},
    }
}

/// Plans a file scan through the no-database entry point.
///
/// The path is rejected, before any engine call exists, exactly as
/// [`path_rejected`] describes; otherwise the opened session carries the
/// path's bytes and the flag word unchanged.
pub fn scan_file(path: Vec<u8>, flags: ScanFlags) -> (r: Result<ScanSession, Error>)
    ensures
        match r {
            Ok(s) => {
                &&& path_ok(path@)
                &&& s.wf()
                &&& s.spec_phase() == Phase::AwaitReply
                &&& s.history() == seq![BoundaryOp::CallEngine]
                &&& s.spec_call() matches EngineCall::ScanFile { path: p, flags: f } && p@ == path@
                    && f == flags.spec_bits()
            },
            Err(e) => path_rejected(path@, e),
        },
{
    let p = CPath::new(path)?;
    Ok(ScanSession::begin(EngineCall::ScanFile { path: p, flags: flags.bits() }))
}

/// Plans a file scan through the database-aware entry point.
///
/// The file path is validated first, then the database path, each rejected
/// exactly as [`path_rejected`] describes.
pub fn scan_file_with_db(path: Vec<u8>, flags: ScanFlags, db_path: Vec<u8>) -> (r: Result<
    ScanSession,
    Error,
>)
    ensures
        match r {
            Ok(s) => {
                &&& path_ok(path@)
                &&& path_ok(db_path@)
                &&& s.wf()
                &&& s.spec_phase() == Phase::AwaitReply
                &&& s.history() == seq![BoundaryOp::CallEngine]
                &&& s.spec_call() matches EngineCall::ScanFileWithDb { path: p, flags: f, db } && p@
                    == path@ && f == flags.spec_bits() && db@ == db_path@
            },
            Err(e) => if !path_ok(path@) {
                path_rejected(path@, e)
            } else {
                path_rejected(db_path@, e)
            },
        },
{
    let p = CPath::new(path)?;
    let db = CPath::new(db_path)?;
    Ok(ScanSession::begin(EngineCall::ScanFileWithDb { path: p, flags: flags.bits(), db }))
}

/// Plans an in-memory scan through the no-database entry point.
///
/// Only the buffer's length enters the session; the caller keeps the buffer
/// alive and unchanged for the single call.  A length beyond the engine's
/// 32-bit bound is rejected here, so no engine call is ever planned for it.
pub fn scan_memory(len: usize, flags: ScanFlags) -> (r: Result<ScanSession, Error>)
    ensures
        match r {
            Ok(s) => {
                &&& fits_engine_len(len)
                &&& s.wf()
                &&& s.spec_phase() == Phase::AwaitReply
                &&& s.history() == seq![BoundaryOp::CallEngine]
                &&& s.spec_call() matches EngineCall::ScanMemory { len: l, flags: f } && l == len
                    && f == flags.spec_bits()
            },
            Err(e) => !fits_engine_len(len) && e == Error::Overflow,
        },
{
    if len > u32::MAX as usize {
        return Err(Error::Overflow);
    }
    Ok(ScanSession::begin(EngineCall::ScanMemory { len: len as u32, flags: flags.bits() }))
}

/// Plans an in-memory scan through the database-aware entry point.
///
/// The database path is validated first, then the buffer length: a bad path
/// is reported even when the length is out of bounds too.
pub fn scan_memory_with_db(len: usize, flags: ScanFlags, db_path: Vec<u8>) -> (r: Result<
    ScanSession,
    Error,
>)
    ensures
        match r {
            Ok(s) => {
                &&& path_ok(db_path@)
                &&& fits_engine_len(len)
                &&& s.wf()
                &&& s.spec_phase() == Phase::AwaitReply
                &&& s.history() == seq![BoundaryOp::CallEngine]
                &&& s.spec_call() matches EngineCall::ScanMemoryWithDb { len: l, flags: f, db } && l
                    == len && f == flags.spec_bits() && db@ == db_path@
            },
            Err(e) => if !path_ok(db_path@) {
                path_rejected(db_path@, e)
            } else {
                !fits_engine_len(len) && e == Error::Overflow
            },
        },
{
    let db = CPath::new(db_path)?;
    if len > u32::MAX as usize {
        return Err(Error::Overflow);
    }
    Ok(
        ScanSession::begin(
            EngineCall::ScanMemoryWithDb { len: len as u32, flags: flags.bits(), db },
        ),
    )
}

/// A planned call to the engine's database-load entry point.
pub struct DatabaseLoad {
    path: CPath,
}

impl DatabaseLoad {
    /// The database path the engine is to load.
    pub closed spec fn spec_path(self) -> Seq<u8> {
        self.path@
    }

    /// The path's bytes, for marshalling at the boundary.
    pub fn path(&self) -> (r: &Vec<u8>)
        ensures
            r@ == self.spec_path(),
    {
        self.path.as_bytes()
    }
}

/// Plans a database load: validates the path and names the call to make.
///
/// Loading mutates engine-global state; it is meant as a one-time
/// initialization step before scanning begins.
pub fn load_database(path: Vec<u8>) -> (r: Result<DatabaseLoad, Error>)
    ensures
        match r {
            Ok(l) => path_ok(path@) && l.spec_path() == path@,
            Err(e) => path_rejected(path@, e),
        },
{
    let p = CPath::new(path)?;
    Ok(DatabaseLoad { path: p })
}

/// Interprets the status the database-load entry point returned: zero is
/// success, any other value is the engine's failure code, carried unchanged.
pub fn load_status(status: i32) -> (r: Result<(), Error>)
    ensures
        status == 0 <==> r is Ok,
        status != 0 ==> r == Err::<(), Error>(Error::Ffi { error_code: status }),
{
    if status == 0 {
        Ok(())
    } else {
        Err(Error::Ffi { error_code: status })
    }
}

} // verus!
