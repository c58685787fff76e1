//! The library side of an opened store: the state its operations consult and
//! the decisions made around each call into the native store.
use vstd::prelude::*;
use crate::cstr::{
    c_str_text, c_str_text_of, c_string_bytes, c_string_of, nul_free, session_ids,
    session_ids_readable, SESSION_ID_STRIDE,
};
use crate::error::FasterError;
use crate::units::TimeSpan;

verus! {

/// The outcome of a checkpoint taken by the native store.
#[derive(Debug)]
pub struct CheckPoint {
    /// Whether the native store completed the checkpoint.
    pub checked: bool,
    /// The token that names the checkpoint.
    pub token: String,
}

/// The outcome of a recovery by the native store.
#[derive(Debug)]
pub struct Recover {
    /// Status code of the recovery.
    pub status: u8,
    /// Version of the store that was recovered.
    pub version: u32,
    /// Identifiers of the sessions that were recovered.
    pub session_ids: Vec<String>,
}

/// An opened store: the native store's handle and the directory that holds its log,
/// if it keeps one on disk.
pub struct FasterKv<H> {
    handle: H,
    storage_dir: Option<String>,
}

impl<H> FasterKv<H> {
    /// The native store's handle.
    pub closed spec fn native(&self) -> H {
        self.handle
    }

    /// The directory that holds the store's log; `None` for a store kept in memory.
    pub closed spec fn storage(&self) -> Option<String> {
        self.storage_dir
    }

    /// The store with the given native handle and storage directory.
    pub(crate) fn new(handle: H, storage_dir: Option<String>) -> (kv: FasterKv<H>)
        ensures
            kv.native() == handle,
            kv.storage() == storage_dir,
    {
        FasterKv { handle, storage_dir }
    }

    /// The native store's handle.
    pub fn handle(&self) -> (h: &H)
        ensures
            *h == self.native(),
    {
        &self.handle
    }

    /// The directory that holds the store's log; `None` for a store kept in memory.
    pub fn storage_dir(&self) -> (d: &Option<String>)
        ensures
            *d == self.storage(),
    {
        &self.storage_dir
    }
}

/// A checkpoint result as the native store hands it over: whether the checkpoint
/// completed, and the buffer that holds its token as a C string.
#[derive(Debug)]
pub struct NativeCheckPoint {
    pub checked: bool,
    pub token: Vec<u8>,
}

/// A recovery result as the native store hands it over: its status and version, and
/// `session_ids_count` session identifiers laid out as C strings in `session_ids`, one
/// every [`SESSION_ID_STRIDE`] bytes.
#[derive(Debug)]
pub struct NativeRecover {
    pub status: u8,
    pub version: u32,
    pub session_ids_count: usize,
    pub session_ids: Vec<u8>,
}

/// Whether a native checkpoint result can be read: its token is a UTF-8 C string.
pub open spec fn checkpoint_readable(o: Option<NativeCheckPoint>) -> bool {
    o matches Some(raw) ==> c_str_text_of(raw.token@) is Some
}

/// Whether a native recovery result can be read: its buffer holds every session
/// identifier it announces, each a UTF-8 C string.
pub open spec fn recovery_readable(o: Option<NativeRecover>) -> bool {
    o matches Some(raw) ==> {
        &&& raw.session_ids_count * SESSION_ID_STRIDE <= raw.session_ids@.len()
        &&& session_ids_readable(raw.session_ids@, raw.session_ids_count as nat)
    }
}

/// What a checkpoint of `kv` returns, given the native checkpoint `native_checkpoint`:
/// a store kept in memory is refused; otherwise a missing native result is a failed
/// checkpoint, and a present one gives its completion flag and the text of its token.
pub open spec fn checkpoint_outcome<H, F: FnOnce(&H) -> Option<NativeCheckPoint>>(
    kv: FasterKv<H>,
    native_checkpoint: F,
    r: Result<CheckPoint, FasterError>,
) -> bool {
    match kv.storage() {
        None => r == Err::<CheckPoint, FasterError>(FasterError::InvalidType),
        Some(_) => exists|o: Option<NativeCheckPoint>|
            {
                &&& #[trigger] native_checkpoint.ensures((&kv.native(),), o)
                &&& match o {
                    None => r == Err::<CheckPoint, FasterError>(FasterError::CheckpointError),
                    Some(raw) => r matches Ok(c) && c.checked == raw.checked && c_str_text_of(
                        raw.token@,
                    ) == Some(c.token@),
                }
            },
    }
}

/// What the native checkpoint must be for a checkpoint of `kv`: callable on the store's
/// handle, with a readable result, wherever the store keeps its log on disk.
pub open spec fn checkpoint_callable<H, F: FnOnce(&H) -> Option<NativeCheckPoint>>(
    kv: FasterKv<H>,
    native_checkpoint: F,
) -> bool {
    kv.storage() is Some ==> {
        &&& native_checkpoint.requires((&kv.native(),))
        &&& forall|o: Option<NativeCheckPoint>| #[trigger]
            native_checkpoint.ensures((&kv.native(),), o) ==> checkpoint_readable(o)
    }
}

/// What a recovery of `kv` from the two checkpoint tokens returns, given the native
/// recovery `native_recover`, which receives the tokens as C strings: a store kept in
/// memory is refused; otherwise a missing native result is a failed recovery, and a
/// present one gives its status, its version and the session identifiers read from its
/// buffer, in order.
pub open spec fn recover_outcome<H, F: FnOnce(&H, Vec<u8>, Vec<u8>) -> Option<NativeRecover>>(
    kv: FasterKv<H>,
    index_token: Seq<char>,
    hybrid_log_token: Seq<char>,
    native_recover: F,
    r: Result<Recover, FasterError>,
) -> bool {
    match kv.storage() {
        None => r == Err::<Recover, FasterError>(FasterError::InvalidType),
        Some(_) => exists|a: Vec<u8>, b: Vec<u8>, o: Option<NativeRecover>|
            {
                &&& c_string_of(index_token) == Some(a@)
                &&& c_string_of(hybrid_log_token) == Some(b@)
                &&& #[trigger] native_recover.ensures((&kv.native(), a, b), o)
                &&& match o {
                    None => r == Err::<Recover, FasterError>(FasterError::RecoveryError),
                    Some(raw) => r matches Ok(rec) && {
                        &&& rec.status == raw.status
                        &&& rec.version == raw.version
                        &&& rec.session_ids@.len() == raw.session_ids_count
                        &&& forall|i: int|
                            0 <= i < raw.session_ids_count ==> c_str_text_of(
                                raw.session_ids@.skip(i * SESSION_ID_STRIDE),
                            ) == Some(#[trigger] rec.session_ids@[i]@)
                    },
                }
            },
    }
}

/// Whether a refresh is due at clock reading `at` when the last refresh was at `last`:
/// the time elapsed since `last` (none where the clock reads earlier) is at least `every`.
pub open spec fn refresh_due(last: TimeSpan, at: TimeSpan, every: TimeSpan) -> bool {
    (if at@ >= last@ {
        (at@ - last@) as nat
    } else {
        0nat
    }) >= every@
}

impl<H> FasterKv<H> {
    fn checkpoint_with<F: FnOnce(&H) -> Option<NativeCheckPoint>>(&self, native_checkpoint: F) -> (r:
        Result<CheckPoint, FasterError>)
        requires
            checkpoint_callable(*self, native_checkpoint),
        ensures
            checkpoint_outcome(*self, native_checkpoint, r),
    {
        if self.storage_dir.is_none() {
            return Err(FasterError::InvalidType);
        }
        let result = native_checkpoint(&self.handle);
        match result {
            None => Err(FasterError::CheckpointError),
            Some(raw) => {
                assert(checkpoint_readable(Some(raw)));
                let token = c_str_text(raw.token.as_slice()).unwrap();
                Ok(CheckPoint { checked: raw.checked, token })
            },
        }
    }

    /// Takes a full checkpoint with `native_checkpoint`; refused for a store kept in memory.
    pub fn checkpoint<F: FnOnce(&H) -> Option<NativeCheckPoint>>(&self, native_checkpoint: F) -> (r:
        Result<CheckPoint, FasterError>)
        requires
            checkpoint_callable(*self, native_checkpoint),
        ensures
            checkpoint_outcome(*self, native_checkpoint, r),
    {
        self.checkpoint_with(native_checkpoint)
    }

    /// Takes a checkpoint of the hash index with `native_checkpoint`; refused for a store
    /// kept in memory.
    pub fn checkpoint_index<F: FnOnce(&H) -> Option<NativeCheckPoint>>(
        &self,
        native_checkpoint: F,
    ) -> (r: Result<CheckPoint, FasterError>)
        requires
            checkpoint_callable(*self, native_checkpoint),
        ensures
            checkpoint_outcome(*self, native_checkpoint, r),
    {
        self.checkpoint_with(native_checkpoint)
    }

    /// Takes a checkpoint of the hybrid log with `native_checkpoint`; refused for a store
    /// kept in memory.
    pub fn checkpoint_hybrid_log<F: FnOnce(&H) -> Option<NativeCheckPoint>>(
        &self,
        native_checkpoint: F,
    ) -> (r: Result<CheckPoint, FasterError>)
        requires
            checkpoint_callable(*self, native_checkpoint),
        ensures
            checkpoint_outcome(*self, native_checkpoint, r),
    {
        self.checkpoint_with(native_checkpoint)
    }

    /// Recovers the store from an index checkpoint and a hybrid-log checkpoint with
    /// `native_recover`, which receives both tokens as C strings; refused for a store
    /// kept in memory.
    pub fn recover<F: FnOnce(&H, Vec<u8>, Vec<u8>) -> Option<NativeRecover>>(
        &self,
        index_token: String,
        hybrid_log_token: String,
        native_recover: F,
    ) -> (r: Result<Recover, FasterError>)
        requires
            self.storage() is Some ==> {
                &&& nul_free(index_token@)
                &&& nul_free(hybrid_log_token@)
                &&& forall|a: Vec<u8>, b: Vec<u8>| #[trigger]
                    native_recover.requires((&self.native(), a, b))
                &&& forall|a: Vec<u8>, b: Vec<u8>, o: Option<NativeRecover>| #[trigger]
                    native_recover.ensures((&self.native(), a, b), o) ==> recovery_readable(o)
            },
        ensures
            recover_outcome(*self, index_token@, hybrid_log_token@, native_recover, r),
    {
        if self.storage_dir.is_none() {
            return Err(FasterError::InvalidType);
        }
        let index_c = c_string_bytes(index_token.as_str()).unwrap();
        let hybrid_c = c_string_bytes(hybrid_log_token.as_str()).unwrap();
        let ghost (a, b) = (index_c, hybrid_c);
        let result = native_recover(&self.handle, index_c, hybrid_c);
        assert(native_recover.ensures((&self.native(), a, b), result));
        match result {
            None => Err(FasterError::RecoveryError),
            Some(raw) => {
                assert(recovery_readable(Some(raw)));
                let ids = session_ids(raw.session_ids.as_slice(), raw.session_ids_count).unwrap();
                Ok(Recover { status: raw.status, version: raw.version, session_ids: ids })
            },
        }
    }

    /// Continues a recovered session with `native_continue`, which receives the session
    /// token as a C string, and returns what it answers: the serial number up to which
    /// the session was persisted.
    pub fn continue_session<F: FnOnce(&H, Vec<u8>) -> u64>(
        &self,
        token: String,
        native_continue: F,
    ) -> (serial: u64)
        requires
            nul_free(token@),
            forall|a: Vec<u8>| native_continue.requires((&self.native(), a)),
        ensures
            exists|a: Vec<u8>|
                {
                    &&& c_string_of(token@) == Some(a@)
                    &&& #[trigger] native_continue.ensures((&self.native(), a), serial)
                },
    {
        let token_c = c_string_bytes(token.as_str()).unwrap();
        let ghost a = token_c;
        let serial = native_continue(&self.handle, token_c);
        assert(native_continue.ensures((&self.native(), a), serial));
        serial
    }

    /// Removes the storage directory with `remove_dir_all`. A store kept in memory has
    /// nothing to remove and succeeds at once; a failure to remove the directory is
    /// reported as a file-system error.
    pub fn clean_storage<F: FnOnce(&String) -> Result<(), std::io::Error>>(
        &self,
        remove_dir_all: F,
    ) -> (r: Result<(), FasterError>)
        requires
            self.storage() matches Some(dir) ==> remove_dir_all.requires((&dir,)),
        ensures
            match self.storage() {
                None => r is Ok,
                Some(dir) => exists|o: Result<(), std::io::Error>|
                    {
                        &&& #[trigger] remove_dir_all.ensures((&dir,), o)
                        &&& r == match o {
                            Ok(()) => Ok::<(), FasterError>(()),
                            Err(e) => Err::<(), FasterError>(FasterError::IOError(e)),
                        }
                    },
            },
    {
        match &self.storage_dir {
            None => Ok(()),
            Some(dir) => {
                let removed = remove_dir_all(dir);
                match removed {
                    Ok(()) => Ok(()),
                    Err(e) => Err(FasterError::IOError(e)),
                }
            },
        }
    }

    /// Whether the session is due for a refresh at clock reading `at`, the last refresh
    /// having been at `last` and the refresh interval being `every`. The caller refreshes
    /// exactly when this answers `true`, and then records the refresh.
    pub fn refresh_if_due(&self, last: &TimeSpan, every: TimeSpan, at: TimeSpan) -> (due: bool)
        ensures
            due == refresh_due(*last, at, every),
    {
        let elapsed = at.saturating_sub(last);
        elapsed.at_least(&every)
    }

    /// Records a refresh just made: the last-refresh time becomes `now`, a clock reading
    /// taken after the refresh.
    pub fn record_refresh(&self, last: &mut TimeSpan, now: TimeSpan)
        ensures
            *final(last) == now,
    {
        *last = now;
    }
}

/// Refreshes are at least `every` apart: where a refresh set the last-refresh time to
/// `last`, a later refresh is due only at a clock reading at least `every` after it
/// (or at any reading where `every` is empty).
pub proof fn lemma_refreshes_spaced(last: TimeSpan, at: TimeSpan, every: TimeSpan)
    requires
        refresh_due(last, at, every),
    ensures
        every@ == 0 || at@ >= last@ + every@,
{
}

/// A refresh recorded at a reading `now` taken after a due decision at `at` moves the
/// last-refresh time forward by at least `every`, where the clock does not run backwards.
pub proof fn lemma_recorded_refresh_advances(last: TimeSpan, at: TimeSpan, now: TimeSpan, every: TimeSpan)
    requires
        refresh_due(last, at, every),
        at@ >= last@,
        now@ >= at@,
    ensures
        now@ >= last@ + every@,
{
}

/// A refresh is due exactly when at least `every` has elapsed since the last one, the
/// whole elapsed time counted; where the clock reads earlier than the last refresh, no
/// time has elapsed and a refresh is due only for an empty interval.
pub proof fn lemma_refresh_due_exactly(last: TimeSpan, at: TimeSpan, every: TimeSpan)
    ensures
        at@ >= last@ ==> (refresh_due(last, at, every) <==> at@ - last@ >= every@),
        at@ >= last@ + every@ ==> refresh_due(last, at, every),
        at@ < last@ ==> (refresh_due(last, at, every) <==> every@ == 0),
{
}

/// No refresh is made while less than `every` has elapsed since the last one.
pub proof fn lemma_no_early_refresh(last: TimeSpan, at: TimeSpan, every: TimeSpan)
    requires
        at@ >= last@,
        at@ - last@ < every@,
    ensures
        !refresh_due(last, at, every),
{
}

} // verus!
