//! A recording kept for a later recognition.
use vstd::prelude::*;

use super::provider::error::{kind_is_permanent, RecognizeError};
use crate::song::{same_song, Song};

verus! {

/// Whether two recognition results are the same: both absent, the same
/// song, or the same error.
pub open spec fn same_result(a: Option<Result<Song, RecognizeError>>, b: Option<Result<Song, RecognizeError>>) -> bool {
    match (a, b) {
        (None, None) => true,
        (Some(Ok(x)), Some(Ok(y))) => same_song(x, y),
        (Some(Err(x)), Some(Err(y))) => x@ == y@,
        _ => false,
    }
}

/// Every result is the same as itself, so that setting a result that is
/// already there changes nothing.
pub proof fn same_result_is_reflexive(r: Option<Result<Song, RecognizeError>>)
    ensures
        same_result(r, r),
{
}

/// Two results are the same either way round.
pub proof fn same_result_is_symmetric(a: Option<Result<Song, RecognizeError>>, b: Option<Result<Song, RecognizeError>>)
    ensures
        same_result(a, b) == same_result(b, a),
{
}

/// A copy of a recognition result.
pub fn copy_result(r: &Option<Result<Song, RecognizeError>>) -> (c: Option<Result<Song, RecognizeError>>)
    ensures
        same_result(*r, c),
{
    match r {
        None => None,
        Some(Ok(song)) => Some(Ok(song.duplicate())),
        Some(Err(err)) => Some(Err(err.duplicate())),
    }
}

/// Whether two recognition results are the same.
pub fn results_equal(a: &Option<Result<Song, RecognizeError>>, b: &Option<Result<Song, RecognizeError>>) -> (r: bool)
    ensures
        r == same_result(*a, *b),
{
    match (a, b) {
        (None, None) => true,
        (Some(Ok(x)), Some(Ok(y))) => x.same_as(y),
        (Some(Err(x)), Some(Err(y))) => x.same_as(y),
        _ => false,
    }
}

/// The audio of one recognition attempt, with what became of it.
#[derive(Debug)]
pub struct Recording {
    id: String,
    bytes: Vec<u8>,
    /// When the recording started, in seconds since the UNIX epoch.
    recorded_time: i64,
    recognize_result: Option<Result<Song, RecognizeError>>,
    recognize_retries: u8,
}

/// Whether two recordings hold the same values.
pub open spec fn same_recording(a: Recording, b: Recording) -> bool {
    &&& a.spec_id() == b.spec_id()
    &&& a.spec_bytes() == b.spec_bytes()
    &&& a.spec_recorded_time() == b.spec_recorded_time()
    &&& same_result(a.spec_recognize_result(), b.spec_recognize_result())
    &&& a.spec_recognize_retries() == b.spec_recognize_retries()
}

impl Recording {
    pub closed spec fn spec_id(self) -> Seq<char> {
        self.id@
    }

    pub closed spec fn spec_bytes(self) -> Seq<u8> {
        self.bytes@
    }

    pub closed spec fn spec_recorded_time(self) -> i64 {
        self.recorded_time
    }

    pub closed spec fn spec_recognize_result(self) -> Option<Result<Song, RecognizeError>> {
        self.recognize_result
    }

    pub closed spec fn spec_recognize_retries(self) -> u8 {
        self.recognize_retries
    }

    /// This recording with its result replaced by `result`.
    pub closed spec fn spec_with_result(self, result: Option<Result<Song, RecognizeError>>) -> Recording {
        Recording { recognize_result: result, ..self }
    }

    /// This recording with one more retry counted.
    pub closed spec fn spec_with_one_more_retry(self) -> Recording {
        Recording { recognize_retries: (self.recognize_retries + 1) as u8, ..self }
    }

    /// A recording with no result yet and no retry.
    pub fn new(id: &str, bytes: Vec<u8>, recorded_time: i64) -> (r: Self)
        ensures
            r.spec_id() == id@,
            r.spec_bytes() == bytes@,
            r.spec_recorded_time() == recorded_time,
            r.spec_recognize_result() is None,
            r.spec_recognize_retries() == 0,
    {
        Recording { id: id.to_owned(), bytes, recorded_time, recognize_result: None, recognize_retries: 0 }
    }

    /// A recording as it was stored, with its result and no retry in this
    /// session.
    pub fn from_raw_parts(
        id: String,
        bytes: Vec<u8>,
        recorded_time: i64,
        recognize_result: Option<Result<Song, RecognizeError>>,
    ) -> (r: Self)
        ensures
            r.spec_id() == id@,
            r.spec_bytes() == bytes@,
            r.spec_recorded_time() == recorded_time,
            r.spec_recognize_result() == recognize_result,
            r.spec_recognize_retries() == 0,
    {
        Recording { id, bytes, recorded_time, recognize_result, recognize_retries: 0 }
    }

    pub fn id(&self) -> (r: &str)
        ensures
            r@ == self.spec_id(),
    {
        self.id.as_str()
    }

    pub fn bytes(&self) -> (r: &[u8])
        ensures
            r@ == self.spec_bytes(),
    {
        self.bytes.as_slice()
    }

    pub fn recorded_time(&self) -> (r: i64)
        ensures
            r == self.spec_recorded_time(),
    {
        self.recorded_time
    }

    pub fn recognize_result(&self) -> (r: &Option<Result<Song, RecognizeError>>)
        ensures
            *r == self.spec_recognize_result(),
    {
        &self.recognize_result
    }

    pub fn recognize_retries(&self) -> (r: u8)
        ensures
            r == self.spec_recognize_retries(),
    {
        self.recognize_retries
    }

    pub fn increment_recognize_retries(&mut self)
        requires
            old(self).spec_recognize_retries() < u8::MAX,
        ensures
            *final(self) == old(self).spec_with_one_more_retry(),
            final(self).spec_recognize_retries() == old(self).spec_recognize_retries() + 1,
            final(self).spec_id() == old(self).spec_id(),
            final(self).spec_bytes() == old(self).spec_bytes(),
            final(self).spec_recorded_time() == old(self).spec_recorded_time(),
            final(self).spec_recognize_result() == old(self).spec_recognize_result(),
    {
        self.recognize_retries = self.recognize_retries + 1;
    }

    /// Sets the result. Returns whether it changed, which is when a change
    /// is announced; setting the same result again leaves it as it was.
    pub fn set_recognize_result(&mut self, result: Option<Result<Song, RecognizeError>>) -> (changed: bool)
        ensures
            changed == !same_result(result, old(self).spec_recognize_result()),
            *final(self) == if changed {
                old(self).spec_with_result(result)
            } else {
                *old(self)
            },
            changed ==> final(self).spec_recognize_result() == result,
            !changed ==> final(self).spec_recognize_result() == old(self).spec_recognize_result(),
            final(self).spec_id() == old(self).spec_id(),
            final(self).spec_bytes() == old(self).spec_bytes(),
            final(self).spec_recorded_time() == old(self).spec_recorded_time(),
            final(self).spec_recognize_retries() == old(self).spec_recognize_retries(),
    {
        if results_equal(&result, &self.recognize_result) {
            return false;
        }
        self.recognize_result = result;
        true
    }

    /// A copy of this recording.
    pub fn duplicate(&self) -> (r: Self)
        ensures
            same_recording(*self, r),
    {
        Recording {
            id: self.id.clone(),
            bytes: self.bytes.clone(),
            recorded_time: self.recorded_time,
            recognize_result: copy_result(&self.recognize_result),
            recognize_retries: self.recognize_retries,
        }
    }
}

/// Counting a retry or setting the result changes nothing else of a
/// recording.
pub proof fn lemma_recording_updates(rec: Recording, result: Option<Result<Song, RecognizeError>>)
    ensures
        rec.spec_with_one_more_retry().spec_id() == rec.spec_id(),
        rec.spec_with_one_more_retry().spec_bytes() == rec.spec_bytes(),
        rec.spec_with_one_more_retry().spec_recorded_time() == rec.spec_recorded_time(),
        rec.spec_with_one_more_retry().spec_recognize_result() == rec.spec_recognize_result(),
        rec.spec_with_one_more_retry().spec_recognize_retries() == (rec.spec_recognize_retries() + 1) as u8,
        rec.spec_with_result(result).spec_id() == rec.spec_id(),
        rec.spec_with_result(result).spec_bytes() == rec.spec_bytes(),
        rec.spec_with_result(result).spec_recorded_time() == rec.spec_recorded_time(),
        rec.spec_with_result(result).spec_recognize_result() == result,
        rec.spec_with_result(result).spec_recognize_retries() == rec.spec_recognize_retries(),
{
}

/// Whether the recording's result is set and final: a song, or a
/// permanent error.
pub open spec fn is_ready_to_take(recording: Recording) -> bool {
    match recording.spec_recognize_result() {
        None => false,
        Some(Ok(_)) => true,
        Some(Err(err)) => kind_is_permanent(err@.0),
    }
}

/// Whether the recording is ready to be taken and its result is set and permanent
pub fn is_recording_ready_to_take(recording: &Recording) -> (r: bool)
    ensures
        r == is_ready_to_take(*recording),
{
    match recording.recognize_result() {
        None => false,
        Some(Ok(_)) => true,
        Some(Err(err)) => err.is_permanent(),
    }
}

} // verus!
