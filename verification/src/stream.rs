//! The steps of storing the body of an answer in a file.

use std::time::Instant;
use vstd::prelude::*;

use crate::error::{CacheEntry, CacheError};
use crate::measure::{
    bytes_sum, clock_shows, Measurement, MeasureSourceDownloadGuard, STREAM_TASK,
};

verus! {

/// What a [`StreamDownload`] waits for.
#[derive(Clone, Copy, Debug, PartialEq, Eq, Structural)]
pub enum StreamPhase {
    /// The next chunk of the stream.
    Reading,
    /// A chunk to be written.
    Writing,
    /// The file to be flushed.
    Flushing,
    /// Nothing any more.
    Finished,
}

/// The download of a stream into a file.
///
/// This is common functionality used by many downloaders. It is carried out chunk by chunk: each
/// step tells what to do next, and the outcome of that goes into the next step.
#[derive(Debug)]
pub struct StreamDownload<'a> {
    phase: StreamPhase,
    throughput_recorder: Option<MeasureSourceDownloadGuard<'a>>,
}

/// The next thing to do in a [`StreamDownload`].
///
/// `B` is the type of a chunk.
#[derive(Debug)]
pub enum StreamStep<'a, B> {
    /// Read the next chunk.
    Read,
    /// Write the chunk, which is the one that was read.
    Write(B),
    /// Flush the file. The measurement is over and can be reported.
    Flush(MeasureSourceDownloadGuard<'a>),
    /// Give up with an error. The measurement is over and can be reported.
    Fail(MeasureSourceDownloadGuard<'a>, CacheError),
}

/// The state of a [`StreamDownload`].
pub struct StreamState {
    /// What it waits for.
    pub phase: StreamPhase,
    /// What has been measured, as long as the measurement goes on.
    pub recorded: Option<Measurement>,
}

impl<'a> View for StreamDownload<'a> {
    type V = StreamState;

    closed spec fn view(&self) -> StreamState {
        StreamState {
            phase: self.phase,
            recorded: match self.throughput_recorder {
                Some(recorder) => Some(recorder@),
                None => None,
            },
        }
    }
}

/// What a download does after the stream was asked for its next chunk. The measurement is the one
/// that ends with this.
pub enum ReadStep<B> {
    /// Write the chunk.
    Write(B),
    /// Flush the file.
    Flush(Measurement),
    /// Give up with an error.
    Fail(Measurement, CacheError),
}

/// What a download does after an attempt to write a chunk. The measurement is the one that ends
/// with this.
pub enum WriteStep {
    /// Read the next chunk.
    Read,
    /// Give up with an error.
    Fail(Measurement, CacheError),
}

impl StreamState {
    /// The measurement goes on exactly as long as there is something to read or write.
    pub open spec fn wf(&self) -> bool {
        self.recorded is Some <==> self.phase is Reading || self.phase is Writing
    }

    /// The download of a file that was created at the given moment.
    pub open spec fn started(source_name: Seq<char>, created: Instant) -> StreamState {
        StreamState {
            phase: StreamPhase::Reading,
            recorded: Some(Measurement::started(STREAM_TASK@, source_name, created)),
        }
    }

    /// This download after a chunk of the given length has been read.
    pub open spec fn after_read(self, length: u64) -> StreamState {
        StreamState {
            phase: StreamPhase::Writing,
            recorded: Some(self.recorded->0.with_bytes(length)),
        }
    }

    /// This download after a chunk has been written.
    pub open spec fn after_write(self) -> StreamState {
        StreamState { phase: StreamPhase::Reading, recorded: self.recorded }
    }

    /// A download that is over, or has only the flushing left.
    pub open spec fn ended(phase: StreamPhase) -> StreamState {
        StreamState { phase, recorded: None }
    }

    /// This download after the stream was asked for its next chunk, and what it does then.
    ///
    /// `chunk` is nothing if the stream has ended. Otherwise it is the chunk with the number of its
    /// bytes, or the error that the stream failed with.
    pub open spec fn read_step<B>(self, chunk: Option<CacheEntry<(B, u64)>>) -> (
        StreamState,
        ReadStep<B>,
    ) {
        match chunk {
            Some(Ok((bytes, length))) => (self.after_read(length), ReadStep::Write(bytes)),
            Some(Err(error)) => (
                StreamState::ended(StreamPhase::Finished),
                ReadStep::Fail(self.recorded->0, error),
            ),
            None => (
                StreamState::ended(StreamPhase::Flushing),
                ReadStep::Flush(self.recorded->0),
            ),
        }
    }

    /// This download after an attempt to write a chunk, and what it does then.
    pub open spec fn write_step(self, written: CacheEntry<()>) -> (StreamState, WriteStep) {
        match written {
            Ok(_) => (self.after_write(), WriteStep::Read),
            Err(error) => (
                StreamState::ended(StreamPhase::Finished),
                WriteStep::Fail(self.recorded->0, error),
            ),
        }
    }

    /// This download after an attempt to flush the file, and its result.
    pub open spec fn flush_step(self, flushed: CacheEntry<()>) -> (StreamState, CacheEntry<()>) {
        (StreamState::ended(StreamPhase::Finished), flushed)
    }
}

/// A measurement that ended with the given result: the status is one that `status_of` gives.
pub open spec fn ended_with<S>(
    before: Measurement,
    after: Measurement,
    result: CacheEntry<()>,
    status_of: S,
) -> bool where S: Fn(&CacheEntry<()>) -> &'static str {
    exists|status: &'static str|
        {
            &&& #[trigger] call_ensures(status_of, (&result,), status)
            &&& after == before.with_status(status@)
        }
}

/// The result can be turned into a status, whatever it is.
pub open spec fn gives_status<S>(status_of: S) -> bool where
    S: Fn(&CacheEntry<()>) -> &'static str,
 {
    forall|result: &CacheEntry<()>| #[trigger] call_requires(status_of, (result,))
}

impl<'a, B> StreamStep<'a, B> {
    /// This is the given step after reading. A measurement that has ended got a status that
    /// `status_of` gives.
    pub open spec fn follows_reading<S>(self, step: ReadStep<B>, status_of: S) -> bool where
        S: Fn(&CacheEntry<()>) -> &'static str,
     {
        match step {
            ReadStep::Write(bytes) => self == StreamStep::<'a, B>::Write(bytes),
            ReadStep::Flush(measured) => {
                &&& self matches StreamStep::Flush(recorder)
                &&& ended_with(measured, recorder@, Ok(()), status_of)
            },
            ReadStep::Fail(measured, error) => self.fails(measured, error, status_of),
        }
    }

    /// This is the given step after writing. A measurement that has ended got a status that
    /// `status_of` gives.
    pub open spec fn follows_writing<S>(self, step: WriteStep, status_of: S) -> bool where
        S: Fn(&CacheEntry<()>) -> &'static str,
     {
        match step {
            WriteStep::Read => self is Read,
            WriteStep::Fail(measured, error) => self.fails(measured, error, status_of),
        }
    }

    /// This gives up with the given error, and the measurement has ended with it.
    pub open spec fn fails<S>(
        self,
        measured: Measurement,
        error: CacheError,
        status_of: S,
    ) -> bool where S: Fn(&CacheEntry<()>) -> &'static str {
        &&& self matches StreamStep::Fail(recorder, cause)
        &&& cause == error
        &&& ended_with(measured, recorder@, Err(error), status_of)
    }
}

impl<'a> StreamDownload<'a> {
    /// Starts the download after an attempt to create the file, which is handed on.
    pub fn download_stream<H>(created: CacheEntry<H>, source_name: &'a str) -> (started: CacheEntry<
        (H, Self),
    >)
        ensures
            match created {
                Ok(file) => {
                    &&& started matches Ok((same, download))
                    &&& same == file
                    &&& clock_shows(download@.recorded->0.created)
                    &&& download@ == StreamState::started(
                        source_name@,
                        download@.recorded->0.created,
                    )
                    &&& download@.wf()
                },
                Err(error) => started == Err::<(H, Self), CacheError>(error),
            },
    {
        match created {
            Ok(file) => {
                let recorder = MeasureSourceDownloadGuard::new(STREAM_TASK, source_name);
                let download = StreamDownload {
                    phase: StreamPhase::Reading,
                    throughput_recorder: Some(recorder),
                };
                Ok((file, download))
            },
            Err(error) => Err(error),
        }
    }

    /// Ends the measurement with the given result.
    fn end<S>(&mut self, result: &CacheEntry<()>, status_of: S, phase: StreamPhase) -> (recorder:
        MeasureSourceDownloadGuard<'a>) where S: Fn(&CacheEntry<()>) -> &'static str
        requires
            old(self)@.recorded is Some,
            gives_status(status_of),
        ensures
            final(self)@ == StreamState::ended(phase),
            ended_with(old(self)@.recorded->0, recorder@, *result, status_of),
    {
        let recorder = self.throughput_recorder.take().unwrap();
        self.phase = phase;
        recorder.done(result, status_of)
    }

    /// Goes on after the stream was asked for its next chunk.
    ///
    /// `chunk` is nothing if the stream has ended. Otherwise it is the chunk with the number of its
    /// bytes, or the error that the stream failed with. `status_of` gives the status that goes with
    /// a result.
    pub fn chunk_read<B, S>(
        &mut self,
        chunk: Option<CacheEntry<(B, u64)>>,
        status_of: S,
    ) -> (step: StreamStep<'a, B>) where S: Fn(&CacheEntry<()>) -> &'static str
        requires
            old(self)@.wf(),
            old(self)@.phase is Reading,
            gives_status(status_of),
        ensures
            final(self)@.wf(),
            final(self)@ == old(self)@.read_step(chunk).0,
            step.follows_reading(old(self)@.read_step(chunk).1, status_of),
    {
        match chunk {
            Some(Ok((bytes, length))) => {
                let mut recorder = self.throughput_recorder.take().unwrap();
                recorder.add_bytes_transferred(length);
                self.throughput_recorder = Some(recorder);
                self.phase = StreamPhase::Writing;
                StreamStep::Write(bytes)
            },
            Some(Err(error)) => self.fail(error, status_of),
            None => StreamStep::Flush(self.end(&Ok(()), status_of, StreamPhase::Flushing)),
        }
    }

    /// Ends the download with the given error.
    fn fail<B, S>(&mut self, error: CacheError, status_of: S) -> (step: StreamStep<'a, B>) where
        S: Fn(&CacheEntry<()>) -> &'static str,

        requires
            old(self)@.recorded is Some,
            gives_status(status_of),
        ensures
            step.fails(old(self)@.recorded->0, error, status_of),
            final(self)@ == StreamState::ended(StreamPhase::Finished),
    {
        let result: CacheEntry<()> = Err(error);
        let recorder = self.end(&result, status_of, StreamPhase::Finished);
        StreamStep::Fail(recorder, result.unwrap_err())
    }

    /// Goes on after an attempt to write the chunk that was read.
    ///
    /// `status_of` gives the status that goes with a result.
    pub fn chunk_written<B, S>(&mut self, written: CacheEntry<()>, status_of: S) -> (step:
        StreamStep<'a, B>) where S: Fn(&CacheEntry<()>) -> &'static str
        requires
            old(self)@.wf(),
            old(self)@.phase is Writing,
            gives_status(status_of),
        ensures
            final(self)@.wf(),
            final(self)@ == old(self)@.write_step(written).0,
            step.follows_writing(old(self)@.write_step(written).1, status_of),
    {
        match written {
            Ok(()) => {
                self.phase = StreamPhase::Reading;
                StreamStep::Read
            },
            Err(error) => self.fail(error, status_of),
        }
    }

    /// Ends the download after an attempt to flush the file, and returns its result.
    pub fn flushed(&mut self, flushed: CacheEntry<()>) -> (result: CacheEntry<()>)
        requires
            old(self)@.phase is Flushing,
        ensures
            final(self)@ == old(self)@.flush_step(flushed).0,
            result == old(self)@.flush_step(flushed).1,
    {
        self.phase = StreamPhase::Finished;
        self.throughput_recorder = None;
        flushed
    }

    /// Gives the download up, wherever it stands. The result is the measurement that is to be
    /// reported, if it was still going on.
    pub fn give_up(&mut self) -> (recorder: Option<MeasureSourceDownloadGuard<'a>>)
        ensures
            final(self)@ == StreamState::ended(StreamPhase::Finished),
            match recorder {
                Some(guard) => old(self)@.recorded == Some(guard@),
                None => old(self)@.recorded is None,
            },
    {
        self.phase = StreamPhase::Finished;
        self.throughput_recorder.take()
    }
}

/// What came of reading a chunk of a stream, and of writing it if it could be read.
pub type Transfer<B> = (CacheEntry<(B, u64)>, CacheEntry<()>);

/// How a download ended.
pub struct StreamOutcome<B> {
    /// Its result.
    pub result: CacheEntry<()>,
    /// What has been measured until then.
    pub measured: Measurement,
    /// The chunks that have been written, in this order.
    pub written: Seq<B>,
}

/// How a download ends: one step of [`StreamDownload`] after the other, as long as there is
/// something to read.
pub open spec fn carry_out<B>(
    state: StreamState,
    transfers: Seq<Transfer<B>>,
    flushed: CacheEntry<()>,
) -> StreamOutcome<B>
    decreases transfers.len(),
{
    let chunk = if transfers.len() == 0 {
        None
    } else {
        Some(transfers.first().0)
    };
    match state.read_step(chunk) {
        (writing, ReadStep::Write(bytes)) => match writing.write_step(transfers.first().1) {
            (reading, WriteStep::Read) => {
                let rest = carry_out(reading, transfers.drop_first(), flushed);
                StreamOutcome { written: seq![bytes] + rest.written, ..rest }
            },
            (_, WriteStep::Fail(measured, error)) => StreamOutcome {
                result: Err(error),
                measured,
                written: Seq::empty(),
            },
        },
        (flushing, ReadStep::Flush(measured)) => StreamOutcome {
            result: flushing.flush_step(flushed).1,
            measured,
            written: Seq::empty(),
        },
        (_, ReadStep::Fail(measured, error)) => StreamOutcome {
            result: Err(error),
            measured,
            written: Seq::empty(),
        },
    }
}

/// All chunks could be read and written.
pub open spec fn all_stored<B>(transfers: Seq<Transfer<B>>) -> bool {
    forall|i: int|
        0 <= i < transfers.len() ==> #[trigger] transfers[i].0 is Ok && transfers[i].1 is Ok
}

/// The chunks that were read, as long as reading went well.
pub open spec fn chunks<B>(transfers: Seq<Transfer<B>>) -> Seq<B> {
    Seq::new(transfers.len(), |i: int| transfers[i].0->Ok_0.0)
}

/// The bytes of some chunks, one chunk after the other. `bytes_of` gives the bytes of one chunk.
pub open spec fn joined<B>(chunks: Seq<B>, bytes_of: spec_fn(B) -> Seq<u8>) -> Seq<u8>
    decreases chunks.len(),
{
    if chunks.len() == 0 {
        Seq::empty()
    } else {
        joined(chunks.drop_last(), bytes_of) + bytes_of(chunks.last())
    }
}

/// The number of bytes in all chunks that could be read.
pub open spec fn total_length<B>(transfers: Seq<Transfer<B>>) -> nat
    decreases transfers.len(),
{
    if transfers.len() == 0 {
        0
    } else {
        total_length(transfers.drop_last()) + match transfers.last().0 {
            Ok((_, length)) => length as nat,
            Err(_) => 0,
        }
    }
}

/// The error of the first of some failures, reading coming before writing.
pub open spec fn failure<B>(transfer: Transfer<B>) -> Option<CacheError> {
    match transfer {
        (Err(error), _) => Some(error),
        (Ok(_), Err(error)) => Some(error),
        (Ok(_), Ok(_)) => None,
    }
}

proof fn lemma_total_length_from_the_front<B>(transfers: Seq<Transfer<B>>)
    requires
        transfers.len() > 0,
    ensures
        total_length(transfers) == total_length(transfers.drop_first())
            + match transfers.first().0 {
            Ok((_, length)) => length as nat,
            Err(_) => 0nat,
        },
    decreases transfers.len(),
{
    let rest = transfers.drop_first();
    if rest.len() == 0 {
        assert(transfers.drop_last() == Seq::<Transfer<B>>::empty());
        assert(total_length(transfers.drop_last()) == 0);
        assert(total_length(rest) == 0);
    } else {
        lemma_total_length_from_the_front(transfers.drop_last());
        assert(transfers.drop_last().first() == transfers.first());
        assert(transfers.drop_last().drop_first() == rest.drop_last());
        assert(rest.last() == transfers.last());
    }
}

/// The measurement after some chunks have been counted.
spec fn counted<B>(before: Measurement, transfers: Seq<Transfer<B>>) -> Measurement {
    if transfers.len() == 0 {
        before
    } else {
        Measurement {
            bytes_transferred: Some(
                bytes_sum(before.bytes() as int, total_length(transfers) as int) as u64,
            ),
            ..before
        }
    }
}

proof fn lemma_stored_chunks_are_counted<B>(
    state: StreamState,
    stored: Seq<Transfer<B>>,
    rest: Seq<Transfer<B>>,
    flushed: CacheEntry<()>,
)
    requires
        state.recorded is Some,
        all_stored(stored),
    ensures
        ({
            let after = carry_out(
                StreamState {
                    phase: if stored.len() == 0 {
                        state.phase
                    } else {
                        StreamPhase::Reading
                    },
                    recorded: Some(counted(state.recorded->0, stored)),
                },
                rest,
                flushed,
            );
            let outcome = carry_out(state, stored + rest, flushed);
            &&& outcome.result == after.result
            &&& outcome.measured == after.measured
            &&& outcome.written == chunks(stored) + after.written
        }),
    decreases stored.len(),
{
    if stored.len() == 0 {
        assert(stored + rest == rest);
        assert(chunks(stored) == Seq::<B>::empty());
    } else {
        let transfer = stored.first();
        assert(stored[0].0 is Ok);
        let (bytes, length) = transfer.0->Ok_0;
        let next = state.after_read(length).after_write();
        let tail = stored.drop_first();
        assert((stored + rest).first() == transfer);
        assert((stored + rest).drop_first() == tail + rest);
        assert forall|i: int| 0 <= i < tail.len() implies #[trigger] tail[i].0 is Ok
            && tail[i].1 is Ok by {
            assert(stored[i + 1].0 is Ok);
        }
        lemma_stored_chunks_are_counted(next, tail, rest, flushed);
        lemma_total_length_from_the_front(stored);
        assert(counted(next.recorded->0, tail) == counted(state.recorded->0, stored));
        assert(chunks(stored) == seq![bytes] + chunks(tail));
    }
}

proof fn lemma_failed_chunks_end_the_download<B>(
    state: StreamState,
    transfers: Seq<Transfer<B>>,
    flushed: CacheEntry<()>,
    at: int,
)
    requires
        state.recorded is Some,
        0 <= at < transfers.len(),
        all_stored(transfers.take(at)),
        failure(transfers[at]) is Some,
    ensures
        ({
            let outcome = carry_out(state, transfers, flushed);
            &&& outcome.result == Err::<(), CacheError>(failure(transfers[at])->0)
            &&& outcome.measured.bytes() == bytes_sum(
                state.recorded->0.bytes() as int,
                total_length(transfers.take(at + 1)) as int,
            )
            &&& outcome.measured.created == state.recorded->0.created
            &&& outcome.written == chunks(transfers.take(at))
        }),
{
    let stored = transfers.take(at);
    let rest = transfers.skip(at);
    lemma_stored_chunks_are_counted(state, stored, rest, flushed);
    assert(stored + rest == transfers);
    assert(rest.first() == transfers[at]);
    assert(transfers.take(at + 1).drop_last() == stored);
    assert(transfers.take(at + 1).last() == transfers[at]);
}

/// The first transfer that failed, if any did.
proof fn lemma_first_failure<B>(transfers: Seq<Transfer<B>>) -> (at: int)
    requires
        !all_stored(transfers),
    ensures
        0 <= at < transfers.len(),
        all_stored(transfers.take(at)),
        failure(transfers[at]) is Some,
    decreases transfers.len(),
{
    let front = transfers.drop_last();
    if all_stored(front) {
        let at = transfers.len() - 1;
        assert(transfers.take(at) == front);
        if failure(transfers[at]) is None {
            assert forall|i: int| 0 <= i < transfers.len() implies #[trigger] transfers[i].0 is Ok
                && transfers[i].1 is Ok by {
                if i < at {
                    assert(front[i].0 is Ok);
                }
            }
        }
        at
    } else {
        let at = lemma_first_failure(front);
        assert(transfers.take(at) == front.take(at));
        at
    }
}

/// A download of which every chunk could be stored ends like the flushing of the file, and all its
/// bytes have been counted.
pub proof fn law_stored_downloads_are_counted_in_full<B>(
    source_name: Seq<char>,
    created: Instant,
    transfers: Seq<Transfer<B>>,
    flushed: CacheEntry<()>,
)
    requires
        all_stored(transfers),
    ensures
        ({
            let outcome = carry_out(
                StreamState::started(source_name, created),
                transfers,
                flushed,
            );
            &&& outcome.result == flushed
            &&& outcome.measured.bytes() == bytes_sum(0, total_length(transfers) as int)
            &&& outcome.measured.bytes_transferred is None <==> transfers.len() == 0
            &&& outcome.measured.created == created
        }),
{
    let empty = Seq::<Transfer<B>>::empty();
    lemma_stored_chunks_are_counted(
        StreamState::started(source_name, created),
        transfers,
        empty,
        flushed,
    );
    assert(transfers + empty == transfers);
}

/// A download ends with the first failure, however many chunks there are left and whether or not
/// the file could be flushed. A chunk that could be read is counted even if it could not be
/// written. The chunks before it have been written, and none after it.
pub proof fn law_downloads_end_with_the_first_failure<B>(
    source_name: Seq<char>,
    created: Instant,
    transfers: Seq<Transfer<B>>,
    flushed: CacheEntry<()>,
    at: int,
)
    requires
        0 <= at < transfers.len(),
        all_stored(transfers.take(at)),
        failure(transfers[at]) is Some,
    ensures
        ({
            let outcome = carry_out(
                StreamState::started(source_name, created),
                transfers,
                flushed,
            );
            &&& outcome.result == Err::<(), CacheError>(failure(transfers[at])->0)
            &&& outcome.measured.bytes() == bytes_sum(
                0,
                total_length(transfers.take(at + 1)) as int,
            )
            &&& outcome.measured.created == created
            &&& outcome.written == chunks(transfers.take(at))
        }),
{
    lemma_failed_chunks_end_the_download(
        StreamState::started(source_name, created),
        transfers,
        flushed,
        at,
    );
}

/// A download that succeeds has written exactly the chunks of the stream, in their order, and
/// nothing else. It starts with a file that has just been created, which is empty, so that the file
/// then holds the bytes of one chunk after the other. A stream without chunks gives an empty file.
pub proof fn law_files_hold_the_stream<B>(
    source_name: Seq<char>,
    created: Instant,
    transfers: Seq<Transfer<B>>,
    flushed: CacheEntry<()>,
    bytes_of: spec_fn(B) -> Seq<u8>,
)
    requires
        carry_out(StreamState::started(source_name, created), transfers, flushed).result is Ok,
    ensures
        ({
            let outcome = carry_out(
                StreamState::started(source_name, created),
                transfers,
                flushed,
            );
            &&& all_stored(transfers)
            &&& flushed is Ok
            &&& outcome.written == chunks(transfers)
            &&& joined(outcome.written, bytes_of) == joined(chunks(transfers), bytes_of)
            &&& transfers.len() == 0 ==> joined(outcome.written, bytes_of).len() == 0
        }),
{
    let state = StreamState::started(source_name, created);
    if all_stored(transfers) {
        let empty = Seq::<Transfer<B>>::empty();
        lemma_stored_chunks_are_counted(state, transfers, empty, flushed);
        assert(transfers + empty == transfers);
        let after = carry_out(
            StreamState {
                phase: StreamPhase::Reading,
                recorded: Some(counted(state.recorded->0, transfers)),
            },
            empty,
            flushed,
        );
        assert(after.written == Seq::<B>::empty());
        assert(chunks(transfers) + after.written == chunks(transfers));
    } else {
        let at = lemma_first_failure(transfers);
        lemma_failed_chunks_end_the_download(state, transfers, flushed, at);
    }
}

/// It does not matter how a stream is cut into chunks: two downloads of the same bytes that succeed
/// leave the same file.
pub proof fn law_cuts_do_not_matter<B>(
    source_name: Seq<char>,
    created: Instant,
    first: Seq<Transfer<B>>,
    second: Seq<Transfer<B>>,
    flushed: CacheEntry<()>,
    bytes_of: spec_fn(B) -> Seq<u8>,
)
    requires
        carry_out(StreamState::started(source_name, created), first, flushed).result is Ok,
        carry_out(StreamState::started(source_name, created), second, flushed).result is Ok,
        joined(chunks(first), bytes_of) == joined(chunks(second), bytes_of),
    ensures
        joined(
            carry_out(StreamState::started(source_name, created), first, flushed).written,
            bytes_of,
        ) == joined(
            carry_out(StreamState::started(source_name, created), second, flushed).written,
            bytes_of,
        ),
{
    law_files_hold_the_stream(source_name, created, first, flushed, bytes_of);
    law_files_hold_the_stream(source_name, created, second, flushed, bytes_of);
}

proof fn lemma_joined_length<B>(transfers: Seq<Transfer<B>>, bytes_of: spec_fn(B) -> Seq<u8>)
    requires
        all_stored(transfers),
        forall|i: int|
            0 <= i < transfers.len() ==> bytes_of(
                (#[trigger] transfers[i]).0->Ok_0.0,
            ).len() == transfers[i].0->Ok_0.1,
    ensures
        joined(chunks(transfers), bytes_of).len() == total_length(transfers),
    decreases transfers.len(),
{
    if transfers.len() > 0 {
        let front = transfers.drop_last();
        assert forall|i: int| 0 <= i < front.len() implies #[trigger] front[i].0 is Ok
            && front[i].1 is Ok && bytes_of(front[i].0->Ok_0.0).len() == front[i].0->Ok_0.1 by {
            assert(front[i] == transfers[i]);
            assert(transfers[i].0 is Ok);
        }
        lemma_joined_length(front, bytes_of);
        assert(chunks(transfers).drop_last() == chunks(front));
        assert(transfers[transfers.len() - 1].0 is Ok);
        assert(chunks(transfers).last() == transfers.last().0->Ok_0.0);
    }
}

/// The number of bytes that is reported for a download that succeeds is the length of the file, up
/// to the largest number that can be counted.
pub proof fn law_counted_bytes_are_the_length_of_the_file<B>(
    source_name: Seq<char>,
    created: Instant,
    transfers: Seq<Transfer<B>>,
    flushed: CacheEntry<()>,
    bytes_of: spec_fn(B) -> Seq<u8>,
)
    requires
        carry_out(StreamState::started(source_name, created), transfers, flushed).result is Ok,
        forall|i: int|
            0 <= i < transfers.len() ==> bytes_of(
                (#[trigger] transfers[i]).0->Ok_0.0,
            ).len() == transfers[i].0->Ok_0.1,
    ensures
        ({
            let outcome = carry_out(
                StreamState::started(source_name, created),
                transfers,
                flushed,
            );
            outcome.measured.bytes() == bytes_sum(
                0,
                joined(outcome.written, bytes_of).len() as int,
            )
        }),
{
    law_files_hold_the_stream(source_name, created, transfers, flushed, bytes_of);
    law_stored_downloads_are_counted_in_full(source_name, created, transfers, flushed);
    lemma_joined_length(transfers, bytes_of);
}

/// A download starts exactly if the file could be created, which is handed on. Nothing has been
/// measured then, and time is measured from that moment.
pub proof fn law_downloads_start_with_the_file<'a, H>(
    created: CacheEntry<H>,
    source_name: &'a str,
    started: CacheEntry<(H, StreamDownload<'a>)>,
)
    requires
        call_ensures(StreamDownload::<'a>::download_stream::<H>, (created, source_name), started),
    ensures
        started is Ok <==> created is Ok,
        created matches Err(error) ==> started == Err::<(H, StreamDownload<'a>), CacheError>(error),
        started matches Ok((file, download)) ==> {
            &&& created == Ok::<H, CacheError>(file)
            &&& download@.recorded matches Some(measured)
            &&& measured.task_name == "source.download.stream"@
            &&& measured.source_name == source_name@
            &&& measured.status is None
            &&& measured.bytes_transferred is None
            &&& call_ensures(Instant::now, (), measured.created)
        },
{
}

/// The chunk that was read is what is written next, to the letter and whatever its length. The end
/// of the stream is followed by flushing the file, and an error of the stream ends the download
/// with this error.
pub proof fn law_chunks_are_written_as_they_are_read<'a, B, S>(
    download: &mut StreamDownload<'a>,
    chunk: Option<CacheEntry<(B, u64)>>,
    status_of: S,
    step: StreamStep<'a, B>,
) where S: Fn(&CacheEntry<()>) -> &'static str
    requires
        call_ensures(
            StreamDownload::<'a>::chunk_read::<B, S>,
            (download, chunk, status_of),
            step,
        ),
    ensures
        step is Write <==> (chunk matches Some(Ok(_))),
        step is Flush <==> chunk is None,
        step is Fail <==> (chunk matches Some(Err(_))),
        step matches StreamStep::Write(bytes) ==> (chunk matches Some(Ok((read, _))) && bytes
            == read),
        step matches StreamStep::Fail(_, error) ==> (chunk matches Some(Err(cause)) && error
            == cause),
{
}

/// The bytes of a chunk that was read are counted, and a measurement goes on until the stream ends
/// or fails. It is then handed out with the status of that, all else being as it was.
pub proof fn law_chunks_are_counted_as_they_are_read<'a, B, S>(
    download: &mut StreamDownload<'a>,
    chunk: Option<CacheEntry<(B, u64)>>,
    status_of: S,
    step: StreamStep<'a, B>,
    before: Measurement,
) where S: Fn(&CacheEntry<()>) -> &'static str
    requires
        call_ensures(
            StreamDownload::<'a>::chunk_read::<B, S>,
            (download, chunk, status_of),
            step,
        ),
        old(download)@.recorded == Some(before),
    ensures
        chunk matches Some(Ok((_, length))) ==> {
            let counted = if before.bytes_transferred is Some {
                before.bytes_transferred->0
            } else {
                0
            };
            &&& final(download)@.recorded matches Some(after)
            &&& after.bytes_transferred matches Some(bytes)
            &&& counted + length <= u64::MAX ==> bytes == counted + length
            &&& counted + length > u64::MAX ==> bytes == u64::MAX
            &&& after.status == before.status
            &&& after.task_name == before.task_name
            &&& after.source_name == before.source_name
            &&& after.created == before.created
        },
        !(chunk matches Some(Ok(_))) ==> final(download)@.recorded is None,
        step matches StreamStep::Flush(recorder) ==> {
            &&& recorder@.bytes_transferred == before.bytes_transferred
            &&& recorder@.task_name == before.task_name
            &&& recorder@.source_name == before.source_name
            &&& recorder@.created == before.created
            &&& exists|status: &'static str|
                {
                    &&& #[trigger] call_ensures(status_of, (&Ok(()),), status)
                    &&& recorder@.status == Some(status@)
                }
        },
        step matches StreamStep::Fail(recorder, error) ==> {
            &&& recorder@.bytes_transferred == before.bytes_transferred
            &&& recorder@.task_name == before.task_name
            &&& recorder@.source_name == before.source_name
            &&& recorder@.created == before.created
            &&& exists|status: &'static str|
                {
                    &&& #[trigger] call_ensures(status_of, (&Err(error),), status)
                    &&& recorder@.status == Some(status@)
                }
        },
{
}

/// A chunk that was written is followed by reading the next one, with the measurement as it was.
/// One that could not be written ends the download with the error, and the measurement with its
/// status.
pub proof fn law_failed_writes_end_a_download<'a, B, S>(
    download: &mut StreamDownload<'a>,
    written: CacheEntry<()>,
    status_of: S,
    step: StreamStep<'a, B>,
    before: Measurement,
) where S: Fn(&CacheEntry<()>) -> &'static str
    requires
        call_ensures(
            StreamDownload::<'a>::chunk_written::<B, S>,
            (download, written, status_of),
            step,
        ),
        old(download)@.recorded == Some(before),
    ensures
        step is Read <==> written is Ok,
        step is Fail <==> written is Err,
        written is Ok ==> final(download)@.recorded == Some(before),
        written is Err ==> final(download)@.recorded is None,
        step matches StreamStep::Fail(recorder, error) ==> {
            &&& written == Err::<(), CacheError>(error)
            &&& recorder@.bytes_transferred == before.bytes_transferred
            &&& recorder@.task_name == before.task_name
            &&& recorder@.source_name == before.source_name
            &&& recorder@.created == before.created
            &&& exists|status: &'static str|
                {
                    &&& #[trigger] call_ensures(status_of, (&Err(error),), status)
                    &&& recorder@.status == Some(status@)
                }
        },
{
}

/// A download whose stream has ended is as successful as flushing the file is.
pub proof fn law_flushing_decides_at_the_end<'a>(
    download: &mut StreamDownload<'a>,
    flushed: CacheEntry<()>,
    result: CacheEntry<()>,
)
    requires
        call_ensures(StreamDownload::<'a>::flushed, (download, flushed), result),
    ensures
        result == flushed,
        final(download)@.recorded is None,
{
}

/// A download that is given up hands out the measurement as far as it has come, exactly if it is
/// still going on, and only once.
pub proof fn law_measurements_are_given_up_once<'a>(
    download: &mut StreamDownload<'a>,
    again: &mut StreamDownload<'a>,
    recorder: Option<MeasureSourceDownloadGuard<'a>>,
    nothing: Option<MeasureSourceDownloadGuard<'a>>,
)
    requires
        call_ensures(StreamDownload::<'a>::give_up, (download,), recorder),
        *old(again) == *final(download),
        call_ensures(StreamDownload::<'a>::give_up, (again,), nothing),
    ensures
        recorder is Some <==> old(download)@.recorded is Some,
        recorder matches Some(guard) ==> Some(guard@) == old(download)@.recorded,
        nothing is None,
{
}

/// The steps of a download can be taken as they are told: a download that has started can read, one
/// that is told to write can go on after writing, one that is told to read can go on after reading,
/// and one that is told to flush can go on after flushing.
pub proof fn law_steps_can_be_taken<'a, B, H, S>(
    created: CacheEntry<H>,
    source_name: &'a str,
    started: CacheEntry<(H, StreamDownload<'a>)>,
    download: &mut StreamDownload<'a>,
    chunk: Option<CacheEntry<(B, u64)>>,
    read: StreamStep<'a, B>,
    current: &mut StreamDownload<'a>,
    outcome: CacheEntry<()>,
    wrote: StreamStep<'a, B>,
    next: &mut StreamDownload<'a>,
    status_of: S,
) where S: Fn(&CacheEntry<()>) -> &'static str
    requires
        forall|result: &CacheEntry<()>| #[trigger] call_requires(status_of, (result,)),
        call_ensures(StreamDownload::<'a>::download_stream::<H>, (created, source_name), started),
        call_ensures(
            StreamDownload::<'a>::chunk_read::<B, S>,
            (download, chunk, status_of),
            read,
        ),
        *old(current) == *final(download),
        call_ensures(
            StreamDownload::<'a>::chunk_written::<B, S>,
            (current, outcome, status_of),
            wrote,
        ),
        *old(next) == *final(current),
    ensures
        (started matches Ok((_, fresh)) && *old(download) == fresh) ==> call_requires(
            StreamDownload::<'a>::chunk_read::<B, S>,
            (download, chunk, status_of),
        ),
        read is Write ==> call_requires(
            StreamDownload::<'a>::chunk_written::<B, S>,
            (current, outcome, status_of),
        ),
        read is Flush ==> call_requires(StreamDownload::<'a>::flushed, (current, outcome)),
        wrote is Read ==> call_requires(
            StreamDownload::<'a>::chunk_read::<B, S>,
            (next, chunk, status_of),
        ),
{
}

} // verus!
