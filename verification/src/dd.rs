//! The raw copy engine: streaming a source into a destination in fixed-size
//! chunks while reporting progress over a one-way channel.
//!
//! The engine's logic is verified here over in-memory bytes: `copy_bytes` is
//! the copy loop itself (truncate, copy chunk by chunk, record every chunk),
//! `copy_step` is the loop's decision on each read outcome, and
//! `tally_progress` is the reporting side, which accumulates the chunk
//! lengths it receives in send order. The front end runs the same loop over
//! file handles and a real channel, consulting `copy_step` for each read and
//! `overwrite_gate` before touching an existing destination.

use vstd::prelude::*;

verus! {

/// 128 KiB: the fixed chunk size of the copy loop, large enough to amortize
/// per-read overhead without a large transient buffer.
pub const CHUNK_SIZE: usize = 131072;

/// The ways a raw copy can fail, in pipeline order.
#[derive(Clone, Copy, Debug, PartialEq, Eq, Structural)]
pub enum DdError {
    /// The source could not be opened for reading.
    InputFileOpenError,
    /// The source's size could not be read from its metadata.
    InputFileMetadataError,
    /// The user declined to overwrite the existing destination.
    CanceledByUser,
    /// The destination could not be opened for writing.
    OutputFileOpenError,
    /// A read from the source failed (and was not a mere interruption).
    ReadError,
    /// A write to the destination failed.
    WriteError,
    /// Forcing the destination to durable storage failed.
    SyncError,
}

impl DdError {
    /// The process exit code reported for this error kind.
    pub open spec fn spec_error_code(self) -> int {
        match self {
            DdError::InputFileOpenError => 1,
            DdError::InputFileMetadataError => 2,
            DdError::CanceledByUser => 3,
            DdError::OutputFileOpenError => 4,
            DdError::ReadError => 5,
            DdError::WriteError => 6,
            DdError::SyncError => 7,
        }
    }

    /// The description of this error kind.
    pub open spec fn spec_message(self) -> Seq<char> {
        match self {
            DdError::InputFileOpenError => "could not open the input file"@,
            DdError::InputFileMetadataError => "could not read the input file's metadata"@,
            DdError::CanceledByUser => "canceled by user"@,
            DdError::OutputFileOpenError => "could not open the output file"@,
            DdError::ReadError => "reading from the input failed"@,
            DdError::WriteError => "writing to the output failed"@,
            DdError::SyncError => "syncing the output to disk failed"@,
        }
    }

    /// The description of this error kind.
    pub fn message(&self) -> (r: &'static str)
        ensures
            r@ == self.spec_message(),
    {
        match self {
            DdError::InputFileOpenError => "could not open the input file",
            DdError::InputFileMetadataError => "could not read the input file's metadata",
            DdError::CanceledByUser => "canceled by user",
            DdError::OutputFileOpenError => "could not open the output file",
            DdError::ReadError => "reading from the input failed",
            DdError::WriteError => "writing to the output failed",
            DdError::SyncError => "syncing the output to disk failed",
        }
    }

    /// The process exit code reported for this error kind: positive, and
    /// distinct per kind.
    pub fn error_code(&self) -> (r: i32)
        ensures
            r == self.spec_error_code(),
            1 <= r <= 7,
    {
        match self {
            DdError::InputFileOpenError => 1,
            DdError::InputFileMetadataError => 2,
            DdError::CanceledByUser => 3,
            DdError::OutputFileOpenError => 4,
            DdError::ReadError => 5,
            DdError::WriteError => 6,
            DdError::SyncError => 7,
        }
    }
}

/// The copy's only cancellation point, before anything is written: when the
/// destination already exists and the caller did not pre-authorize, the
/// user's answer decides. Declining cancels the copy — and nothing has
/// touched the destination yet.
pub fn overwrite_gate(output_exists: bool, assume_yes: bool, confirmed: bool) -> (r: Result<
    (),
    DdError,
>)
    ensures
        r is Err <==> (output_exists && !assume_yes && !confirmed),
        r matches Err(e) ==> e == DdError::CanceledByUser,
{
    if output_exists && !assume_yes && !confirmed {
        Err(DdError::CanceledByUser)
    } else {
        Ok(())
    }
}

/// What one read from the source came back with.
pub enum ReadEvent {
    /// The read returned this many bytes; zero means end of input.
    Read(usize),
    /// The read was interrupted before reading anything.
    Interrupted,
    /// The read failed.
    Failed,
}

/// What the copy loop does next.
#[derive(Clone, Copy, Debug, PartialEq, Eq, Structural)]
pub enum CopyStep {
    /// Write this many bytes from the front of the buffer, then send the
    /// count to the progress channel.
    Write(usize),
    /// The source is exhausted: leave the loop and sync the destination.
    Finish,
    /// Retry the read transparently.
    Retry,
    /// Abort the copy with this error.
    Fail(DdError),
}

/// The copy loop's decision on one read outcome: a read of zero bytes ends
/// the loop, any other read is written out in full, an interrupted read is
/// retried transparently, and any other read error aborts the copy.
pub fn copy_step(event: ReadEvent) -> (r: CopyStep)
    ensures
        event matches ReadEvent::Read(n) ==> r == (if n == 0 {
            CopyStep::Finish
        } else {
            CopyStep::Write(n)
        }),
        event is Interrupted ==> r == CopyStep::Retry,
        event is Failed ==> r == CopyStep::Fail(DdError::ReadError),
{
    match event {
        ReadEvent::Read(n) => {
            if n == 0 {
                CopyStep::Finish
            } else {
                CopyStep::Write(n)
            }
        },
        ReadEvent::Interrupted => CopyStep::Retry,
        ReadEvent::Failed => CopyStep::Fail(DdError::ReadError),
    }
}

/// The progress counter: how many bytes the copy has written, bounded by the
/// total known up front from the source's metadata. The copy side owns and
/// advances it; the reporting side only observes it.
#[derive(Clone, Copy, Debug, PartialEq, Eq, Structural)]
pub struct CopyProgress {
    pub total_bytes: u64,
    pub bytes_written: u64,
}

impl CopyProgress {
    /// The counter never runs past the total.
    pub open spec fn wf(self) -> bool {
        self.bytes_written <= self.total_bytes
    }

    /// A fresh counter for a copy of `total_bytes` bytes.
    pub fn new(total_bytes: u64) -> (r: CopyProgress)
        ensures
            r.total_bytes == total_bytes,
            r.bytes_written == 0,
            r.wf(),
    {
        CopyProgress { total_bytes, bytes_written: 0 }
    }

    /// Records one written chunk. The counter never decreases and never
    /// exceeds the total.
    pub fn record(&mut self, len: u64)
        requires
            old(self).wf(),
            old(self).bytes_written + len <= old(self).total_bytes,
        ensures
            final(self).total_bytes == old(self).total_bytes,
            final(self).bytes_written == old(self).bytes_written + len,
            old(self).bytes_written <= final(self).bytes_written,
            final(self).wf(),
    {
        self.bytes_written = self.bytes_written + len;
    }

    /// Whether everything has been written.
    pub fn complete(&self) -> (r: bool)
        ensures
            r == (self.bytes_written == self.total_bytes),
    {
        self.bytes_written == self.total_bytes
    }
}

/// The sum of the chunk lengths sent over the progress channel.
pub open spec fn spec_sum(chunks: Seq<usize>) -> int
    decreases chunks.len(),
{
    if chunks.len() == 0 {
        0
    } else {
        spec_sum(chunks.drop_last()) + chunks.last()
    }
}

/// Sending one more chunk adds its length to the sum.
pub proof fn lemma_sum_push(chunks: Seq<usize>, x: usize)
    ensures
        spec_sum(chunks.push(x)) == spec_sum(chunks) + x,
{
    assert(chunks.push(x).drop_last() =~= chunks);
}

/// Extending a received prefix by one chunk adds that chunk to its sum.
proof fn lemma_sum_take_succ(s: Seq<usize>, k: int)
    requires
        0 <= k < s.len(),
    ensures
        spec_sum(s.take(k + 1)) == spec_sum(s.take(k)) + s[k],
{
    assert(s.take(k + 1).drop_last() =~= s.take(k));
}

/// No received prefix sums to more than the whole channel's sum.
proof fn lemma_sum_take_le(s: Seq<usize>, k: int)
    requires
        0 <= k <= s.len(),
    ensures
        spec_sum(s.take(k)) <= spec_sum(s),
    decreases s.len() - k,
{
    if k == s.len() {
        assert(s.take(k) =~= s);
    } else {
        lemma_sum_take_succ(s, k);
        lemma_sum_take_le(s, k + 1);
    }
}

/// The copy loop over in-memory bytes: truncates the destination, copies the
/// source into it in chunks of at most `CHUNK_SIZE` bytes, records every
/// chunk in the progress counter, and returns the chunk lengths in send
/// order.
///
/// On return the destination is byte-for-byte the source, the counter stands
/// exactly at the total, and the recorded chunks sum to the source's length.
pub fn copy_bytes(source: &Vec<u8>, dest: &mut Vec<u8>, progress: &mut CopyProgress) -> (chunks:
    Vec<usize>)
    requires
        old(progress).total_bytes == source.len(),
        old(progress).bytes_written == 0,
    ensures
        final(dest)@ == source@,
        final(progress).total_bytes == old(progress).total_bytes,
        final(progress).bytes_written == source@.len(),
        final(progress).wf(),
        spec_sum(chunks@) == source@.len(),
        forall|k: int| 0 <= k < chunks@.len() ==> 1 <= #[trigger] chunks@[k] <= CHUNK_SIZE,
{
    dest.clear();
    let mut chunks: Vec<usize> = Vec::new();
    let mut i: usize = 0;
    while i < source.len()
        invariant
            i <= source.len(),
            dest@ == source@.subrange(0, i as int),
            progress.total_bytes == source@.len(),
            progress.bytes_written == i,
            spec_sum(chunks@) == i,
            forall|k: int| 0 <= k < chunks@.len() ==> 1 <= #[trigger] chunks@[k] <= CHUNK_SIZE,
        decreases source.len() - i,
    {
        let remaining: usize = source.len() - i;
        let chunk_len: usize = if remaining > CHUNK_SIZE {
            CHUNK_SIZE
        } else {
            remaining
        };
        let end: usize = i + chunk_len;
        let mut j: usize = i;
        while j < end
            invariant
                i <= j <= end <= source.len(),
                dest@ == source@.subrange(0, j as int),
            decreases end - j,
        {
            let b: u8 = source[j];
            dest.push(b);
            j = j + 1;
            proof {
                assert(dest@ =~= source@.subrange(0, j as int));
            }
        }
        progress.record(chunk_len as u64);
        proof {
            lemma_sum_push(chunks@, chunk_len);
        }
        chunks.push(chunk_len);
        i = end;
    }
    proof {
        assert(source@.subrange(0, source@.len() as int) =~= source@);
    }
    chunks
}

/// The raw copy engine's whole contract, over in-memory bytes: the overwrite
/// gate first, then the copy loop.
///
/// When the destination exists and the user declines the overwrite, the copy
/// is canceled and the destination is untouched. Otherwise the destination
/// becomes byte-for-byte the source, and the returned progress counter and
/// chunk record stand exactly at the source's length.
pub fn run_copy(
    source: &Vec<u8>,
    dest: &mut Vec<u8>,
    output_exists: bool,
    assume_yes: bool,
    confirmed: bool,
) -> (r: Result<(Vec<usize>, CopyProgress), DdError>)
    ensures
        r is Err <==> (output_exists && !assume_yes && !confirmed),
        r matches Err(e) ==> e == DdError::CanceledByUser && *final(dest) == *old(dest),
        r matches Ok((chunks, progress)) ==> {
            &&& final(dest)@ == source@
            &&& progress.total_bytes == source@.len()
            &&& progress.bytes_written == source@.len()
            &&& spec_sum(chunks@) == source@.len()
            &&& forall|k: int| 0 <= k < chunks@.len() ==> 1 <= #[trigger] chunks@[k] <= CHUNK_SIZE
        },
{
    if let Err(e) = overwrite_gate(output_exists, assume_yes, confirmed) {
        return Err(e);
    }
    let mut progress: CopyProgress = CopyProgress::new(source.len() as u64);
    let chunks: Vec<usize> = copy_bytes(source, dest, &mut progress);
    Ok((chunks, progress))
}

/// The reporting side of the channel: starting from zero, accumulates the
/// chunk lengths in the order they were sent and returns the final running
/// total, which is exactly their sum — on a successful copy, the source's
/// length.
pub fn tally_progress(chunks: &Vec<usize>, total_bytes: u64) -> (written: u64)
    requires
        spec_sum(chunks@) <= total_bytes,
    ensures
        written == spec_sum(chunks@),
{
    let mut written: u64 = 0;
    let mut idx: usize = 0;
    proof {
        assert(chunks@.take(0) =~= Seq::<usize>::empty());
    }
    while idx < chunks.len()
        invariant
            idx <= chunks.len(),
            spec_sum(chunks@) <= total_bytes,
            written == spec_sum(chunks@.take(idx as int)),
        decreases chunks.len() - idx,
    {
        proof {
            lemma_sum_take_succ(chunks@, idx as int);
            lemma_sum_take_le(chunks@, idx + 1);
        }
        written = written + (chunks[idx] as u64);
        idx = idx + 1;
    }
    proof {
        assert(chunks@.take(chunks@.len() as int) =~= chunks@);
    }
    written
}

} // verus!
