//! Replaying audio from a file in fixed-size blocks. Useful for testing
//! purposes.

use vstd::prelude::*;
use vstd::slice::slice_subrange;
use vstd::slice::slice_to_vec;
use crate::speech::audio::StopTrigger;
use crate::speech::audio::format::SoundSpec;
use crate::speech::audio::recorder::CaptureSource;
use crate::speech::audio::recorder::ListenResult;

verus! {

/// The number of bytes that one read asks the file for.
pub const BLOCK_SIZE: usize = 4096;

/// The number of blocks that a file of `len` bytes is read in.
pub open spec fn block_count(len: nat) -> nat {
    ((len + BLOCK_SIZE - 1) / (BLOCK_SIZE as int)) as nat
}

/// Where the block after the one that starts at `start` begins, in a file of
/// `len` bytes.
pub open spec fn block_end(start: int, len: nat) -> int {
    if start + BLOCK_SIZE <= len {
        start + BLOCK_SIZE
    } else {
        len as int
    }
}

/// The `i`-th block of `data`.
pub open spec fn block(data: Seq<u8>, i: int) -> Seq<u8> {
    data.subrange(i * BLOCK_SIZE, block_end(i * BLOCK_SIZE, data.len()))
}

/// The blocks that `data` is read in: each holds `BLOCK_SIZE` bytes, but
/// for the last one, which holds what is left.
pub open spec fn blocks(data: Seq<u8>) -> Seq<Seq<u8>> {
    Seq::new(block_count(data.len()), |i: int| block(data, i))
}

/// An audio "recorder" that simply plays back audio from a file. Useful for
/// testing purposes.
pub struct FileAudioRecorder(pub String);

impl FileAudioRecorder {
    /// Begins a replay: the result names the file and the size of the
    /// blocks to read it in. The requested format is not looked at, as the
    /// format of a recording is not known.
    pub fn listen(&mut self, _request_format: Option<SoundSpec>) -> (res: ListenResult)
        ensures
            final(self).0@ == old(self).0@,
            res.0 matches CaptureSource::Replay { path, block_size } && path@ == old(self).0@
                && block_size == BLOCK_SIZE,
    {
        let stop_trigger = StopTrigger::new();

        (CaptureSource::Replay { path: self.0.clone(), block_size: BLOCK_SIZE }, stop_trigger)
    }
}

/// What to do with the outcome of one read.
pub enum ReplayAction {
    /// Hand the chunk to the receiver and read on.
    Forward(Vec<u8>),
    /// Stop reading: the file has ended or cannot be read.
    Finish,
}

/// The decision on one read: `read` is the block that the read filled,
/// or `None` where the read failed.
pub open spec fn next_action_of(read: Option<Seq<u8>>) -> Option<Seq<u8>> {
    match read {
        Some(block) if block.len() > 0 => Some(block),
        _ => None,
    }
}

/// Decides what follows one read of the file: a block that holds bytes is
/// forwarded as it is, an empty block is the end of the file, and a failed
/// read (`None`) ends the replay too.
pub fn next_action(read: Option<&[u8]>) -> (res: ReplayAction)
    ensures
        match next_action_of(
            match read {
                Some(block) => Some(block@),
                None => None,
            },
        ) {
            Some(block) => res matches ReplayAction::Forward(chunk) && chunk@ == block,
            None => res is Finish,
        },
{
    match read {
        Some(block) => {
            if block.len() > 0 {
                ReplayAction::Forward(slice_to_vec(block))
            } else {
                ReplayAction::Finish
            }
        },
        None => ReplayAction::Finish,
    }
}

/// The chunks that a receiver gets from a file that holds `contents`, when
/// every read succeeds and the receiver stays until the end.
pub fn replay(contents: &[u8]) -> (res: Vec<Vec<u8>>)
    ensures
        res.deep_view() == blocks(contents@),
{
    let len = contents.len();
    let mut chunks: Vec<Vec<u8>> = Vec::new();
    let mut position: usize = 0;
    let mut reading = true;
    while reading
        invariant
            len == contents@.len(),
            position <= len,
            position == chunks@.len() * BLOCK_SIZE || (position == len && chunks@.len()
                == block_count(len as nat)),
            chunks@.len() <= block_count(len as nat),
            !reading ==> chunks@.len() == block_count(len as nat),
            forall|i: int| 0 <= i < chunks@.len() ==> (#[trigger] chunks@[i])@ == block(contents@, i),
        decreases (if reading { 1int } else { 0int }) + len - position,
    {
        let end = if len - position >= BLOCK_SIZE {
            position + BLOCK_SIZE
        } else {
            len
        };
        let read = slice_subrange(contents, position, end);
        match next_action(Some(read)) {
            ReplayAction::Forward(chunk) => {
                assert(position == chunks@.len() * BLOCK_SIZE);
                assert(chunk@ == block(contents@, chunks@.len() as int));
                chunks.push(chunk);
                position = end;
            },
            ReplayAction::Finish => {
                assert(position == len);
                reading = false;
            },
        }
    }
    assert(chunks.deep_view() =~= blocks(contents@)) by {
        assert(chunks.deep_view().len() == chunks@.len());
        assert forall|i: int| 0 <= i < chunks@.len() implies chunks.deep_view()[i] == blocks(
            contents@,
        )[i] by {
            assert(chunks.deep_view()[i] == chunks@[i].deep_view());
            assert(chunks@[i].deep_view() =~= chunks@[i]@);
        }
    }
    chunks
}

/// The first `k` blocks of `data`, put end to end, are the bytes of `data`
/// before the `k`-th block.
proof fn lemma_blocks_prefix(data: Seq<u8>, k: nat)
    requires
        k <= block_count(data.len()),
    ensures
        blocks(data).take(k as int).flatten() == data.take(
            if k * BLOCK_SIZE <= data.len() {
                k * BLOCK_SIZE
            } else {
                data.len() as int
            },
        ),
    decreases k,
{
    let all = blocks(data);
    if k == 0 {
        assert(all.take(0).flatten() =~= data.take(0));
    } else {
        let before = (k - 1) as nat;
        lemma_blocks_prefix(data, before);
        assert(all.take(k as int) =~= all.take(before as int).push(all[before as int]));
        all.take(before as int).lemma_flatten_push(all[before as int]);
        assert(before * BLOCK_SIZE <= data.len());
        let end = if k * BLOCK_SIZE <= data.len() {
            k * BLOCK_SIZE
        } else {
            data.len() as int
        };
        assert(all[before as int] == data.subrange(before * BLOCK_SIZE, end));
        assert(data.take(before * BLOCK_SIZE) + data.subrange(before * BLOCK_SIZE, end)
            =~= data.take(end));
    }
}

/// Replaying a file of N bytes delivers ceil(N / `BLOCK_SIZE`) chunks, and
/// no more. None of them is empty, none is longer than a block, and put
/// end to end they are the bytes of the file.
pub proof fn lemma_replay_delivers_the_file(data: Seq<u8>)
    ensures
        blocks(data).len() == block_count(data.len()),
        (block_count(data.len()) - 1) * BLOCK_SIZE < data.len() || data.len() == 0,
        data.len() <= block_count(data.len()) * BLOCK_SIZE,
        data.len() == 0 ==> block_count(data.len()) == 0,
        forall|i: int|
            0 <= i < blocks(data).len() ==> 0 < (#[trigger] blocks(data)[i]).len() <= BLOCK_SIZE,
        blocks(data).flatten() == data,
{
    let count = block_count(data.len());
    lemma_blocks_prefix(data, count);
    assert(blocks(data).take(count as int) =~= blocks(data));
    assert(data.take(data.len() as int) =~= data);
}

} // verus!
