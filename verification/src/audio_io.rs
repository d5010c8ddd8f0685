//! Moving audio between the host's device buffer and a plugin worker's
//! shared-memory channels, and the decisions around one processed block.
use vstd::prelude::*;

verus! {

/// What the host does with one device buffer for a plugin process.
#[derive(Debug, Clone, Copy, PartialEq, Eq, Structural)]
pub enum BlockPlan {
    /// Fill the buffer with silence and stop.
    Silence,
    /// Leave the buffer as it is and stop.
    Skip,
    /// Send a block of `num_samples` frames to the worker.
    Run { num_samples: usize },
}

/// Decide what to do with a device buffer of `output_len` interleaved
/// samples for `device_channels` channels.
///
/// A shut down or crashed process plays silence; a buffer without channels
/// or without a whole frame is left alone; without shared memory the
/// buffer is silenced; otherwise as many frames run as fit both the buffer
/// and the block size.
pub fn plan_block(
    is_shutdown: bool,
    crashed: bool,
    has_shm: bool,
    output_len: usize,
    device_channels: usize,
    max_block_size: usize,
) -> (p: BlockPlan)
    ensures
        is_shutdown || crashed ==> p == BlockPlan::Silence,
        !(is_shutdown || crashed) && (device_channels == 0 || output_len / device_channels == 0) ==> p
            == BlockPlan::Skip,
        !(is_shutdown || crashed) && device_channels > 0 && output_len / device_channels > 0 && !has_shm ==> p
            == BlockPlan::Silence,
        !(is_shutdown || crashed) && device_channels > 0 && output_len / device_channels > 0 && has_shm ==> p
            == (BlockPlan::Run {
                num_samples: if output_len / device_channels <= max_block_size {
                    (output_len / device_channels) as usize
                } else {
                    max_block_size
                },
            }),
{
    if is_shutdown || crashed {
        return BlockPlan::Silence;
    }
    if device_channels == 0 {
        return BlockPlan::Skip;
    }
    let frames = output_len / device_channels;
    if frames == 0 {
        return BlockPlan::Skip;
    }
    if !has_shm {
        return BlockPlan::Silence;
    }
    let n = if frames <= max_block_size { frames } else { max_block_size };
    BlockPlan::Run { num_samples: n }
}

/// The worker's reply to a process request, as far as the host cares.
#[derive(Debug, Clone, Copy, PartialEq, Eq, Structural)]
pub enum ProcessReply {
    /// The block was processed; the output is in shared memory.
    Processed,
    /// The plugin crashed in the worker.
    Crashed,
    /// The worker reported an error.
    Error,
    /// The worker sent some other response.
    Unexpected,
    /// The request or the reply could not be transferred.
    IpcFailure,
}

/// After a reply: whether the process is now considered crashed, and
/// whether the output is read from shared memory (otherwise the buffer is
/// silenced).
pub fn reply_outcome(reply: ProcessReply) -> (r: (bool, bool))
    ensures
        r.0 == (reply == ProcessReply::Crashed || reply == ProcessReply::IpcFailure),
        r.1 == (reply == ProcessReply::Processed),
{
    match reply {
        ProcessReply::Processed => (false, true),
        ProcessReply::Crashed => (true, false),
        ProcessReply::Error => (false, false),
        ProcessReply::Unexpected => (false, false),
        ProcessReply::IpcFailure => (true, false),
    }
}

/// The plugin output channel that device channel `ch` plays: its own if the
/// plugin has it, else the first one (mirrored), else none (silence).
pub open spec fn source_channel(ch: int, out_channels: int) -> Option<int> {
    if ch < out_channels {
        Some(ch)
    } else if out_channels > 0 {
        Some(0)
    } else {
        None
    }
}

/// The sample that interleaved position `idx` of the device buffer gets.
pub open spec fn interleaved_sample<T>(channels: Seq<Seq<T>>, device_channels: int, idx: int, silence: T) -> T {
    let frame = idx / device_channels;
    let ch = idx % device_channels;
    match source_channel(ch, channels.len() as int) {
        Some(c) => channels[c][frame],
        None => silence,
    }
}

/// What device channel `ch` of frame `frame` plays: the plugin's channel
/// `ch` at that frame when the plugin has it; otherwise the plugin's first
/// channel at that frame, mirrored onto every extra device channel; and
/// silence when the plugin has no output at all.
pub proof fn lemma_device_channel_plays<T>(
    channels: Seq<Seq<T>>,
    device_channels: int,
    frame: int,
    ch: int,
    silence: T,
)
    requires
        0 <= frame,
        0 <= ch < device_channels,
    ensures
        ({
            let s = interleaved_sample(channels, device_channels, frame * device_channels + ch, silence);
            &&& ch < channels.len() ==> s == channels[ch][frame]
            &&& ch >= channels.len() && channels.len() > 0 ==> s == channels[0][frame]
            &&& channels.len() == 0 ==> s == silence
        }),
{
    vstd::arithmetic::div_mod::lemma_fundamental_div_mod_converse(
        frame * device_channels + ch,
        device_channels,
        frame,
        ch,
    );
}

/// Write the first `num_samples` frames of the plugin output `channels`
/// into the interleaved device buffer `output`, as far as it reaches; the
/// rest of `output` is left as it was.
pub fn interleave_output<T: Copy>(
    output: &mut [T],
    channels: &[&[T]],
    device_channels: usize,
    num_samples: usize,
    silence: T,
)
    requires
        device_channels > 0,
        forall|c: int| 0 <= c < channels@.len() ==> num_samples <= (#[trigger] channels@[c])@.len(),
    ensures
        final(output)@.len() == old(output)@.len(),
        forall|idx: int|
            0 <= idx < final(output)@.len() ==> #[trigger] final(output)@[idx] == if idx < num_samples
                * device_channels {
                interleaved_sample(channels@.map_values(|s: &[T]| s@), device_channels as int, idx, silence)
            } else {
                old(output)@[idx]
            },
{
    let ghost chans = channels@.map_values(|s: &[T]| s@);
    let out_len = output.len();
    let n_out = channels.len();
    proof {
        assert(num_samples * device_channels <= 0xffff_ffff_ffff_ffffu128 * 0xffff_ffff_ffff_ffffu128) by (nonlinear_arith)
            requires
                num_samples <= 0xffff_ffff_ffff_ffffu128,
                device_channels <= 0xffff_ffff_ffff_ffffu128,
        ;
    }
    let total = num_samples as u128 * device_channels as u128;
    let limit: usize = if total < out_len as u128 { total as usize } else { out_len };
    let mut idx: usize = 0;
    while idx < limit
        invariant
            device_channels > 0,
            out_len == output@.len(),
            output@.len() == old(output)@.len(),
            n_out == channels@.len(),
            chans == channels@.map_values(|s: &[T]| s@),
            forall|c: int| 0 <= c < channels@.len() ==> num_samples <= (#[trigger] channels@[c])@.len(),
            limit <= out_len,
            limit <= num_samples * device_channels,
            idx <= limit,
            forall|j: int|
                0 <= j < output@.len() ==> #[trigger] output@[j] == if j < idx {
                    interleaved_sample(chans, device_channels as int, j, silence)
                } else {
                    old(output)@[j]
                },
        decreases limit - idx,
    {
        let frame = idx / device_channels;
        let ch = idx % device_channels;
        proof {
            assert(frame < num_samples) by (nonlinear_arith)
                requires
                    idx < num_samples * device_channels,
                    frame == idx / device_channels,
                    device_channels > 0,
            ;
        }
        let value = if ch < n_out {
            channels[ch][frame]
        } else if n_out > 0 {
            channels[0][frame]
        } else {
            silence
        };
        output[idx] = value;
        idx = idx + 1;
    }
}

/// The number of samples `copy_block` copies.
pub open spec fn block_len(num_samples: int, dst_len: int, src_len: int) -> int {
    if num_samples <= dst_len && num_samples <= src_len {
        num_samples
    } else if dst_len <= src_len {
        dst_len
    } else {
        src_len
    }
}

/// `copy_block` copies the least of the requested count and the two
/// lengths: no more than any of them, and exactly one of them.
pub proof fn lemma_block_len_is_least(num_samples: int, dst_len: int, src_len: int)
    ensures
        block_len(num_samples, dst_len, src_len) <= num_samples,
        block_len(num_samples, dst_len, src_len) <= dst_len,
        block_len(num_samples, dst_len, src_len) <= src_len,
        block_len(num_samples, dst_len, src_len) == num_samples || block_len(num_samples, dst_len, src_len)
            == dst_len || block_len(num_samples, dst_len, src_len) == src_len,
{
}

/// Copy the first `num_samples` samples of `src` into `dst`, as far as both
/// reach (the test tone written into each input channel).
pub fn copy_block<T: Copy>(dst: &mut [T], src: &[T], num_samples: usize)
    ensures
        final(dst)@.len() == old(dst)@.len(),
        forall|i: int|
            0 <= i < final(dst)@.len() ==> #[trigger] final(dst)@[i] == if i < block_len(
                num_samples as int,
                old(dst)@.len() as int,
                src@.len() as int,
            ) {
                src@[i]
            } else {
                old(dst)@[i]
            },
{
    let n = if num_samples <= dst.len() && num_samples <= src.len() {
        num_samples
    } else if dst.len() <= src.len() {
        dst.len()
    } else {
        src.len()
    };
    let mut i: usize = 0;
    while i < n
        invariant
            n == block_len(num_samples as int, old(dst)@.len() as int, src@.len() as int),
            n <= dst@.len(),
            n <= src@.len(),
            dst@.len() == old(dst)@.len(),
            i <= n,
            forall|j: int| 0 <= j < dst@.len() ==> #[trigger] dst@[j] == if j < i { src@[j] } else { old(dst)@[j] },
        decreases n - i,
    {
        dst[i] = src[i];
        i = i + 1;
    }
}

} // verus!
