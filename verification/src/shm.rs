//! Layout of the shared-memory region that carries audio between the host
//! and a plugin worker process.
//!
//! ```text
//! | header (64 bytes) | inputs: input_channels × max_block_size × 4 bytes |
//! | outputs: output_channels × max_block_size × 4 bytes |
//! ```
//!
//! Each channel holds `max_block_size` 32-bit samples. This module computes
//! the layout; mapping the region into memory is done by the program.
use vstd::prelude::*;

verus! {

/// Size of the region header in bytes.
pub const HEADER_SIZE: usize = 64;

/// Size of one audio sample (a 32-bit float) in bytes.
pub const SAMPLE_SIZE: usize = 4;

/// Header at the start of shared memory.
#[derive(Debug, Clone, Copy)]
pub struct ShmHeader {
    /// Ready flag: 1 = data available, 0 = consumed.
    pub ready_flag: u32,
    /// Number of samples in the current block.
    pub num_samples: u32,
    /// Number of input channels.
    pub input_channels: u32,
    /// Number of output channels.
    pub output_channels: u32,
    /// Reserved for future use.
    pub _reserved: [u8; 48],
}

impl ShmHeader {
    /// The header a freshly created region starts with: everything zero
    /// but the channel counts.
    pub fn initial(input_channels: u32, output_channels: u32) -> (h: Self)
        ensures
            h.ready_flag == 0,
            h.num_samples == 0,
            h.input_channels == input_channels,
            h.output_channels == output_channels,
            forall|i: int| 0 <= i < 48 ==> h._reserved@[i] == 0u8,
    {
        ShmHeader { ready_flag: 0, num_samples: 0, input_channels, output_channels, _reserved: [0u8; 48] }
    }
}

/// Total size in bytes of a region for these channel counts and block size.
pub open spec fn region_size(input_channels: int, output_channels: int, max_block_size: int) -> int {
    HEADER_SIZE + (input_channels + output_channels) * max_block_size * SAMPLE_SIZE
}

/// Whether the region for these dimensions fits the address space.
pub open spec fn region_fits(input_channels: int, output_channels: int, max_block_size: int) -> bool {
    region_size(input_channels, output_channels, max_block_size) <= usize::MAX
}

/// Byte offset of input channel `channel`.
pub open spec fn input_offset(channel: int, max_block_size: int) -> int {
    HEADER_SIZE + channel * max_block_size * SAMPLE_SIZE
}

/// Byte offset of output channel `channel`.
pub open spec fn output_offset(input_channels: int, channel: int, max_block_size: int) -> int {
    HEADER_SIZE + (input_channels + channel) * max_block_size * SAMPLE_SIZE
}

proof fn lemma_mul_mono(a: int, b: int, m: int)
    requires
        0 <= a <= b,
        0 <= m,
    ensures
        a * m * SAMPLE_SIZE <= b * m * SAMPLE_SIZE,
{
    assert(a * m <= b * m) by (nonlinear_arith)
        requires
            0 <= a <= b,
            0 <= m,
    ;
}

proof fn lemma_split(a: int, b: int, m: int)
    ensures
        (a + b) * m * SAMPLE_SIZE == a * m * SAMPLE_SIZE + b * m * SAMPLE_SIZE,
{
    assert((a + b) * m == a * m + b * m) by (nonlinear_arith);
}

/// Description of a shared-memory audio region: its name, its dimensions
/// and whether this side created it.
pub struct ShmAudioBuffer {
    name: String,
    size: usize,
    max_block_size: usize,
    input_channels: usize,
    output_channels: usize,
    is_owner: bool,
}

impl ShmAudioBuffer {
    #[verifier::type_invariant]
    spec fn consistent(self) -> bool {
        &&& region_fits(self.input_channels as int, self.output_channels as int, self.max_block_size as int)
        &&& self.size == region_size(self.input_channels as int, self.output_channels as int, self.max_block_size as int)
    }

    /// The size is the region size of the dimensions, which fits the
    /// address space. Every value of this type is well formed.
    pub closed spec fn well_formed(self) -> bool {
        self.consistent()
    }

    /// The name of the shared memory object.
    pub closed spec fn spec_name(self) -> Seq<char> {
        self.name@
    }

    /// Total size of the region in bytes.
    pub closed spec fn spec_size(self) -> usize {
        self.size
    }

    /// Samples per channel per block.
    pub closed spec fn spec_max_block_size(self) -> usize {
        self.max_block_size
    }

    /// Number of input channels.
    pub closed spec fn spec_input_channels(self) -> usize {
        self.input_channels
    }

    /// Number of output channels.
    pub closed spec fn spec_output_channels(self) -> usize {
        self.output_channels
    }

    /// Whether this side created (owns) the shared memory object.
    pub closed spec fn spec_is_owner(self) -> bool {
        self.is_owner
    }

    /// Calculate the total shared memory size needed.
    pub fn required_size(input_channels: usize, output_channels: usize, max_block_size: usize) -> (size: usize)
        requires
            region_fits(input_channels as int, output_channels as int, max_block_size as int),
        ensures
            size == region_size(input_channels as int, output_channels as int, max_block_size as int),
    {
        let channels = input_channels as u128 + output_channels as u128;
        proof {
            assert(channels * max_block_size <= channels * max_block_size * SAMPLE_SIZE) by (nonlinear_arith)
                requires
                    0 <= channels,
                    0 <= max_block_size,
            ;
            assert(0 <= channels * max_block_size) by (nonlinear_arith)
                requires
                    0 <= channels,
                    0 <= max_block_size,
            ;
        }
        let per_channel = channels * (max_block_size as u128);
        let audio = per_channel * (SAMPLE_SIZE as u128);
        (HEADER_SIZE as u128 + audio) as usize
    }

    /// Describe a region with these dimensions, created by this side
    /// (`is_owner`) or opened from the other side.
    pub fn describe(
        name: &str,
        input_channels: usize,
        output_channels: usize,
        max_block_size: usize,
        is_owner: bool,
    ) -> (b: Self)
        requires
            region_fits(input_channels as int, output_channels as int, max_block_size as int),
        ensures
            b.well_formed(),
            b.spec_name() == name@,
            b.spec_input_channels() == input_channels,
            b.spec_output_channels() == output_channels,
            b.spec_max_block_size() == max_block_size,
            b.spec_is_owner() == is_owner,
            b.spec_size() == region_size(input_channels as int, output_channels as int, max_block_size as int),
    {
        let size = Self::required_size(input_channels, output_channels, max_block_size);
        ShmAudioBuffer {
            name: name.to_owned(),
            size,
            max_block_size,
            input_channels,
            output_channels,
            is_owner,
        }
    }

    /// Get the shared memory name (for passing to the child process).
    pub fn name(&self) -> (n: &str)
        ensures
            n@ == self.spec_name(),
    {
        self.name.as_str()
    }

    /// Maximum block size.
    pub fn max_block_size(&self) -> (m: usize)
        ensures
            m == self.spec_max_block_size(),
    {
        self.max_block_size
    }

    /// Number of input channels.
    pub fn input_channels(&self) -> (n: usize)
        ensures
            n == self.spec_input_channels(),
    {
        self.input_channels
    }

    /// Number of output channels.
    pub fn output_channels(&self) -> (n: usize)
        ensures
            n == self.spec_output_channels(),
    {
        self.output_channels
    }

    /// Total mapped size in bytes.
    pub fn size(&self) -> (s: usize)
        ensures
            s == self.spec_size(),
            s == region_size(
                self.spec_input_channels() as int,
                self.spec_output_channels() as int,
                self.spec_max_block_size() as int,
            ),
    {
        proof {
            use_type_invariant(self);
        }
        self.size
    }

    /// Whether this side created (owns) the shared memory object.
    pub fn is_owner(&self) -> (o: bool)
        ensures
            o == self.spec_is_owner(),
    {
        self.is_owner
    }

    /// Byte offset of input channel `channel`, or `None` past the last one.
    pub fn input_channel_offset(&self, channel: usize) -> (off: Option<usize>)
        ensures
            channel >= self.spec_input_channels() ==> off.is_none(),
            channel < self.spec_input_channels() ==> off == Some(
                input_offset(channel as int, self.spec_max_block_size() as int) as usize,
            ),
    {
        proof {
            use_type_invariant(self);
        }
        if channel >= self.input_channels {
            return None;
        }
        proof {
            lemma_mul_mono(channel as int, (self.input_channels + self.output_channels) as int, self.max_block_size as int);
            assert(0 <= channel * self.max_block_size) by (nonlinear_arith);
        }
        Some(HEADER_SIZE + channel * self.max_block_size * SAMPLE_SIZE)
    }

    /// Byte offset of output channel `channel`, or `None` past the last one.
    pub fn output_channel_offset(&self, channel: usize) -> (off: Option<usize>)
        ensures
            channel >= self.spec_output_channels() ==> off.is_none(),
            channel < self.spec_output_channels() ==> off == Some(
                output_offset(
                    self.spec_input_channels() as int,
                    channel as int,
                    self.spec_max_block_size() as int,
                ) as usize,
            ),
    {
        proof {
            use_type_invariant(self);
        }
        if channel >= self.output_channels {
            return None;
        }
        let first = self.input_channels as u128 + channel as u128;
        proof {
            lemma_mul_mono(first as int, (self.input_channels + self.output_channels) as int, self.max_block_size as int);
            assert(0 <= first * self.max_block_size) by (nonlinear_arith)
                requires
                    0 <= first,
                    0 <= self.max_block_size,
            ;
        }
        let bytes = first * (self.max_block_size as u128) * (SAMPLE_SIZE as u128);
        Some((HEADER_SIZE as u128 + bytes) as usize)
    }

    /// Every channel's samples lie inside the region, after the header, and
    /// the samples of two different channels never overlap.
    pub proof fn lemma_channels_disjoint(self, a: int, b: int)
        requires
            0 <= a < self.spec_input_channels() + self.spec_output_channels(),
            0 <= b < self.spec_input_channels() + self.spec_output_channels(),
            a != b,
            self.well_formed(),
        ensures
            ({
                let m = self.spec_max_block_size() as int;
                let start_a = HEADER_SIZE + a * m * SAMPLE_SIZE;
                let start_b = HEADER_SIZE + b * m * SAMPLE_SIZE;
                &&& HEADER_SIZE <= start_a
                &&& start_a + m * SAMPLE_SIZE <= self.spec_size()
                &&& (start_a + m * SAMPLE_SIZE <= start_b || start_b + m * SAMPLE_SIZE <= start_a)
            }),
    {
        let m = self.max_block_size as int;
        let n = (self.input_channels + self.output_channels) as int;
        assert(0 <= a * m) by (nonlinear_arith)
            requires
                0 <= a,
                0 <= m,
        ;
        lemma_split(a, 1, m);
        lemma_mul_mono(a + 1, n, m);
        if a < b {
            lemma_mul_mono(a + 1, b, m);
        } else {
            lemma_split(b, 1, m);
            lemma_mul_mono(b + 1, a, m);
        }
    }

    /// The channels are laid out back to back after the header, each
    /// taking one block of 4-byte samples: input channel 0 starts right
    /// after the header, every channel starts `max_block_size * SAMPLE_SIZE`
    /// bytes after the one before it, the outputs follow the last input,
    /// and the region ends where the last output ends.
    pub proof fn lemma_offsets_back_to_back(self, c: int)
        requires
            0 <= c,
            self.well_formed(),
        ensures
            ({
                let m = self.spec_max_block_size() as int;
                let i = self.spec_input_channels() as int;
                let o = self.spec_output_channels() as int;
                &&& input_offset(0, m) == HEADER_SIZE
                &&& input_offset(c + 1, m) == input_offset(c, m) + m * SAMPLE_SIZE
                &&& output_offset(i, 0, m) == input_offset(i, m)
                &&& output_offset(i, c + 1, m) == output_offset(i, c, m) + m * SAMPLE_SIZE
                &&& self.spec_size() == output_offset(i, o, m)
            }),
    {
        let m = self.spec_max_block_size() as int;
        let i = self.spec_input_channels() as int;
        let o = self.spec_output_channels() as int;
        lemma_split(c, 1, m);
        lemma_split(i + c, 1, m);
        assert(0 * m * SAMPLE_SIZE == 0) by (nonlinear_arith);
        assert(1 * m * SAMPLE_SIZE == m * SAMPLE_SIZE) by (nonlinear_arith);
    }

    /// The sample ranges that the offsets give to two different input
    /// channels, or to two different output channels, or to an input and
    /// an output channel, never overlap, and each lies inside the region.
    pub proof fn lemma_offset_ranges_disjoint(self, a: int, b: int)
        requires
            self.well_formed(),
            0 <= a < self.spec_input_channels() + self.spec_output_channels(),
            0 <= b < self.spec_input_channels() + self.spec_output_channels(),
            a != b,
        ensures
            ({
                let m = self.spec_max_block_size() as int;
                let i = self.spec_input_channels() as int;
                let start_a = if a < i { input_offset(a, m) } else { output_offset(i, a - i, m) };
                let start_b = if b < i { input_offset(b, m) } else { output_offset(i, b - i, m) };
                &&& HEADER_SIZE <= start_a
                &&& start_a + m * SAMPLE_SIZE <= self.spec_size()
                &&& (start_a + m * SAMPLE_SIZE <= start_b || start_b + m * SAMPLE_SIZE <= start_a)
            }),
    {
        self.lemma_channels_disjoint(a, b);
    }
}

} // verus!
