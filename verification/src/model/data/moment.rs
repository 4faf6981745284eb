//! Gate-by-gate moment data: fixed-point encoded values and their decoding.
use vstd::prelude::*;

verus! {

/// CFP status codes for clutter filter power moments.
#[derive(Debug, Clone, Copy, PartialEq, Eq, Structural, Hash)]
pub enum CFPStatus {
    /// Clutter filter not applied.
    FilterNotApplied,
    /// Point clutter filter applied.
    PointClutterFilterApplied,
    /// Dual-pol-only filter applied.
    DualPolOnlyFilterApplied,
    /// Reserved CFP status code.
    Reserved(u8),
}

/// A decoded gate of a standard moment, before the scale and offset are
/// applied to its raw value.
#[derive(Debug, Clone, Copy, PartialEq, Eq, Structural)]
pub enum MomentCode {
    /// A data value whose physical value is `(raw - offset) / scale`.
    Scaled(u16),
    /// A data value whose physical value is the raw value itself (the moment
    /// has a zero scale).
    Unscaled(u16),
    /// The value for this gate was below the signal threshold.
    BelowThreshold,
    /// The value for this gate exceeded the maximum unambiguous range.
    RangeFolded,
}

/// A decoded gate of a clutter filter power moment: raw values 0-7 are status
/// codes, higher values are data.
#[derive(Debug, Clone, Copy, PartialEq, Eq, Structural)]
pub enum CFPMomentCode {
    /// A CFP status code (raw values 0-7).
    Status(CFPStatus),
    /// A data value whose physical value is `(raw - offset) / scale`.
    Scaled(u16),
    /// A data value whose physical value is the raw value itself (the moment
    /// has a zero scale).
    Unscaled(u16),
}

/// Whether the IEEE-754 single-precision number with these bits is zero
/// (positive or negative zero).
pub open spec fn f32_bits_are_zero(bits: u32) -> bool {
    bits & 0x7fff_ffffu32 == 0
}

/// The raw gate values held by the encoded bytes: big-endian 16-bit words
/// when the word size is 16 (a trailing odd byte is ignored), single bytes
/// otherwise.
pub open spec fn gate_words(data_word_size: u8, bytes: Seq<u8>) -> Seq<u16> {
    if data_word_size == 16 {
        Seq::new(bytes.len() / 2, |i: int| (bytes[2 * i] as int * 256 + bytes[2 * i + 1] as int) as u16)
    } else {
        Seq::new(bytes.len(), |i: int| bytes[i] as u16)
    }
}

/// Decoding of one raw value of a standard moment.
pub open spec fn moment_code(scale_is_zero: bool, raw: u16) -> MomentCode {
    if scale_is_zero {
        MomentCode::Unscaled(raw)
    } else if raw == 0 {
        MomentCode::BelowThreshold
    } else if raw == 1 {
        MomentCode::RangeFolded
    } else {
        MomentCode::Scaled(raw)
    }
}

/// Decoding of one raw value of a clutter filter power moment.
pub open spec fn cfp_code(scale_is_zero: bool, raw: u16) -> CFPMomentCode {
    if raw == 0 {
        CFPMomentCode::Status(CFPStatus::FilterNotApplied)
    } else if raw == 1 {
        CFPMomentCode::Status(CFPStatus::PointClutterFilterApplied)
    } else if raw == 2 {
        CFPMomentCode::Status(CFPStatus::DualPolOnlyFilterApplied)
    } else if raw <= 7 {
        CFPMomentCode::Status(CFPStatus::Reserved(raw as u8))
    } else if scale_is_zero {
        CFPMomentCode::Unscaled(raw)
    } else {
        CFPMomentCode::Scaled(raw)
    }
}

/// Encoded moment data of a radial: gate metadata and raw values, shared by
/// [`MomentData`] and [`CFPMomentData`].
#[derive(Debug, Clone, PartialEq, Eq)]
pub struct MomentDataBlock {
    gate_count: u16,
    first_gate_range: u16,
    gate_interval: u16,
    data_word_size: u8,
    scale_bits: u32,
    offset_bits: u32,
    values: Vec<u8>,
}

impl MomentDataBlock {
    /// The number of gates.
    pub closed spec fn spec_gate_count(self) -> u16 {
        self.gate_count
    }

    /// Range to the centre of the first gate, in metres.
    pub closed spec fn spec_first_gate_range(self) -> u16 {
        self.first_gate_range
    }

    /// Range between the centres of consecutive gates, in metres.
    pub closed spec fn spec_gate_interval(self) -> u16 {
        self.gate_interval
    }

    /// Bits per gate.
    pub closed spec fn spec_data_word_size(self) -> u8 {
        self.data_word_size
    }

    /// Bit pattern of the `f32` scale.
    pub closed spec fn spec_scale_bits(self) -> u32 {
        self.scale_bits
    }

    /// Bit pattern of the `f32` offset.
    pub closed spec fn spec_offset_bits(self) -> u32 {
        self.offset_bits
    }

    /// The encoded gate bytes.
    pub closed spec fn spec_values(self) -> Seq<u8> {
        self.values@
    }

    /// The raw gate values.
    pub open spec fn words(self) -> Seq<u16> {
        gate_words(self.spec_data_word_size(), self.spec_values())
    }

    /// Whether the scale is zero, so that raw values are used directly.
    pub open spec fn scale_is_zero(self) -> bool {
        f32_bits_are_zero(self.spec_scale_bits())
    }

    /// Creates a block from its fixed-point encoding; `scale_bits` and
    /// `offset_bits` are the bit patterns of the `f32` scale and offset.
    pub fn from_fixed_point(
        gate_count: u16,
        first_gate_range: u16,
        gate_interval: u16,
        data_word_size: u8,
        scale_bits: u32,
        offset_bits: u32,
        values: Vec<u8>,
    ) -> (r: Self)
        ensures
            r.spec_gate_count() == gate_count,
            r.spec_first_gate_range() == first_gate_range,
            r.spec_gate_interval() == gate_interval,
            r.spec_data_word_size() == data_word_size,
            r.spec_scale_bits() == scale_bits,
            r.spec_offset_bits() == offset_bits,
            r.spec_values() == values@,
    {
        MomentDataBlock {
            gate_count,
            first_gate_range,
            gate_interval,
            data_word_size,
            scale_bits,
            offset_bits,
            values,
        }
    }

    /// The number of gates.
    pub fn gate_count(&self) -> (r: u16)
        ensures
            r == self.spec_gate_count(),
    {
        self.gate_count
    }

    /// Range to the centre of the first gate, in metres.
    pub fn first_gate_range_m(&self) -> (r: u16)
        ensures
            r == self.spec_first_gate_range(),
    {
        self.first_gate_range
    }

    /// Range between the centres of consecutive gates, in metres.
    pub fn gate_interval_m(&self) -> (r: u16)
        ensures
            r == self.spec_gate_interval(),
    {
        self.gate_interval
    }

    /// Number of bits per gate (8 or 16).
    pub fn data_word_size(&self) -> (r: u8)
        ensures
            r == self.spec_data_word_size(),
    {
        self.data_word_size
    }

    /// Bit pattern of the `f32` scale factor.
    pub fn scale_bits(&self) -> (r: u32)
        ensures
            r == self.spec_scale_bits(),
    {
        self.scale_bits
    }

    /// Bit pattern of the `f32` offset.
    pub fn offset_bits(&self) -> (r: u32)
        ensures
            r == self.spec_offset_bits(),
    {
        self.offset_bits
    }

    /// The raw encoded gate bytes.
    pub fn raw_values(&self) -> (r: &[u8])
        ensures
            r@ == self.spec_values(),
    {
        self.values.as_slice()
    }

    /// Whether the scale is zero (positive or negative zero).
    pub fn has_zero_scale(&self) -> (r: bool)
        ensures
            r == self.scale_is_zero(),
    {
        self.scale_bits & 0x7fff_ffffu32 == 0
    }

    /// The raw gate values as `u16`: big-endian words for 16-bit moments,
    /// single bytes otherwise.
    pub fn raw_gate_values(&self) -> (r: Vec<u16>)
        ensures
            r@ == self.words(),
    {
        let bytes = &self.values;
        let mut out: Vec<u16> = Vec::new();
        if self.data_word_size == 16 {
            let n = bytes.len() / 2;
            let mut i: usize = 0;
            while i < n
                invariant
                    n == bytes@.len() / 2,
                    i <= n,
                    out@ =~= gate_words(16, bytes@).take(i as int),
                decreases n - i,
            {
                assert(2 * i + 1 < bytes@.len());
                assert(bytes@.len() == bytes.len());
                let hi = bytes[2 * i] as u16;
                let lo = bytes[2 * i + 1] as u16;
                let w = hi * 256 + lo;
                out.push(w);
                i = i + 1;
            }
        } else {
            let n = bytes.len();
            let mut i: usize = 0;
            while i < n
                invariant
                    n == bytes@.len(),
                    i <= n,
                    self.data_word_size != 16,
                    out@ =~= gate_words(self.data_word_size, bytes@).take(i as int),
                decreases n - i,
            {
                out.push(bytes[i] as u16);
                i = i + 1;
            }
        }
        out
    }

    /// The standard decoding of the gates: below threshold (raw 0), range
    /// folded (raw 1), or a data value; with a zero scale every raw value is
    /// a data value.
    pub open spec fn moment_codes_spec(self) -> Seq<MomentCode> {
        self.words().map_values(|w: u16| moment_code(self.scale_is_zero(), w))
    }

    /// The gates decoded as `moment_codes_spec` describes.
    pub fn moment_codes(&self) -> (r: Vec<MomentCode>)
        ensures
            r@ == self.moment_codes_spec(),
    {
        let words = self.raw_gate_values();
        let zero = self.has_zero_scale();
        let mut out: Vec<MomentCode> = Vec::new();
        let mut i: usize = 0;
        while i < words.len()
            invariant
                i <= words@.len(),
                zero == self.scale_is_zero(),
                words@ == self.words(),
                out@ =~= words@.take(i as int).map_values(|w: u16| moment_code(zero, w)),
            decreases words@.len() - i,
        {
            let w = words[i];
            let code = if zero {
                MomentCode::Unscaled(w)
            } else if w == 0 {
                MomentCode::BelowThreshold
            } else if w == 1 {
                MomentCode::RangeFolded
            } else {
                MomentCode::Scaled(w)
            };
            out.push(code);
            i = i + 1;
            assert(words@.take(i as int) =~= words@.take(i - 1).push(w));
        }
        assert(words@.take(i as int) =~= words@);
        out
    }
}

/// Moment data of a radial for one product, where each value is a gate.
#[derive(Debug, Clone, PartialEq, Eq)]
pub struct MomentData {
    inner: MomentDataBlock,
}

impl MomentData {
    /// The encoded block.
    pub closed spec fn block(self) -> MomentDataBlock {
        self.inner
    }

    /// Creates moment data from its fixed-point encoding; `scale_bits` and
    /// `offset_bits` are the bit patterns of the `f32` scale and offset.
    pub fn from_fixed_point(
        gate_count: u16,
        first_gate_range: u16,
        gate_interval: u16,
        data_word_size: u8,
        scale_bits: u32,
        offset_bits: u32,
        values: Vec<u8>,
    ) -> (r: Self)
        ensures
            r.block().spec_gate_count() == gate_count,
            r.block().spec_first_gate_range() == first_gate_range,
            r.block().spec_gate_interval() == gate_interval,
            r.block().spec_data_word_size() == data_word_size,
            r.block().spec_scale_bits() == scale_bits,
            r.block().spec_offset_bits() == offset_bits,
            r.block().spec_values() == values@,
    {
        MomentData {
            inner: MomentDataBlock::from_fixed_point(
                gate_count,
                first_gate_range,
                gate_interval,
                data_word_size,
                scale_bits,
                offset_bits,
                values,
            ),
        }
    }

    /// The encoded block: gate metadata and raw values.
    pub fn data(&self) -> (r: &MomentDataBlock)
        ensures
            *r == self.block(),
    {
        &self.inner
    }

    /// The decoded gates: below threshold (raw 0), range folded (raw 1), or
    /// a data value; with a zero scale every raw value is a data value.
    pub fn codes(&self) -> (r: Vec<MomentCode>)
        ensures
            r@ == self.block().moment_codes_spec(),
    {
        self.inner.moment_codes()
    }
}

/// Clutter filter power (CFP) moment data.
#[derive(Debug, Clone, PartialEq, Eq)]
pub struct CFPMomentData {
    inner: MomentDataBlock,
}

impl CFPMomentData {
    /// The encoded block.
    pub closed spec fn block(self) -> MomentDataBlock {
        self.inner
    }

    /// Creates CFP moment data from its fixed-point encoding; `scale_bits`
    /// and `offset_bits` are the bit patterns of the `f32` scale and offset.
    pub fn from_fixed_point(
        gate_count: u16,
        first_gate_range: u16,
        gate_interval: u16,
        data_word_size: u8,
        scale_bits: u32,
        offset_bits: u32,
        values: Vec<u8>,
    ) -> (r: Self)
        ensures
            r.block().spec_gate_count() == gate_count,
            r.block().spec_first_gate_range() == first_gate_range,
            r.block().spec_gate_interval() == gate_interval,
            r.block().spec_data_word_size() == data_word_size,
            r.block().spec_scale_bits() == scale_bits,
            r.block().spec_offset_bits() == offset_bits,
            r.block().spec_values() == values@,
    {
        CFPMomentData {
            inner: MomentDataBlock::from_fixed_point(
                gate_count,
                first_gate_range,
                gate_interval,
                data_word_size,
                scale_bits,
                offset_bits,
                values,
            ),
        }
    }

    /// The encoded block: gate metadata and raw values.
    pub fn data(&self) -> (r: &MomentDataBlock)
        ensures
            *r == self.block(),
    {
        &self.inner
    }

    /// The decoded gates: raw values 0-7 are CFP status codes, higher values
    /// are data values.
    pub fn codes(&self) -> (r: Vec<CFPMomentCode>)
        ensures
            r@ == self.block().words().map_values(
                |w: u16| cfp_code(self.block().scale_is_zero(), w),
            ),
    {
        let words = self.inner.raw_gate_values();
        let zero = self.inner.has_zero_scale();
        let mut out: Vec<CFPMomentCode> = Vec::new();
        let mut i: usize = 0;
        while i < words.len()
            invariant
                i <= words@.len(),
                zero == self.block().scale_is_zero(),
                out@ =~= words@.take(i as int).map_values(|w: u16| cfp_code(zero, w)),
            decreases words@.len() - i,
        {
            let w = words[i];
            let code = if w == 0 {
                CFPMomentCode::Status(CFPStatus::FilterNotApplied)
            } else if w == 1 {
                CFPMomentCode::Status(CFPStatus::PointClutterFilterApplied)
            } else if w == 2 {
                CFPMomentCode::Status(CFPStatus::DualPolOnlyFilterApplied)
            } else if w <= 7 {
                CFPMomentCode::Status(CFPStatus::Reserved(w as u8))
            } else if zero {
                CFPMomentCode::Unscaled(w)
            } else {
                CFPMomentCode::Scaled(w)
            };
            out.push(code);
            i = i + 1;
            assert(words@.take(i as int) =~= words@.take(i - 1).push(w));
        }
        assert(words@.take(i as int) =~= words@);
        out
    }
}

} // verus!
