use vstd::prelude::*;
use vstd::utf8::{is_ascii_chars, is_ascii_chars_encode_utf8};
use turbo_quant::{PolarQuantizer, TurboQuantizer, TurboQuantError};
use crate::text::{push_char, split_words, texts, words_of};

verus! {

#[verifier::external_type_specification]
#[verifier::external_body]
pub struct ExTurboQuantizer(TurboQuantizer);

#[verifier::external_type_specification]
#[verifier::external_body]
pub struct ExPolarQuantizer(PolarQuantizer);

/// Why a quantizer could not be built.
#[allow(inconsistent_fields)]
#[derive(Debug, PartialEq, Eq)]
pub enum QuantizerError {
    ZeroDimension,
    OddDimension { got: usize },
    InvalidBitWidth { got: u8 },
    ZeroProjectionCount,
    Other { reason: String },
}

/// Bits per value given to both quantizers.
pub const QUANT_BITS: u8 = 8;

/// The outcome of `TurboQuantizer::new(dim, bits, projections, seed)` as its
/// source shows it: the first failed check in the order dimension non-zero,
/// dimension even, bit width in 2..=16, projection count non-zero.
pub open spec fn turbo_new_outcome(dim: usize, bits: u8, projections: usize) -> Option<QuantizerError> {
    if dim == 0 {
        Some(QuantizerError::ZeroDimension)
    } else if dim % 2 != 0 {
        Some(QuantizerError::OddDimension { got: dim })
    } else if !(2 <= bits <= 16) {
        Some(QuantizerError::InvalidBitWidth { got: bits })
    } else if projections == 0 {
        Some(QuantizerError::ZeroProjectionCount)
    } else {
        None
    }
}

/// The outcome of `PolarQuantizer::new(dim, bits, seed)` as its source shows
/// it: dimension non-zero, then even, then bit width in 1..=16.
pub open spec fn polar_new_outcome(dim: usize, bits: u8) -> Option<QuantizerError> {
    if dim == 0 {
        Some(QuantizerError::ZeroDimension)
    } else if dim % 2 != 0 {
        Some(QuantizerError::OddDimension { got: dim })
    } else if !(1 <= bits <= 16) {
        Some(QuantizerError::InvalidBitWidth { got: bits })
    } else {
        None
    }
}

/// Calls `turbo_quant::TurboQuantizer::new` and reads the built quantizer's
/// configuration back with its `dim`, `bits`, `projections` and `seed`
/// getters. Claimed from its source: it fails exactly as `turbo_new_outcome`
/// says (rotation building cannot fail for an even non-zero dimension) and
/// succeeds otherwise, and the quantizer stores the dimension, bit width,
/// projection count and seed it was given. `requires` leaves out dimensions
/// whose random matrices (dim * dim and projections * dim values) overflow
/// `usize`.
#[verifier::external_body]
fn new_turbo_quantizer(dim: usize, bits: u8, projections: usize, seed: u64) -> (r: Result<TurboCodec, QuantizerError>)
    requires
        dim * dim <= usize::MAX,
        projections * dim <= usize::MAX,
    ensures
        match turbo_new_outcome(dim, bits, projections) {
            Some(e) => r == Err::<TurboCodec, QuantizerError>(e),
            None => r matches Ok(c) && c.spec_dimension() == dim && c.spec_bits() == bits
                && c.spec_projections() == projections && c.spec_seed() == seed,
        },
{
    match TurboQuantizer::new(dim, bits, projections, seed) {
        Ok(q) => Ok(TurboCodec { dimension: q.dim(), bits: q.bits(), projections: q.projections(), seed: q.seed(), quantizer: q }),
        Err(TurboQuantError::ZeroDimension) => Err(QuantizerError::ZeroDimension),
        Err(TurboQuantError::OddDimension { got }) => Err(QuantizerError::OddDimension { got }),
        Err(TurboQuantError::InvalidBitWidth { got }) => Err(QuantizerError::InvalidBitWidth { got }),
        Err(TurboQuantError::ZeroProjectionCount) => Err(QuantizerError::ZeroProjectionCount),
        Err(other) => Err(QuantizerError::Other { reason: other.to_string() }),
    }
}

/// Calls `turbo_quant::PolarQuantizer::new` and reads the built quantizer's
/// dimension and bit width back with its `dim` and `bits` getters; it has no
/// getter for its seed, so the codec records the seed it was built with.
/// Claimed from its source: it fails exactly as `polar_new_outcome` says and
/// succeeds otherwise, and the quantizer stores the dimension and bit width it
/// was given. `requires` leaves out dimensions whose rotation matrix
/// overflows `usize`.
#[verifier::external_body]
fn new_polar_quantizer(dim: usize, bits: u8, seed: u64) -> (r: Result<PolarCodec, QuantizerError>)
    requires
        dim * dim <= usize::MAX,
    ensures
        match polar_new_outcome(dim, bits) {
            Some(e) => r == Err::<PolarCodec, QuantizerError>(e),
            None => r matches Ok(c) && c.spec_dimension() == dim && c.spec_bits() == bits
                && c.spec_seed() == seed,
        },
{
    match PolarQuantizer::new(dim, bits, seed) {
        Ok(q) => Ok(PolarCodec { dimension: q.dim(), bits: q.bits(), seed, quantizer: q }),
        Err(TurboQuantError::ZeroDimension) => Err(QuantizerError::ZeroDimension),
        Err(TurboQuantError::OddDimension { got }) => Err(QuantizerError::OddDimension { got }),
        Err(TurboQuantError::InvalidBitWidth { got }) => Err(QuantizerError::InvalidBitWidth { got }),
        Err(TurboQuantError::ZeroProjectionCount) => Err(QuantizerError::ZeroProjectionCount),
        Err(other) => Err(QuantizerError::Other { reason: other.to_string() }),
    }
}

/// A TurboQuantizer together with the configuration it was built from.
pub struct TurboCodec {
    dimension: usize,
    bits: u8,
    projections: usize,
    seed: u64,
    quantizer: TurboQuantizer,
}

impl TurboCodec {
    pub closed spec fn spec_dimension(self) -> usize {
        self.dimension
    }

    pub closed spec fn spec_bits(self) -> u8 {
        self.bits
    }

    pub closed spec fn spec_projections(self) -> usize {
        self.projections
    }

    pub closed spec fn spec_seed(self) -> u64 {
        self.seed
    }

    pub closed spec fn spec_quantizer(self) -> TurboQuantizer {
        self.quantizer
    }

    /// The dimension of the vectors the quantizer encodes.
    pub fn dimension(&self) -> (r: usize)
        ensures
            r == self.spec_dimension(),
    {
        self.dimension
    }

    /// The quantizer's total bit width per value.
    pub fn bits(&self) -> (r: u8)
        ensures
            r == self.spec_bits(),
    {
        self.bits
    }

    /// The number of QJL projections of the residual sketch.
    pub fn projections(&self) -> (r: usize)
        ensures
            r == self.spec_projections(),
    {
        self.projections
    }

    /// The seed of the quantizer's random matrices.
    pub fn seed(&self) -> (r: u64)
        ensures
            r == self.spec_seed(),
    {
        self.seed
    }

    /// The quantizer itself.
    pub fn quantizer(&self) -> (r: &TurboQuantizer)
        ensures
            *r == self.spec_quantizer(),
    {
        &self.quantizer
    }
}

/// Why a processor could not be built: the context of the failure and the
/// quantizer error that caused it.
#[derive(Debug, PartialEq, Eq)]
pub struct ProcessorError {
    pub context: String,
    pub cause: QuantizerError,
}

/// The context of every failure to build a processor.
pub open spec fn processor_failure_context() -> Seq<char> {
    "Failed to create TurboQuantizer"@
}

/// Runs text through vector quantizers of a fixed dimension and seed.
pub struct TurboProcessor {
    dimension: usize,
    seed: u64,
    turbo: TurboCodec,
}

impl TurboProcessor {
    /// A processor's dimension is even, at least 4, and its square fits
    /// `usize`; its TurboQuantizer was built from its dimension, 8 bits,
    /// `dimension / 4` projections and its seed.
    #[verifier::type_invariant]
    spec fn well_formed(self) -> bool {
        &&& 4 <= self.dimension
        &&& self.dimension % 2 == 0
        &&& self.dimension * self.dimension <= usize::MAX
        &&& self.turbo.spec_dimension() == self.dimension
        &&& self.turbo.spec_bits() == 8
        &&& self.turbo.spec_projections() == self.dimension / 4
        &&& self.turbo.spec_seed() == self.seed
    }

    pub closed spec fn spec_dimension(self) -> usize {
        self.dimension
    }

    pub closed spec fn spec_seed(self) -> u64 {
        self.seed
    }

    /// The TurboQuantizer, with its configuration, that `new` built for this
    /// processor.
    pub closed spec fn spec_codec(self) -> TurboCodec {
        self.turbo
    }

    /// Builds the processor with a TurboQuantizer of `dimension`, 8 bits,
    /// `dimension / 4` projections and `seed`. A failure carries the context
    /// "Failed to create TurboQuantizer" and the quantizer's error as cause.
    pub fn new(dimension: usize, seed: u64) -> (r: Result<TurboProcessor, ProcessorError>)
        requires
            dimension * dimension <= usize::MAX,
        ensures
            match turbo_new_outcome(dimension, 8, dimension / 4) {
                Some(e) => r matches Err(err) && err.context@ == processor_failure_context() && err.cause == e,
                None => r matches Ok(p) && p.spec_dimension() == dimension && p.spec_seed() == seed
                    && p.spec_codec().spec_dimension() == dimension
                    && p.spec_codec().spec_bits() == 8
                    && p.spec_codec().spec_projections() == dimension / 4
                    && p.spec_codec().spec_seed() == seed,
            },
            r is Ok <==> (4 <= dimension && dimension % 2 == 0),
    {
        assert((dimension / 4) * dimension <= dimension * dimension) by (nonlinear_arith);
        match new_turbo_quantizer(dimension, QUANT_BITS, dimension / 4, seed) {
            Ok(turbo) => Ok(TurboProcessor { dimension, seed, turbo }),
            Err(cause) => Err(ProcessorError { context: "Failed to create TurboQuantizer".to_owned(), cause }),
        }
    }

    pub fn dimension(&self) -> (r: usize)
        ensures
            r == self.spec_dimension(),
            4 <= r,
            r % 2 == 0,
    {
        proof { use_type_invariant(self); }
        self.dimension
    }

    pub fn seed(&self) -> (r: u64)
        ensures
            r == self.spec_seed(),
    {
        self.seed
    }

    /// The TurboQuantizer this processor encodes with: the one `new` built
    /// from this processor's dimension, 8 bits, `dimension / 4` projections
    /// and seed.
    pub fn quantizer(&self) -> (r: &TurboQuantizer)
        ensures
            *r == self.spec_codec().spec_quantizer(),
            self.spec_codec().spec_dimension() == self.spec_dimension(),
            self.spec_codec().spec_bits() == 8,
            self.spec_codec().spec_projections() == self.spec_dimension() / 4,
            self.spec_codec().spec_seed() == self.spec_seed(),
    {
        proof { use_type_invariant(self); }
        self.turbo.quantizer()
    }

    /// A PolarQuantizer of this processor's dimension, 8 bits and seed; it is
    /// always built, the dimension being even and non-zero.
    pub fn polar_quantizer(&self) -> (r: Result<PolarCodec, QuantizerError>)
        ensures
            match r {
                Ok(c) => c.spec_dimension() == self.spec_dimension()
                    && c.spec_bits() == QUANT_BITS
                    && c.spec_seed() == self.spec_seed(),
                Err(_) => false,
            },
    {
        proof { use_type_invariant(self); }
        new_polar_quantizer(self.dimension, QUANT_BITS, self.seed)
    }
}

/// A PolarQuantizer together with the dimension, bit width and seed it was
/// built from.
pub struct PolarCodec {
    dimension: usize,
    bits: u8,
    seed: u64,
    quantizer: PolarQuantizer,
}

impl PolarCodec {
    pub closed spec fn spec_dimension(self) -> usize {
        self.dimension
    }

    pub closed spec fn spec_bits(self) -> u8 {
        self.bits
    }

    pub closed spec fn spec_seed(self) -> u64 {
        self.seed
    }

    pub closed spec fn spec_quantizer(self) -> PolarQuantizer {
        self.quantizer
    }

    /// The dimension of the vectors the quantizer encodes.
    pub fn dimension(&self) -> (r: usize)
        ensures
            r == self.spec_dimension(),
    {
        self.dimension
    }

    /// The quantizer's bit width.
    pub fn bits(&self) -> (r: u8)
        ensures
            r == self.spec_bits(),
    {
        self.bits
    }

    /// The seed of the quantizer's rotation.
    pub fn seed(&self) -> (r: u64)
        ensures
            r == self.spec_seed(),
    {
        self.seed
    }

    /// The quantizer itself.
    pub fn quantizer(&self) -> (r: &PolarQuantizer)
        ensures
            *r == self.spec_quantizer(),
    {
        &self.quantizer
    }
}

/// The character a quantized level is shown as: the level clamped to the
/// printable ASCII range 32..=126.
pub open spec fn printable(level: u8) -> char {
    if level < 32 {
        ' '
    } else if level > 126 {
        '~'
    } else {
        level as char
    }
}

/// The characters shown for the first `limit` levels (all, if fewer).
pub open spec fn shown(levels: Seq<u8>, limit: int) -> Seq<char> {
    let n = if levels.len() < limit { levels.len() as int } else { limit };
    Seq::new(n as nat, |i: int| printable(levels[i]))
}

/// The shown text has one character per level up to the limit, each of them
/// printable ASCII (from `' '` to `'~'`).
pub proof fn shown_is_printable(levels: Seq<u8>, limit: int)
    requires
        0 <= limit,
    ensures
        shown(levels, limit).len() == (if levels.len() < limit { levels.len() as int } else { limit }),
        forall|i: int| 0 <= i < shown(levels, limit).len() ==> ' ' <= #[trigger] shown(levels, limit)[i] <= '~',
{
    assert forall|i: int| 0 <= i < shown(levels, limit).len() implies ' ' <= #[trigger] shown(levels, limit)[i] <= '~' by {
        let b = levels[i];
        if 32 <= b <= 126 {
            assert((b as char) as u32 == b as u32);
        }
    }
}

/// The printable character for one level.
pub fn printable_char(level: u8) -> (c: char)
    ensures
        c == printable(level),
        ' ' <= c <= '~',
{
    let b: u8 = if level < 32 {
        32
    } else if level > 126 {
        126
    } else {
        level
    };
    b as char
}

/// The text shown for the first `limit` levels.
pub fn show_levels(levels: &[u8], limit: usize) -> (r: String)
    ensures
        r@ == shown(levels@, limit as int),
{
    let n = if levels.len() < limit { levels.len() } else { limit };
    let mut out = String::new();
    for i in 0..n
        invariant
            n <= levels@.len(),
            n == (if levels@.len() < limit { levels@.len() as int } else { limit as int }),
            out@ =~= shown(levels@, limit as int).take(i as int),
    {
        let c = printable_char(levels[i]);
        push_char(&mut out, c);
    }
    out
}

/// A compression ratio, kept as the exact quotient `numerator / denominator`.
#[derive(Debug, Clone, Copy, PartialEq, Eq)]
pub struct CompressionRatio {
    pub numerator: usize,
    pub denominator: usize,
}

/// The outcome of running a text through a quantizer.
#[derive(Debug)]
pub struct EnhanceResult {
    pub original: String,
    pub enhanced: String,
    pub original_length: usize,
    pub enhanced_length: usize,
    pub compression_ratio: CompressionRatio,
    pub encoded_bytes: usize,
}

/// Where a text's features go in its vector: the codes of its first
/// characters, one per slot from slot 0, and for each word, in order, the
/// slot that word's hash is written to.
pub struct VectorLayout {
    pub char_codes: Vec<u32>,
    pub words: Vec<String>,
    pub word_slots: Vec<usize>,
}

/// The slot of the `i`-th word in a vector of dimension `dim`: the upper
/// half of the vector, taken round-robin.
pub open spec fn word_slot_spec(dim: int, i: int) -> int {
    dim / 2 + i % (dim / 2)
}

impl TurboProcessor {
    /// The slot of the `i`-th word of a text.
    pub fn word_slot(&self, i: usize) -> (r: usize)
        ensures
            r == word_slot_spec(self.spec_dimension() as int, i as int),
            self.spec_dimension() / 2 <= r < self.spec_dimension(),
    {
        proof { use_type_invariant(self); }
        let half = self.dimension / 2;
        half + i % half
    }

    /// The layout of `text` in this processor's vectors.
    pub fn vector_layout(&self, text: &str) -> (r: VectorLayout)
        ensures
            r.char_codes@.len() == (if text@.len() < self.spec_dimension() { text@.len() as int } else { self.spec_dimension() as int }),
            forall|i: int| 0 <= i < r.char_codes@.len() ==> #[trigger] r.char_codes@[i] == text@[i] as u32,
            texts(r.words@) == words_of(text@),
            r.word_slots@.len() == r.words@.len(),
            forall|i: int| 0 <= i < r.word_slots@.len() ==>
                #[trigger] r.word_slots@[i] == word_slot_spec(self.spec_dimension() as int, i),
            forall|i: int| 0 <= i < r.word_slots@.len() ==>
                #[trigger] r.word_slots@[i] < self.spec_dimension(),
    {
        proof { use_type_invariant(self); }
        let dim = self.dimension;
        let mut char_codes: Vec<u32> = Vec::new();
        let ghost whole = text@;
        for c in it: text.chars()
            invariant
                whole == text@,
                it.seq() == whole,
                char_codes@.len() == (if it.index() < dim { it.index() as int } else { dim as int }),
                forall|i: int| 0 <= i < char_codes@.len() ==> #[trigger] char_codes@[i] == whole[i] as u32,
        {
            if char_codes.len() < dim {
                char_codes.push(c as u32);
            }
        }
        let words = split_words(text);
        let mut word_slots: Vec<usize> = Vec::new();
        let n = words.len();
        for i in 0..n
            invariant
                n == words@.len(),
                word_slots@.len() == i,
                dim == self.spec_dimension(),
                4 <= dim,
                forall|j: int| 0 <= j < i ==> #[trigger] word_slots@[j] == word_slot_spec(dim as int, j),
                forall|j: int| 0 <= j < i ==> #[trigger] word_slots@[j] < dim,
        {
            let s = self.word_slot(i);
            word_slots.push(s);
        }
        VectorLayout { char_codes, words, word_slots }
    }

    /// Assembles the outcome of a TurboQuant round trip of `text`, given the
    /// levels of the decoded vector and the size of the code. The ratio is the
    /// original vector's bytes (4 per value) over the code's bytes.
    pub fn finish_turbo_enhance(&self, text: &str, levels: &[u8], encoded_bytes: usize) -> (r: EnhanceResult)
        ensures
            r.original@ == text@,
            r.enhanced@ == shown(levels@, text.len() as int),
            r.original_length == text.len(),
            r.enhanced_length == r.enhanced@.len(),
            r.enhanced_length <= r.original_length,
            forall|i: int| 0 <= i < r.enhanced@.len() ==> ' ' <= #[trigger] r.enhanced@[i] <= '~',
            r.compression_ratio.numerator == self.spec_dimension() * 4,
            r.compression_ratio.denominator == encoded_bytes,
            r.encoded_bytes == encoded_bytes,
    {
        proof { use_type_invariant(self); }
        assert(self.dimension * 4 <= self.dimension * self.dimension) by (nonlinear_arith)
            requires 4 <= self.dimension;
        let ratio = CompressionRatio { numerator: self.dimension * 4, denominator: encoded_bytes };
        self.assemble(text, levels, encoded_bytes, ratio)
    }

    /// Assembles the outcome of a PolarQuant round trip of `text`, given the
    /// levels of the decoded vector and the size of the code. The ratio is the
    /// code's bytes over the original vector's bytes (4 per value).
    pub fn finish_polar_enhance(&self, text: &str, levels: &[u8], encoded_bytes: usize) -> (r: EnhanceResult)
        ensures
            r.original@ == text@,
            r.enhanced@ == shown(levels@, text.len() as int),
            r.original_length == text.len(),
            r.enhanced_length == r.enhanced@.len(),
            r.enhanced_length <= r.original_length,
            forall|i: int| 0 <= i < r.enhanced@.len() ==> ' ' <= #[trigger] r.enhanced@[i] <= '~',
            r.compression_ratio.numerator == encoded_bytes,
            r.compression_ratio.denominator == self.spec_dimension() * 4,
            r.encoded_bytes == encoded_bytes,
    {
        proof { use_type_invariant(self); }
        assert(self.dimension * 4 <= self.dimension * self.dimension) by (nonlinear_arith)
            requires 4 <= self.dimension;
        let ratio = CompressionRatio { numerator: encoded_bytes, denominator: self.dimension * 4 };
        self.assemble(text, levels, encoded_bytes, ratio)
    }

    fn assemble(&self, text: &str, levels: &[u8], encoded_bytes: usize, ratio: CompressionRatio) -> (r: EnhanceResult)
        ensures
            r.original@ == text@,
            r.enhanced@ == shown(levels@, text.len() as int),
            r.original_length == text.len(),
            r.enhanced_length == r.enhanced@.len(),
            r.enhanced_length <= r.original_length,
            forall|i: int| 0 <= i < r.enhanced@.len() ==> ' ' <= #[trigger] r.enhanced@[i] <= '~',
            r.compression_ratio == ratio,
            r.encoded_bytes == encoded_bytes,
    {
        let original_length = text.len();
        let enhanced = show_levels(levels, original_length);
        let enhanced_length = enhanced.as_str().len();
        proof {
            shown_is_printable(levels@, original_length as int);
            assert(is_ascii_chars(enhanced@));
            is_ascii_chars_encode_utf8(enhanced@);
        }
        EnhanceResult {
            original: text.to_owned(),
            enhanced,
            original_length,
            enhanced_length,
            compression_ratio: ratio,
            encoded_bytes,
        }
    }
}

impl Default for TurboProcessor {
    /// The processor of dimension 256 and seed 42.
    fn default() -> (r: TurboProcessor)
        ensures
            r.spec_dimension() == 256,
            r.spec_seed() == 42,
            r.spec_codec().spec_dimension() == 256,
            r.spec_codec().spec_bits() == 8,
            r.spec_codec().spec_projections() == 64,
            r.spec_codec().spec_seed() == 42,
    {
        let built = TurboProcessor::new(256, 42);
        built.unwrap()
    }
}

/// A level already in the printable range is shown as the character with
/// that code; a level below it as a space and one above it as `'~'`.
pub proof fn printable_clamps_levels(level: u8)
    ensures
        32 <= level <= 126 ==> printable(level) as u32 == level as u32,
        level < 32 ==> printable(level) == ' ',
        level > 126 ==> printable(level) == '~',
{
}

/// Word slots fill the upper half of the vector in order and then wrap: the
/// first `dim / 2` words take slots `dim / 2`, `dim / 2 + 1`, ..., and word
/// `i + dim / 2` shares the slot of word `i`.
pub proof fn word_slots_wrap_round_upper_half(dim: int, i: int)
    requires
        4 <= dim,
        0 <= i,
    ensures
        i < dim / 2 ==> word_slot_spec(dim, i) == dim / 2 + i,
        word_slot_spec(dim, i + dim / 2) == word_slot_spec(dim, i),
        dim / 2 <= word_slot_spec(dim, i) < dim / 2 + dim / 2,
{
    let h = dim / 2;
    assert(h >= 2);
    assert(i < h ==> i % h == i) by (nonlinear_arith) requires h >= 2, 0 <= i;
    assert((i + h) % h == i % h) by (nonlinear_arith) requires h >= 2, 0 <= i;
    assert(0 <= i % h < h) by (nonlinear_arith) requires h >= 2;
}

} // verus!
