//! Certificate compression and decompression support.
//!
//! Two interface families, one per direction, keyed by algorithm
//! identifier, plus the list of backends this build enables. A compressor
//! and the decompressor for the same identifier are exact inverses for any
//! payload the compressor produces, and decompression must fill the
//! caller-provided buffer exactly: any size mismatch is a failure.

use vstd::prelude::*;

use crate::enums::CertificateCompressionAlgorithm;

verus! {

/// A hint for how many resources to dedicate to a compression.
#[derive(Debug, Copy, Clone, Eq, PartialEq, Structural)]
pub enum CompressionLevel {
    /// The compression is happening interactively during a handshake:
    /// favor speed over ratio.
    Interactive,
    /// The result may be amortized over many connections: favor ratio.
    Amortized,
}

/// A content-less error for a failed decompression.
#[derive(Debug)]
pub struct DecompressionFailed;

/// A content-less error for a failed compression.
#[derive(Debug)]
pub struct CompressionFailed;

/// What a zlib stream at the start of `input` decompresses to, if `input`
/// begins with a complete, well-formed stream.
pub uninterp spec fn zlib_inflated(input: Seq<u8>) -> Option<Seq<u8>>;

/// What a brotli stream at the start of `input` decompresses to, if
/// `input` begins with a complete, well-formed stream.
pub uninterp spec fn brotli_inflated(input: Seq<u8>) -> Option<Seq<u8>>;

/// The zlib stream that deflating `input` at zlib effort `level` produces:
/// deflate output is a function of the input bytes and the configuration
/// alone.
pub uninterp spec fn zlib_deflated(input: Seq<u8>, level: int) -> Seq<u8>;

/// The buffer size zlib states is always enough for deflating `len` input
/// bytes.
pub uninterp spec fn zlib_bound(len: nat) -> usize;

/// The brotli stream that compressing `input` with the given working
/// buffer size, quality and window produces: brotli output is a function
/// of the input bytes and those parameters alone.
pub uninterp spec fn brotli_deflated(
    input: Seq<u8>,
    buffer_size: nat,
    quality: nat,
    lgwin: nat,
) -> Seq<u8>;

/// What `input` decompresses to under `alg`, if it is well formed.
pub open spec fn inflated(alg: CertificateCompressionAlgorithm, input: Seq<u8>) -> Option<
    Seq<u8>,
> {
    match alg {
        CertificateCompressionAlgorithm::Zlib => zlib_inflated(input),
        CertificateCompressionAlgorithm::Brotli => brotli_inflated(input),
    }
}

/// Decompressing `input` under `alg` into a buffer of `out_len` bytes
/// succeeds exactly when the payload is well formed and its plaintext is
/// exactly `out_len` bytes long.
pub open spec fn decompression_succeeds(
    alg: CertificateCompressionAlgorithm,
    input: Seq<u8>,
    out_len: nat,
) -> bool {
    inflated(alg, input) matches Some(plain) && plain.len() == out_len
}

/// An available certificate decompression algorithm.
pub trait CertDecompressor: Sized {
    /// Which algorithm this decompressor handles, at the spec level.
    spec fn spec_algorithm(&self) -> CertificateCompressionAlgorithm;

    /// Decompress `input`, writing the result to `output`.
    ///
    /// `output` is sized to match the declared length of the decompressed
    /// data. The call fails if decompression produces more or fewer bytes
    /// than fit in `output`, or if `input` is malformed in any way; a
    /// failed call leaves no guarantee about the buffer's contents, but
    /// never changes its length.
    fn decompress(&self, input: &[u8], output: &mut Vec<u8>) -> (r: Result<
        (),
        DecompressionFailed,
    >)
        ensures
            final(output)@.len() == old(output)@.len(),
            r is Ok <==> decompression_succeeds(
                self.spec_algorithm(),
                input@,
                old(output)@.len() as nat,
            ),
            r is Ok ==> inflated(self.spec_algorithm(), input@) == Some(final(output)@),
    ;

    /// Which algorithm this decompressor handles.
    fn algorithm(&self) -> (r: CertificateCompressionAlgorithm)
        ensures
            r == self.spec_algorithm(),
    ;
}

/// An available certificate compression algorithm.
pub trait CertCompressor: Sized {
    /// Which algorithm this compressor handles, at the spec level.
    spec fn spec_algorithm(&self) -> CertificateCompressionAlgorithm;

    /// The inputs on which this compressor is guaranteed to succeed.
    spec fn spec_compresses(&self, input: Seq<u8>, level: CompressionLevel) -> bool;

    /// The exact payload this compressor produces for `input` at `level`
    /// whenever it succeeds: the result depends on nothing else, so
    /// repeated and concurrent calls with equal arguments return equal
    /// payloads.
    spec fn spec_compressed(&self, input: Seq<u8>, level: CompressionLevel) -> Seq<u8>;

    /// Compress `input`, returning the result.
    ///
    /// `level` is a hint as to how much effort to expend. A successful
    /// result is a well-formed payload that decompresses back to exactly
    /// `input`; failure may be reported only for backend-internal reasons,
    /// and never on the inputs named by `spec_compresses`.
    fn compress(&self, input: Vec<u8>, level: CompressionLevel) -> (r: Result<
        Vec<u8>,
        CompressionFailed,
    >)
        ensures
            r matches Ok(compressed) ==> inflated(self.spec_algorithm(), compressed@) == Some(
                input@,
            ),
            r matches Ok(compressed) ==> compressed@ == self.spec_compressed(input@, level),
            self.spec_compresses(input@, level) ==> r is Ok,
    ;

    /// Which algorithm this compressor handles.
    fn algorithm(&self) -> (r: CertificateCompressionAlgorithm)
        ensures
            r == self.spec_algorithm(),
    ;
}

/// Relies on zlib_rs::decompress_slice: inflates a zlib stream into the
/// buffer. For a non-empty buffer, ReturnCode::Ok means the input began
/// with a complete, well-formed stream and the returned count is the
/// length of its whole plaintext, written at the start of the buffer; any
/// other code means the input held no such stream or the buffer was too
/// small for its plaintext. An empty buffer is special: the backend lends
/// the inflater a one-byte scratch, so Ok then means only that the
/// plaintext was at most one byte. Exhaustion of memory for the fixed-size
/// inflation state is taken not to occur, as allocation failure is
/// everywhere else in this crate.
#[verifier::external_body]
fn zlib_uncompress(input: &[u8], output: &mut Vec<u8>) -> (r: Option<usize>)
    ensures
        final(output)@.len() == old(output)@.len(),
        old(output)@.len() > 0 ==> (r matches Some(filled) ==> filled <= final(output)@.len()
            && zlib_inflated(input@) == Some(final(output)@.take(filled as int))),
        old(output)@.len() > 0 ==> (r is None ==> (zlib_inflated(input@) matches Some(plain)
            ==> plain.len() > old(output)@.len())),
        old(output)@.len() == 0 ==> (r is Some ==> (zlib_inflated(input@) matches Some(plain)
            && plain.len() <= 1)),
        old(output)@.len() == 0 ==> (r is None ==> (zlib_inflated(input@) matches Some(plain)
            ==> plain.len() > 1)),
{
    let config = zlib_rs::InflateConfig::default();
    let (filled, rc) = zlib_rs::decompress_slice(output.as_mut_slice(), input, config);
    match rc {
        zlib_rs::ReturnCode::Ok => Some(filled.len()),
        _ => None,
    }
}

/// Relies on zlib_rs::compress_slice: deflates the whole input into the
/// buffer as one complete zlib stream, a function of the input and the
/// effort level alone; inflating it yields the input again. With a buffer
/// of at least zlib_rs::compress_bound's size the call never fails for
/// lack of space, and with a valid level and memory exhaustion set aside —
/// as it is everywhere in this crate — it never fails at all.
#[verifier::external_body]
fn zlib_compress(input: &[u8], output: &mut Vec<u8>, level: i32) -> (r: Option<usize>)
    requires
        -1 <= level <= 9,
    ensures
        final(output)@.len() == old(output)@.len(),
        r matches Some(filled) ==> filled <= final(output)@.len() && final(output)@.take(
            filled as int,
        ) == zlib_deflated(input@, level as int) && zlib_inflated(
            zlib_deflated(input@, level as int),
        ) == Some(input@),
        old(output)@.len() >= zlib_bound(input@.len()) ==> r is Some,
{
    let config = zlib_rs::DeflateConfig::new(level);
    let (filled, rc) = zlib_rs::compress_slice(output.as_mut_slice(), input, config);
    match rc {
        zlib_rs::ReturnCode::Ok => Some(filled.len()),
        _ => None,
    }
}

/// Relies on zlib_rs::compress_bound: an output buffer of this size is
/// always enough for deflating `len` input bytes.
#[verifier::external_body]
fn zlib_compress_bound(len: usize) -> (r: usize)
    ensures
        r == zlib_bound(len as nat),
{
    zlib_rs::compress_bound(len)
}

/// A certificate decompressor for the Zlib algorithm using the `zlib-rs`
/// crate.
#[derive(Debug)]
pub struct ZlibRsDecompressor;

impl CertDecompressor for ZlibRsDecompressor {
    open spec fn spec_algorithm(&self) -> CertificateCompressionAlgorithm {
        CertificateCompressionAlgorithm::Zlib
    }

    fn decompress(&self, input: &[u8], output: &mut Vec<u8>) -> (r: Result<
        (),
        DecompressionFailed,
    >) {
        let out_len = output.len();
        if out_len == 0 {
            // The backend lends an empty buffer a one-byte scratch and then
            // accepts a one-byte plaintext; probe with a real one-byte
            // buffer instead and accept only an empty plaintext.
            let mut probe = vec![0u8; 1];
            match zlib_uncompress(input, &mut probe) {
                Some(filled) => {
                    if filled == 0 {
                        proof {
                            assert(probe@.take(0) =~= Seq::<u8>::empty());
                            assert(output@ =~= Seq::<u8>::empty());
                        }
                        Ok(())
                    } else {
                        Err(DecompressionFailed)
                    }
                },
                None => Err(DecompressionFailed),
            }
        } else {
            match zlib_uncompress(input, output) {
                Some(filled) => {
                    if filled == out_len {
                        proof {
                            assert(output@.take(filled as int) =~= output@);
                        }
                        Ok(())
                    } else {
                        Err(DecompressionFailed)
                    }
                },
                None => Err(DecompressionFailed),
            }
        }
    }

    fn algorithm(&self) -> (r: CertificateCompressionAlgorithm) {
        CertificateCompressionAlgorithm::Zlib
    }
}

/// A certificate compressor for the Zlib algorithm using the `zlib-rs`
/// crate.
#[derive(Debug)]
pub struct ZlibRsCompressor;

/// The zlib level meaning "the library's default effort".
pub const ZLIB_LEVEL_DEFAULT: i32 = -1;

/// The highest zlib compression level.
pub const ZLIB_LEVEL_BEST: i32 = 9;

/// The zlib effort level this library selects for a compression-level
/// hint.
pub open spec fn zlib_level_of(level: CompressionLevel) -> int {
    match level {
        CompressionLevel::Interactive => ZLIB_LEVEL_DEFAULT as int,
        CompressionLevel::Amortized => ZLIB_LEVEL_BEST as int,
    }
}

impl CertCompressor for ZlibRsCompressor {
    open spec fn spec_algorithm(&self) -> CertificateCompressionAlgorithm {
        CertificateCompressionAlgorithm::Zlib
    }

    open spec fn spec_compresses(&self, input: Seq<u8>, level: CompressionLevel) -> bool {
        true
    }

    open spec fn spec_compressed(&self, input: Seq<u8>, level: CompressionLevel) -> Seq<u8> {
        zlib_deflated(input, zlib_level_of(level))
    }

    fn compress(&self, input: Vec<u8>, level: CompressionLevel) -> (r: Result<
        Vec<u8>,
        CompressionFailed,
    >)
        ensures
            r matches Ok(compressed) ==> compressed@.len() <= zlib_bound(input@.len()),
    {
        let bound = zlib_compress_bound(input.len());
        let mut output = vec![0u8; bound];
        let zlib_level: i32 = match level {
            CompressionLevel::Interactive => ZLIB_LEVEL_DEFAULT,
            CompressionLevel::Amortized => ZLIB_LEVEL_BEST,
        };
        match zlib_compress(input.as_slice(), &mut output, zlib_level) {
            Some(filled) => {
                output.truncate(filled);
                Ok(output)
            },
            None => vstd::pervasive::unreached(),
        }
    }

    fn algorithm(&self) -> (r: CertificateCompressionAlgorithm) {
        CertificateCompressionAlgorithm::Zlib
    }
}

/// Relies on brotli::BrotliDecompress: inflates a brotli stream from the
/// input into the buffer. Success means the input began with a complete,
/// well-formed stream whose whole plaintext fit, written at the start of
/// the buffer, and the returned count is its length; an error means the
/// input held no such stream or the buffer was too small for its
/// plaintext.
#[verifier::external_body]
fn brotli_decompress_raw(input: &[u8], output: &mut Vec<u8>) -> (r: Option<usize>)
    ensures
        final(output)@.len() == old(output)@.len(),
        r matches Some(filled) ==> filled <= final(output)@.len() && brotli_inflated(input@)
            == Some(final(output)@.take(filled as int)),
        r is None ==> (brotli_inflated(input@) matches Some(plain) ==> plain.len() > old(
            output,
        )@.len()),
{
    let mut in_cursor = std::io::Cursor::new(input);
    let mut out_cursor = std::io::Cursor::new(output.as_mut_slice());
    match brotli::BrotliDecompress(&mut in_cursor, &mut out_cursor) {
        Ok(()) => Some(out_cursor.position() as usize),
        Err(_) => None,
    }
}

/// Relies on brotli::CompressorWriter: writing the input through it into a
/// Vec and taking the Vec back produces one complete brotli stream, a
/// function of the input and the parameters alone; inflating that stream
/// yields the input again. The only failures the writer reports come from
/// its sink, and writes into a Vec never fail, so the call always
/// succeeds. Quality and window stay within the ranges brotli documents.
#[verifier::external_body]
fn brotli_compress_raw(input: &[u8], buffer_size: usize, quality: u32, lgwin: u32) -> (r: Option<
    Vec<u8>,
>)
    requires
        1 <= quality <= 11,
        10 <= lgwin <= 24,
    ensures
        r is Some,
        r matches Some(compressed) ==> compressed@ == brotli_deflated(
            input@,
            buffer_size as nat,
            quality as nat,
            lgwin as nat,
        ),
        r matches Some(compressed) ==> brotli_inflated(compressed@) == Some(input@),
{
    let mut writer = brotli::CompressorWriter::new(Vec::new(), buffer_size, quality, lgwin);
    match std::io::Write::write_all(&mut writer, input) {
        Ok(()) => Some(writer.into_inner()),
        Err(_) => None,
    }
}

/// A certificate decompressor for the Brotli algorithm using the `brotli`
/// crate.
#[derive(Debug)]
pub struct BrotliDecompressor;

impl CertDecompressor for BrotliDecompressor {
    open spec fn spec_algorithm(&self) -> CertificateCompressionAlgorithm {
        CertificateCompressionAlgorithm::Brotli
    }

    fn decompress(&self, input: &[u8], output: &mut Vec<u8>) -> (r: Result<
        (),
        DecompressionFailed,
    >) {
        let out_len = output.len();
        match brotli_decompress_raw(input, output) {
            Some(filled) => {
                if filled == out_len {
                    proof {
                        assert(output@.take(filled as int) =~= output@);
                    }
                    Ok(())
                } else {
                    Err(DecompressionFailed)
                }
            },
            None => Err(DecompressionFailed),
        }
    }

    fn algorithm(&self) -> (r: CertificateCompressionAlgorithm) {
        CertificateCompressionAlgorithm::Brotli
    }
}

/// A certificate compressor for the Brotli algorithm using the `brotli`
/// crate.
#[derive(Debug)]
pub struct BrotliCompressor;

/// Brotli working buffer size.
pub const BROTLI_BUFFER_SIZE: usize = 4096;

/// The default brotli lgwin parameter.
pub const BROTLI_LGWIN: u32 = 22;

/// Compression quality for interactive compressions.
pub const BROTLI_QUALITY_FAST: u32 = 4;

/// Compression quality for amortized compressions (the maximum).
pub const BROTLI_QUALITY_SLOW: u32 = 11;

/// The brotli quality this library selects for a compression-level hint.
pub open spec fn brotli_quality_of(level: CompressionLevel) -> nat {
    match level {
        CompressionLevel::Interactive => BROTLI_QUALITY_FAST as nat,
        CompressionLevel::Amortized => BROTLI_QUALITY_SLOW as nat,
    }
}

impl CertCompressor for BrotliCompressor {
    open spec fn spec_algorithm(&self) -> CertificateCompressionAlgorithm {
        CertificateCompressionAlgorithm::Brotli
    }

    open spec fn spec_compresses(&self, input: Seq<u8>, level: CompressionLevel) -> bool {
        true
    }

    open spec fn spec_compressed(&self, input: Seq<u8>, level: CompressionLevel) -> Seq<u8> {
        brotli_deflated(
            input,
            BROTLI_BUFFER_SIZE as nat,
            brotli_quality_of(level),
            BROTLI_LGWIN as nat,
        )
    }

    fn compress(&self, input: Vec<u8>, level: CompressionLevel) -> (r: Result<
        Vec<u8>,
        CompressionFailed,
    >) {
        let quality: u32 = match level {
            CompressionLevel::Interactive => BROTLI_QUALITY_FAST,
            CompressionLevel::Amortized => BROTLI_QUALITY_SLOW,
        };
        match brotli_compress_raw(input.as_slice(), BROTLI_BUFFER_SIZE, quality, BROTLI_LGWIN) {
            Some(compressed) => Ok(compressed),
            None => vstd::pervasive::unreached(),
        }
    }

    fn algorithm(&self) -> (r: CertificateCompressionAlgorithm) {
        CertificateCompressionAlgorithm::Brotli
    }
}

/// A certificate decompressor from the enabled set, dispatching to the
/// backend for its algorithm.
#[derive(Debug)]
pub enum AnyCertDecompressor {
    Zlib(ZlibRsDecompressor),
    Brotli(BrotliDecompressor),
}

impl CertDecompressor for AnyCertDecompressor {
    open spec fn spec_algorithm(&self) -> CertificateCompressionAlgorithm {
        match self {
            AnyCertDecompressor::Zlib(_) => CertificateCompressionAlgorithm::Zlib,
            AnyCertDecompressor::Brotli(_) => CertificateCompressionAlgorithm::Brotli,
        }
    }

    fn decompress(&self, input: &[u8], output: &mut Vec<u8>) -> (r: Result<
        (),
        DecompressionFailed,
    >) {
        match self {
            AnyCertDecompressor::Zlib(inner) => inner.decompress(input, output),
            AnyCertDecompressor::Brotli(inner) => inner.decompress(input, output),
        }
    }

    fn algorithm(&self) -> (r: CertificateCompressionAlgorithm) {
        match self {
            AnyCertDecompressor::Zlib(inner) => inner.algorithm(),
            AnyCertDecompressor::Brotli(inner) => inner.algorithm(),
        }
    }
}

/// A certificate compressor from the enabled set, dispatching to the
/// backend for its algorithm.
#[derive(Debug)]
pub enum AnyCertCompressor {
    Zlib(ZlibRsCompressor),
    Brotli(BrotliCompressor),
}

impl CertCompressor for AnyCertCompressor {
    open spec fn spec_algorithm(&self) -> CertificateCompressionAlgorithm {
        match self {
            AnyCertCompressor::Zlib(_) => CertificateCompressionAlgorithm::Zlib,
            AnyCertCompressor::Brotli(_) => CertificateCompressionAlgorithm::Brotli,
        }
    }

    open spec fn spec_compresses(&self, input: Seq<u8>, level: CompressionLevel) -> bool {
        match self {
            AnyCertCompressor::Zlib(inner) => inner.spec_compresses(input, level),
            AnyCertCompressor::Brotli(inner) => inner.spec_compresses(input, level),
        }
    }

    open spec fn spec_compressed(&self, input: Seq<u8>, level: CompressionLevel) -> Seq<u8> {
        match self {
            AnyCertCompressor::Zlib(inner) => inner.spec_compressed(input, level),
            AnyCertCompressor::Brotli(inner) => inner.spec_compressed(input, level),
        }
    }

    fn compress(&self, input: Vec<u8>, level: CompressionLevel) -> (r: Result<
        Vec<u8>,
        CompressionFailed,
    >) {
        match self {
            AnyCertCompressor::Zlib(inner) => inner.compress(input, level),
            AnyCertCompressor::Brotli(inner) => inner.compress(input, level),
        }
    }

    fn algorithm(&self) -> (r: CertificateCompressionAlgorithm) {
        match self {
            AnyCertCompressor::Zlib(inner) => inner.algorithm(),
            AnyCertCompressor::Brotli(inner) => inner.algorithm(),
        }
    }
}

/// The supported `CertDecompressor` implementations this build enables.
pub fn default_cert_decompressors() -> (r: Vec<AnyCertDecompressor>)
    ensures
        r@.len() == 2,
        r@[0].spec_algorithm() == CertificateCompressionAlgorithm::Brotli,
        r@[1].spec_algorithm() == CertificateCompressionAlgorithm::Zlib,
{
    let mut list: Vec<AnyCertDecompressor> = Vec::new();
    list.push(AnyCertDecompressor::Brotli(BrotliDecompressor));
    list.push(AnyCertDecompressor::Zlib(ZlibRsDecompressor));
    list
}

/// The supported `CertCompressor` implementations this build enables.
pub fn default_cert_compressors() -> (r: Vec<AnyCertCompressor>)
    ensures
        r@.len() == 2,
        r@[0].spec_algorithm() == CertificateCompressionAlgorithm::Brotli,
        r@[1].spec_algorithm() == CertificateCompressionAlgorithm::Zlib,
{
    let mut list: Vec<AnyCertCompressor> = Vec::new();
    list.push(AnyCertCompressor::Brotli(BrotliCompressor));
    list.push(AnyCertCompressor::Zlib(ZlibRsCompressor));
    list
}

/// Round trip: a payload a compressor produced for `alg` decompresses,
/// into a buffer of exactly the original input's length, back to that
/// input.
pub proof fn lemma_round_trip(
    alg: CertificateCompressionAlgorithm,
    input: Seq<u8>,
    compressed: Seq<u8>,
)
    ensures
        inflated(alg, compressed) == Some(input) ==> decompression_succeeds(
            alg,
            compressed,
            input.len(),
        ),
{
}

/// Garbage rejection: input that is not a well-formed payload for `alg`
/// fails to decompress into a buffer of any length.
pub proof fn lemma_garbage_rejection(
    alg: CertificateCompressionAlgorithm,
    input: Seq<u8>,
    out_len: nat,
)
    ensures
        inflated(alg, input) is None ==> !decompression_succeeds(alg, input, out_len),
{
}

/// Exact-size enforcement: a well-formed payload decompresses only into a
/// buffer of exactly its plaintext's length; any other length — one byte
/// more, one byte fewer — is refused.
pub proof fn lemma_exact_size_enforcement(
    alg: CertificateCompressionAlgorithm,
    compressed: Seq<u8>,
    plain: Seq<u8>,
    out_len: nat,
)
    ensures
        inflated(alg, compressed) == Some(plain) && out_len != plain.len()
            ==> !decompression_succeeds(alg, compressed, out_len),
{
}

/// Compresses `input` and decompresses the result into a buffer of exactly
/// the input's length: whenever compression succeeds — which it must on
/// every input its backend is guaranteed to take — the round trip
/// reproduces the input.
pub fn compress_round_trip<C: CertCompressor, D: CertDecompressor>(
    compressor: &C,
    decompressor: &D,
    input: Vec<u8>,
    level: CompressionLevel,
) -> (r: Result<Vec<u8>, CompressionFailed>)
    requires
        compressor.spec_algorithm() == decompressor.spec_algorithm(),
    ensures
        r matches Ok(recovered) ==> recovered@ == input@,
        compressor.spec_compresses(input@, level) ==> r is Ok,
{
    let plain_len = input.len();
    let ghost input_view = input@;
    let compressed = match compressor.compress(input, level) {
        Ok(compressed) => compressed,
        Err(failure) => {
            return Err(failure);
        },
    };
    let mut recovered = vec![0u8; plain_len];
    let outcome = decompressor.decompress(compressed.as_slice(), &mut recovered);
    match outcome {
        Ok(()) => Ok(recovered),
        Err(_) => {
            proof {
                assert(decompression_succeeds(
                    decompressor.spec_algorithm(),
                    compressed@,
                    input_view.len(),
                ));
            }
            vstd::pervasive::unreached()
        },
    }
}

} // verus!
