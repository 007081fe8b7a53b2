use vstd::prelude::*;

verus! {

/// What the first gzip member at the start of `b` decodes to (bytes after
/// that member are ignored), or `None` where that member is malformed.
pub uninterp spec fn gunzip_of(b: Seq<u8>) -> Option<Seq<u8>>;

/// What a zstd frame sequence decodes to, or `None` where it is malformed.
pub uninterp spec fn unzstd_of(b: Seq<u8>) -> Option<Seq<u8>>;

/// The bytes held by an optional buffer.
pub open spec fn bytes_of(o: Option<Vec<u8>>) -> Option<Seq<u8>> {
    match o {
        Some(v) => Some(v@),
        None => None,
    }
}

/// The compression applied to a layer blob.
#[derive(Clone, Copy, Debug, PartialEq, Eq)]
pub enum Compression {
    Uncompressed,
    Gzip,
    Zstd,
}

/// Why a layer could not be decompressed or compressed.
#[derive(Clone, Copy, Debug, PartialEq, Eq)]
pub enum DecodeError {
    /// The data is declared uncompressed: there is nothing to decode.
    Uncompressed,
    /// The input is not a well-formed stream of the declared kind.
    Malformed,
}

/// What decoding `input` as `kind` yields, if anything.
pub open spec fn decoded(kind: Compression, input: Seq<u8>) -> Option<Seq<u8>> {
    match kind {
        Compression::Uncompressed => None,
        Compression::Gzip => gunzip_of(input),
        Compression::Zstd => unzstd_of(input),
    }
}

/// The name of a compression kind.
pub open spec fn kind_name(kind: Compression) -> Seq<char> {
    match kind {
        Compression::Uncompressed => "uncompressed"@,
        Compression::Gzip => "gzip"@,
        Compression::Zstd => "zstd"@,
    }
}

/// Relies on flate2::read::GzDecoder, drained with std::io::copy: the decoded
/// stream, or an error where the input is no well-formed gzip stream.
#[verifier::external_body]
fn gzip_decode(input: &[u8]) -> (r: Option<Vec<u8>>)
    ensures
        bytes_of(r) == gunzip_of(input@),
{
    let mut output: Vec<u8> = Vec::new();
    let mut decoder = flate2::read::GzDecoder::new(input);
    std::io::copy(&mut decoder, &mut output).ok().map(|_| output)
}

/// Relies on zstd::Decoder, drained with std::io::copy: the decoded frames,
/// or an error where the input is no well-formed zstd data.
#[verifier::external_body]
fn zstd_decode(input: &[u8]) -> (r: Option<Vec<u8>>)
    ensures
        bytes_of(r) == unzstd_of(input@),
{
    let mut output: Vec<u8> = Vec::new();
    let mut decoder = zstd::Decoder::new(input).ok()?;
    std::io::copy(&mut decoder, &mut output).ok().map(|_| output)
}

/// Relies on flate2::write::GzEncoder at the default level: a gzip stream
/// that flate2's decoder turns back into the input. Writing into a `Vec`
/// does not fail, so the stream is always produced.
#[verifier::external_body]
fn gzip_encode(input: &[u8]) -> (r: Option<Vec<u8>>)
    ensures
        r is Some,
        r matches Some(c) ==> gunzip_of(c@) == Some(input@),
{
    let mut encoder = flate2::write::GzEncoder::new(Vec::new(), flate2::Compression::default());
    std::io::Write::write_all(&mut encoder, input).ok()?;
    encoder.finish().ok()
}

/// Relies on zstd::encode_all: zstd data that zstd's decoder turns back into
/// the input. Reading from a slice and writing into a `Vec` do not fail, and
/// the level is one zstd accepts, so the data is always produced.
#[verifier::external_body]
fn zstd_encode(input: &[u8], level: i32) -> (r: Option<Vec<u8>>)
    requires
        1 <= level <= 22,
    ensures
        r is Some,
        r matches Some(c) ==> unzstd_of(c@) == Some(input@),
{
    zstd::encode_all(input, level).ok()
}

impl Default for Compression {
    fn default() -> (r: Compression)
        ensures
            r == Compression::Gzip,
    {
        Compression::Gzip
    }
}

impl Compression {
    /// The lower-case name of this kind ("uncompressed", "gzip" or "zstd").
    pub fn to_string(&self) -> (r: String)
        ensures
            r@ == kind_name(*self),
    {
        match self {
            Compression::Uncompressed => "uncompressed".to_owned(),
            Compression::Gzip => "gzip".to_owned(),
            Compression::Zstd => "zstd".to_owned(),
        }
    }

    /// Decompresses `input` and appends the result to `output`.
    /// Uncompressed data is refused: there is nothing to decode. On any
    /// error `output` is left as it was.
    pub fn decompress(&self, input: &[u8], output: &mut Vec<u8>) -> (r: Result<(), DecodeError>)
        ensures
            *self == Compression::Uncompressed ==> r == Err::<(), DecodeError>(
                DecodeError::Uncompressed,
            ),
            *self != Compression::Uncompressed && decoded(*self, input@) is None ==> r == Err::<
                (),
                DecodeError,
            >(DecodeError::Malformed),
            decoded(*self, input@) matches Some(d) ==> r is Ok && final(output)@ == old(output)@ + d,
            r is Err ==> final(output)@ == old(output)@,
    {
        let decoded = match self {
            Compression::Gzip => gzip_decode(input),
            Compression::Zstd => zstd_decode(input),
            Compression::Uncompressed => {
                return Err(DecodeError::Uncompressed);
            },
        };
        match decoded {
            Some(mut bytes) => {
                output.append(&mut bytes);
                Ok(())
            },
            None => Err(DecodeError::Malformed),
        }
    }

    /// Compresses `input` with this kind (zstd at level 1). Whatever comes
    /// out decompresses with the same kind to `input` again.
    pub fn compress(&self, input: &[u8]) -> (r: Result<Vec<u8>, DecodeError>)
        ensures
            *self == Compression::Uncompressed ==> r == Err::<Vec<u8>, DecodeError>(
                DecodeError::Uncompressed,
            ),
            *self != Compression::Uncompressed ==> (r matches Ok(c) && decoded(*self, c@) == Some(
                input@,
            )),
    {
        let encoded = match self {
            Compression::Gzip => gzip_encode(input),
            Compression::Zstd => zstd_encode(input, 1),
            Compression::Uncompressed => {
                return Err(DecodeError::Uncompressed);
            },
        };
        Ok(encoded.unwrap())
    }
}

} // verus!
