//! Compressed copies of finished files.
//!
//! A file gets a Brotli copy beside it only if the copy is not larger than
//! the file. The coding is brotli's; the settings it is run with and the
//! decision to keep the copy are made here.
use crate::paths::{
    extension_of, has_separator, holds_separator, path_extension, path_with_extension,
    with_extension,
};
use crate::text::text_or;
use std::io::Write;
use vstd::prelude::*;
use vstd::string::*;

verus! {

/// What kind of data the encoder is told to expect.
#[derive(Clone, Copy, PartialEq, Eq, Structural, Debug)]
pub enum CompressionMode {
    /// Nothing is assumed of the data.
    Generic,
    /// The data is UTF-8 text.
    Text,
}

/// The encoder settings that this crate sets. Every other setting of the
/// encoder keeps its default.
#[derive(Clone, Copy, PartialEq, Eq, Structural, Debug)]
pub struct CompressionSettings {
    pub mode: CompressionMode,
    /// From 0, fastest, to 11, smallest.
    pub quality: i32,
    /// The base-two logarithm of the sliding window's size.
    pub window_bits: i32,
    /// The length of the input, as a hint to the encoder.
    pub size_hint: usize,
    /// The base-two logarithm of the block size of the encoder's hasher.
    pub hasher_block_bits: i32,
    /// The size of the buffer that the encoder writes its output through.
    pub buffer_size: usize,
}

/// The Brotli stream that the encoder makes of `input` under `settings`.
pub uninterp spec fn brotli_stream(input: Seq<u8>, settings: CompressionSettings) -> Seq<u8>;

/// The settings for a file of `input_len` bytes: the smallest output the
/// encoder can give, over the largest window, with the file's length as the
/// size hint.
pub open spec fn settings_for(mode: CompressionMode, input_len: usize) -> CompressionSettings {
    CompressionSettings {
        mode,
        quality: 11,
        window_bits: 24,
        size_hint: input_len,
        hasher_block_bits: 10,
        buffer_size: 4096,
    }
}

/// Whether a compressed copy of `copy_len` bytes is worth keeping beside a
/// file of `input_len` bytes: it is unless it is larger.
pub open spec fn worth_keeping(input_len: nat, copy_len: nat) -> bool {
    copy_len <= input_len
}

/// The compressed copy that is kept of `input`, if one is.
pub open spec fn kept_copy(input: Seq<u8>, mode: CompressionMode) -> Option<Seq<u8>> {
    let stream = brotli_stream(input, settings_for(mode, input.len() as usize));
    if worth_keeping(input.len(), stream.len()) {
        Some(stream)
    } else {
        None
    }
}

/// Writes all of `input` through a `brotli::CompressorWriter` made
/// `with_params` over a vector, and drops the writer, which ends the stream.
/// The parameters are brotli's defaults with the five settings copied in.
/// The contract names the vector's contents and claims no more than that
/// they depend on the input and the settings alone.
#[verifier::external_body]
fn brotli_encode(input: &[u8], settings: &CompressionSettings) -> (stream: Vec<u8>)
    ensures
        stream@ == brotli_stream(input@, *settings),
{
    let mut params = brotli::enc::BrotliEncoderParams::default();
    params.mode = match settings.mode {
        CompressionMode::Generic => brotli::enc::backward_references::BrotliEncoderMode::BROTLI_MODE_GENERIC,
        CompressionMode::Text => brotli::enc::backward_references::BrotliEncoderMode::BROTLI_MODE_TEXT,
    };
    params.quality = settings.quality;
    params.lgwin = settings.window_bits;
    params.size_hint = settings.size_hint;
    params.hasher.block_bits = settings.hasher_block_bits;
    let mut stream = Vec::new();
    let _ = brotli::CompressorWriter::with_params(&mut stream, settings.buffer_size, &params).write_all(input);
    stream
}

impl CompressionSettings {
    /// The settings for a file of `input_len` bytes.
    pub fn for_input(mode: CompressionMode, input_len: usize) -> (settings: CompressionSettings)
        ensures
            settings == settings_for(mode, input_len),
    {
        CompressionSettings {
            mode,
            quality: 11,
            window_bits: 24,
            size_hint: input_len,
            hasher_block_bits: 10,
            buffer_size: 4096,
        }
    }
}

/// Keeps `stream` as the compressed copy of a file of `input_len` bytes, or
/// drops it where it is larger than the file.
pub fn keep_if_smaller(input_len: usize, stream: Vec<u8>) -> (copy: Option<Vec<u8>>)
    ensures
        copy is Some <==> worth_keeping(input_len as nat, stream@.len()),
        copy matches Some(kept) ==> kept@ == stream@,
{
    if stream.len() <= input_len {
        Some(stream)
    } else {
        None
    }
}

/// Makes the compressed copy of a file's bytes. The copy is handed back
/// only if it is not larger than the file; where it is, there is to be no
/// copy.
pub fn compress_file(input: &[u8], mode: CompressionMode) -> (copy: Option<Vec<u8>>)
    ensures
        copy is Some <==> kept_copy(input@, mode) is Some,
        copy matches Some(kept) ==> Some(kept@) == kept_copy(input@, mode),
{
    let settings = CompressionSettings::for_input(mode, input.len());
    let stream = brotli_encode(input, &settings);
    keep_if_smaller(input.len(), stream)
}

/// What is added to a file's extension to name its compressed copy.
pub const COMPRESSED_SUFFIX: &'static str = ".br";

/// The extension of the compressed copy of the file at `path`: the file's
/// own extension, or nothing where it has none, and then the suffix.
pub open spec fn compressed_extension(path: Seq<char>) -> Seq<char> {
    text_or(path_extension(path), Seq::empty()) + COMPRESSED_SUFFIX@
}

/// Where the compressed copy of the file at `path` goes: beside the file,
/// under the file's name with [`compressed_extension`] for an extension, so
/// that the copy of `style.css` is `style.css.br`. There is no such place
/// exactly where that extension would hold a path separator.
pub fn compressed_path(path: &str) -> (copy: Option<String>)
    ensures
        copy is None <==> holds_separator(compressed_extension(path@)),
        copy matches Some(place) ==> place@ == path_with_extension(
            path@,
            compressed_extension(path@),
        ),
{
    let own = match extension_of(path) {
        Some(extension) => extension,
        None => String::new(),
    };
    let extension = own.concat(COMPRESSED_SUFFIX);
    if has_separator(extension.as_str()) {
        None
    } else {
        Some(with_extension(path, extension.as_str()))
    }
}

} // verus!
