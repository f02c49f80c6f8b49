//! Entries of a container as handed over by whatever decoded it.
use vstd::prelude::*;

verus! {

/// A calendar date and time of day, as stored in an archive's entry header.
#[derive(Clone, Copy, Debug, PartialEq, Eq)]
pub struct Timestamp {
    pub year: u16,
    pub month: u8,
    pub day: u8,
    pub hour: u8,
    pub minute: u8,
    pub second: u8,
}

/// How an entry's data is compressed.
#[derive(Clone, Copy, Debug, PartialEq, Eq, Structural)]
pub enum CompressionMethod {
    Stored,
    Deflated,
    Deflate64,
    Bzip2,
    Aes,
    Zstd,
    Lzma,
    Xz,
    /// A method known only by its numeric code.
    Other(u16),
}

/// The usual name of a method; methods known only by their code are all
/// called "Unsupported".
pub open spec fn method_name(m: CompressionMethod) -> Seq<char> {
    match m {
        CompressionMethod::Stored => "Stored"@,
        CompressionMethod::Deflated => "Deflated"@,
        CompressionMethod::Deflate64 => "Deflate64"@,
        CompressionMethod::Bzip2 => "Bzip2"@,
        CompressionMethod::Aes => "Aes"@,
        CompressionMethod::Zstd => "Zstd"@,
        CompressionMethod::Lzma => "Lzma"@,
        CompressionMethod::Xz => "Xz"@,
        CompressionMethod::Other(_) => "Unsupported"@,
    }
}

/// The method that a ZIP entry header names by its numeric code.
pub open spec fn method_of_code(code: u16) -> CompressionMethod {
    if code == 0 {
        CompressionMethod::Stored
    } else if code == 8 {
        CompressionMethod::Deflated
    } else if code == 9 {
        CompressionMethod::Deflate64
    } else if code == 12 {
        CompressionMethod::Bzip2
    } else if code == 14 {
        CompressionMethod::Lzma
    } else if code == 93 {
        CompressionMethod::Zstd
    } else if code == 95 {
        CompressionMethod::Xz
    } else if code == 99 {
        CompressionMethod::Aes
    } else {
        CompressionMethod::Other(code)
    }
}

impl CompressionMethod {
    /// The method that a ZIP entry header names by `code`.
    pub fn from_code(code: u16) -> (r: CompressionMethod)
        ensures
            r == method_of_code(code),
    {
        match code {
            0 => CompressionMethod::Stored,
            8 => CompressionMethod::Deflated,
            9 => CompressionMethod::Deflate64,
            12 => CompressionMethod::Bzip2,
            14 => CompressionMethod::Lzma,
            93 => CompressionMethod::Zstd,
            95 => CompressionMethod::Xz,
            99 => CompressionMethod::Aes,
            _ => CompressionMethod::Other(code),
        }
    }

    /// The method's usual name, as `method_name` states it.
    pub fn name(&self) -> (r: &'static str)
        ensures
            r@ == method_name(*self),
    {
        match self {
            CompressionMethod::Stored => "Stored",
            CompressionMethod::Deflated => "Deflated",
            CompressionMethod::Deflate64 => "Deflate64",
            CompressionMethod::Bzip2 => "Bzip2",
            CompressionMethod::Aes => "Aes",
            CompressionMethod::Zstd => "Zstd",
            CompressionMethod::Lzma => "Lzma",
            CompressionMethod::Xz => "Xz",
            CompressionMethod::Other(_) => "Unsupported",
        }
    }
}

/// One entry of a ZIP container, read-only.
#[derive(Clone, Debug)]
pub struct ContainerEntry {
    /// The raw name, as stored in the archive.
    pub name: String,
    /// The name as a safe relative path, or `None` when the raw name is
    /// absolute or climbs out of the extraction directory.
    pub enclosed_path: Option<String>,
    pub is_directory: bool,
    pub compressed_size: u64,
    pub uncompressed_size: u64,
    pub compression_method: CompressionMethod,
    pub comment: String,
    pub encrypted: bool,
    pub last_modified: Option<Timestamp>,
    pub crc32: u32,
}

/// One position of a container's entry list: the entry, or the message of
/// the error met while reading it.
pub type EntryRead = Result<ContainerEntry, String>;

} // verus!
