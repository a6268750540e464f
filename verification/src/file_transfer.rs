//! Descriptions of files that travel between the two computers.
use crate::text::{opt_view, views};
use vstd::prelude::*;

verus! {

#[derive(Debug, PartialEq, Eq)]
pub struct FileManifestEntry {
    pub relative_path: String,
    pub size_bytes: u64,
    pub is_dir: bool,
    pub blake3_hex: Option<String>,
}

pub struct FileManifestEntryView {
    pub relative_path: Seq<char>,
    pub size_bytes: u64,
    pub is_dir: bool,
    pub blake3_hex: Option<Seq<char>>,
}

impl View for FileManifestEntry {
    type V = FileManifestEntryView;

    open spec fn view(&self) -> FileManifestEntryView {
        FileManifestEntryView {
            relative_path: self.relative_path@,
            size_bytes: self.size_bytes,
            is_dir: self.is_dir,
            blake3_hex: opt_view(self.blake3_hex),
        }
    }
}

/// Copies an optional text.
pub fn clone_text(text: &Option<String>) -> (r: Option<String>)
    ensures
        r == *text,
{
    match text {
        Some(t) => Some(t.clone()),
        None => None,
    }
}

/// Copies a list of texts.
pub fn clone_texts(texts: &Vec<String>) -> (r: Vec<String>)
    ensures
        r@ == texts@,
{
    let mut out: Vec<String> = Vec::new();
    let mut i: usize = 0;
    while i < texts.len()
        invariant
            i <= texts@.len(),
            out@ == texts@.take(i as int),
        decreases texts@.len() - i,
    {
        out.push(texts[i].clone());
        assert(texts@.take(i as int + 1) =~= texts@.take(i as int).push(texts@[i as int]));
        i = i + 1;
    }
    assert(texts@.take(texts@.len() as int) =~= texts@);
    out
}

impl Clone for FileManifestEntry {
    fn clone(&self) -> (r: Self)
        ensures
            r == *self,
    {
        FileManifestEntry {
            relative_path: self.relative_path.clone(),
            size_bytes: self.size_bytes,
            is_dir: self.is_dir,
            blake3_hex: clone_text(&self.blake3_hex),
        }
    }
}

/// Copies a list of entries.
pub fn clone_entries(entries: &Vec<FileManifestEntry>) -> (r: Vec<FileManifestEntry>)
    ensures
        r@ == entries@,
{
    let mut out: Vec<FileManifestEntry> = Vec::new();
    let mut i: usize = 0;
    while i < entries.len()
        invariant
            i <= entries@.len(),
            out@ == entries@.take(i as int),
        decreases entries@.len() - i,
    {
        out.push(entries[i].clone());
        assert(entries@.take(i as int + 1) =~= entries@.take(i as int).push(entries@[i as int]));
        i = i + 1;
    }
    assert(entries@.take(entries@.len() as int) =~= entries@);
    out
}

impl FileManifestEntry {
    /// An entry for a file whose hash is not known yet.
    pub fn file(relative_path: &str, size_bytes: u64) -> (r: Self)
        ensures
            r@ == (FileManifestEntryView {
                relative_path: relative_path@,
                size_bytes,
                is_dir: false,
                blake3_hex: None,
            }),
    {
        Self { relative_path: relative_path.to_owned(), size_bytes, is_dir: false, blake3_hex: None }
    }
}

#[derive(Debug, PartialEq, Eq)]
pub struct FileTransferManifest {
    pub transfer_id: u128,
    pub root_name: String,
    pub files: Vec<FileManifestEntry>,
    pub total_bytes: u64,
}

pub struct FileTransferManifestView {
    pub transfer_id: u128,
    pub root_name: Seq<char>,
    pub files: Seq<FileManifestEntryView>,
    pub total_bytes: u64,
}

impl View for FileTransferManifest {
    type V = FileTransferManifestView;

    open spec fn view(&self) -> FileTransferManifestView {
        FileTransferManifestView {
            transfer_id: self.transfer_id,
            root_name: self.root_name@,
            files: views(self.files@),
            total_bytes: self.total_bytes,
        }
    }
}

impl Clone for FileTransferManifest {
    fn clone(&self) -> (r: Self)
        ensures
            r@ == self@,
    {
        FileTransferManifest {
            transfer_id: self.transfer_id,
            root_name: self.root_name.clone(),
            files: clone_entries(&self.files),
            total_bytes: self.total_bytes,
        }
    }
}

#[derive(Debug, PartialEq, Eq)]
pub struct FileChunk {
    pub transfer_id: u128,
    pub relative_path: String,
    pub offset: u64,
    pub bytes: Vec<u8>,
    pub blake3_hex: String,
}

pub struct FileChunkView {
    pub transfer_id: u128,
    pub relative_path: Seq<char>,
    pub offset: u64,
    pub bytes: Seq<u8>,
    pub blake3_hex: Seq<char>,
}

impl View for FileChunk {
    type V = FileChunkView;

    open spec fn view(&self) -> FileChunkView {
        FileChunkView {
            transfer_id: self.transfer_id,
            relative_path: self.relative_path@,
            offset: self.offset,
            bytes: self.bytes@,
            blake3_hex: self.blake3_hex@,
        }
    }
}

#[derive(Clone, Copy, Debug, PartialEq, Eq, Structural)]
pub enum FileTransferState {
    Offered,
    Transferring,
    Completed,
    Cancelled,
    Failed,
}

} // verus!
