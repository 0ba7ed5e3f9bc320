//! Sector-sized byte content that is either in memory, mapped from a file, or
//! absent with a known backing path, and that can be dropped and restored.
//!
//! Opening and mapping the backing file is the caller's part: `pending_restore`
//! says whether a mapping is needed and of which path, and `restore` installs it.

use vstd::prelude::*;

use memmap2::MmapMut;

verus! {

#[verifier::external_type_specification]
#[verifier::external_body]
pub struct ExMmapMut(memmap2::MmapMut);

#[verifier::external_type_specification]
#[verifier::external_body]
pub struct ExIoError(std::io::Error);

/// The bytes that a writable memory map holds.
pub uninterp spec fn mapped_bytes(m: MmapMut) -> Seq<u8>;

/// Relies on `MmapMut`'s `Deref` to `[u8]`: the slice of the mapped bytes.
#[verifier::external_body]
fn mapped_slice(m: &MmapMut) -> (r: &[u8])
    ensures
        r@ == mapped_bytes(*m),
{
    &m[..]
}

/// Relies on `MmapMut`'s `DerefMut` to `[u8]`: the mapped bytes, writable; what is
/// written through the slice is what the map then holds.
#[verifier::external_body]
fn mapped_slice_mut(m: &mut MmapMut) -> (r: &mut [u8])
    ensures
        r@ == mapped_bytes(*old(m)),
        mapped_bytes(*final(m)) == final(r)@,
{
    &mut m[..]
}

/// Relies on `MmapMut::flush`, which writes outstanding changes of the map to its
/// file; whether that succeeds depends on the disk.
#[verifier::external_body]
fn flush_mapped(m: &MmapMut) -> (r: Result<(), std::io::Error>) {
    m.flush()
}

/// Why sector data could not be restored, read or dropped.
#[derive(Debug)]
pub enum DataError {
    /// The data is absent and no backing path is known.
    MissingPath,
    /// The mapped file does not have the expected length.
    LengthMismatch { expected: usize, actual: usize },
    /// The data is absent; it must be restored first.
    Absent,
    /// Flushing the mapped data to its file failed.
    Flush(std::io::Error),
}

enum RawData {
    Slice(Vec<u8>),
    Mmap(MmapMut),
}

/// The abstract state of sector data.
pub struct DataView {
    /// The bytes, where they are present.
    pub content: Option<Seq<u8>>,
    /// The backing path, where there is one.
    pub path: Option<Seq<char>>,
    /// The length last observed.
    pub len: nat,
    /// Whether the present bytes are a memory map of the backing path.
    pub mapped: bool,
}

/// Sector data either on disk or in memory, which can be dropped and read back
/// into memory to bound memory use.
pub struct Data {
    raw: Option<RawData>,
    path: Option<String>,
    len: usize,
}

impl View for Data {
    type V = DataView;

    closed spec fn view(&self) -> DataView {
        DataView {
            content: match self.raw {
                Some(RawData::Slice(v)) => Some(v@),
                Some(RawData::Mmap(m)) => Some(mapped_bytes(m)),
                None => None,
            },
            path: match self.path {
                Some(p) => Some(p@),
                None => None,
            },
            len: self.len as nat,
            mapped: self.raw matches Some(RawData::Mmap(_)),
        }
    }
}

impl Data {
    /// The length agrees with the bytes whenever they are present.
    pub open spec fn wf(&self) -> bool {
        &&& self@.content is Some ==> self@.len == self@.content.unwrap().len()
        &&& self@.mapped ==> self@.content is Some && self@.path is Some
    }

    /// Data held in memory, with no backing path.
    pub fn from_bytes(raw: Vec<u8>) -> (r: Data)
        ensures
            r@.content == Some(raw@),
            r@.path is None,
            r@.len == raw@.len(),
            !r@.mapped,
            r.wf(),
    {
        let len = raw.len();
        Data { raw: Some(RawData::Slice(raw)), path: None, len }
    }

    /// Data mapped from the file at `path`.
    pub fn from_mmap(map: MmapMut, path: String) -> (r: Data)
        ensures
            r@.content == Some(mapped_bytes(map)),
            r@.path == Some(path@),
            r@.len == mapped_bytes(map).len(),
            r@.mapped,
            r.wf(),
    {
        let len = mapped_slice(&map).len();
        Data { raw: Some(RawData::Mmap(map)), path: Some(path), len }
    }

    /// Absent data that can be restored from `path`; nothing is read yet.
    pub fn from_path(path: String) -> (r: Data)
        ensures
            r@.content is None,
            r@.path == Some(path@),
            r@.len == 0,
            !r@.mapped,
            r.wf(),
    {
        Data { raw: None, path: Some(path), len: 0 }
    }

    /// Data held in memory whose backing file is at `path`.
    pub fn new(raw: Vec<u8>, path: String) -> (r: Data)
        ensures
            r@.content == Some(raw@),
            r@.path == Some(path@),
            r@.len == raw@.len(),
            !r@.mapped,
            r.wf(),
    {
        let len = raw.len();
        Data { raw: Some(RawData::Slice(raw)), path: Some(path), len }
    }

    /// Absent data with no backing path.
    pub fn empty() -> (r: Data)
        ensures
            r@.content is None,
            r@.path is None,
            r@.len == 0,
            !r@.mapped,
            r.wf(),
    {
        Data { raw: None, path: None, len: 0 }
    }

    pub fn len(&self) -> (r: usize)
        ensures
            r == self@.len,
    {
        self.len
    }

    pub fn is_empty(&self) -> (r: bool)
        ensures
            r == (self@.len == 0),
    {
        self.len == 0
    }

    /// Whether the bytes are present.
    pub fn is_present(&self) -> (r: bool)
        ensures
            r == self@.content is Some,
    {
        self.raw.is_some()
    }

    /// The bytes; fails with `Absent` while they are not present.
    pub fn bytes(&self) -> (r: Result<&[u8], DataError>)
        ensures
            r is Ok <==> self@.content is Some,
            r is Ok ==> r->Ok_0@ == self@.content.unwrap(),
            r is Err ==> r->Err_0 is Absent,
    {
        match &self.raw {
            Some(RawData::Slice(v)) => Ok(v.as_slice()),
            Some(RawData::Mmap(m)) => Ok(mapped_slice(m)),
            None => Err(DataError::Absent),
        }
    }

    /// The bytes, writable; they must be present. Writing keeps their length.
    pub fn bytes_mut(&mut self) -> (r: &mut [u8])
        requires
            old(self)@.content is Some,
        ensures
            r@ == old(self)@.content.unwrap(),
            final(self)@ == (DataView { content: Some(final(r)@), ..old(self)@ }),
    {
        match &mut self.raw {
            Some(RawData::Slice(v)) => v.as_mut_slice(),
            Some(RawData::Mmap(m)) => mapped_slice_mut(m),
            None => unreached(),
        }
    }

    /// What restoring the data needs: nothing (`None`) when the bytes are present,
    /// else a mapping of the returned backing path. Fails with `MissingPath` when the
    /// bytes are absent and there is no backing path.
    pub fn pending_restore(&self) -> (r: Result<Option<String>, DataError>)
        ensures
            self@.content is Some ==> r is Ok && r->Ok_0 is None,
            self@.content is None && self@.path is None ==> r is Err && r->Err_0 is MissingPath,
            self@.content is None && self@.path is Some ==> r is Ok && r->Ok_0 is Some
                && r->Ok_0.unwrap()@ == self@.path.unwrap(),
    {
        match &self.raw {
            Some(_) => Ok(None),
            None => match &self.path {
                Some(p) => Ok(Some(p.clone())),
                None => Err(DataError::MissingPath),
            },
        }
    }

    /// Installs `map`, a mapping of the backing path, as the data's bytes. A no-op when
    /// the bytes are already present; fails with `MissingPath`, changing nothing, when
    /// there is no backing path.
    pub fn restore(&mut self, map: MmapMut) -> (r: Result<(), DataError>)
        requires
            old(self).wf(),
        ensures
            final(self).wf(),
            old(self)@.content is Some ==> r is Ok && final(self)@ == old(self)@,
            old(self)@.content is None && old(self)@.path is None ==> r is Err
                && r->Err_0 is MissingPath && final(self)@ == old(self)@,
            old(self)@.content is None && old(self)@.path is Some ==> r is Ok
                && final(self)@.content == Some(mapped_bytes(map))
                && final(self)@.len == mapped_bytes(map).len()
                && final(self)@.path == old(self)@.path
                && final(self)@.mapped,
    {
        if self.raw.is_some() {
            return Ok(());
        }
        if self.path.is_none() {
            return Err(DataError::MissingPath);
        }
        self.len = mapped_slice(&map).len();
        self.raw = Some(RawData::Mmap(map));
        Ok(())
    }

    /// As `restore`, and fails with `LengthMismatch`, changing nothing, when the
    /// mapping does not have `len` bytes.
    pub fn restore_of_len(&mut self, map: MmapMut, len: usize) -> (r: Result<(), DataError>)
        requires
            old(self).wf(),
        ensures
            final(self).wf(),
            old(self)@.content is Some ==> r is Ok && final(self)@ == old(self)@,
            old(self)@.content is None && old(self)@.path is None ==> r is Err
                && r->Err_0 is MissingPath && final(self)@ == old(self)@,
            old(self)@.content is None && old(self)@.path is Some && mapped_bytes(map).len()
                != len ==> r is Err && r->Err_0 == (DataError::LengthMismatch {
                expected: len,
                actual: mapped_bytes(map).len() as usize,
            }) && final(self)@ == old(self)@,
            old(self)@.content is None && old(self)@.path is Some && mapped_bytes(map).len()
                == len ==> r is Ok && final(self)@.content == Some(mapped_bytes(map))
                && final(self)@.len == len && final(self)@.path == old(self)@.path
                && final(self)@.mapped,
    {
        if self.raw.is_some() {
            return Ok(());
        }
        if self.path.is_none() {
            return Err(DataError::MissingPath);
        }
        let actual = mapped_slice(&map).len();
        if actual != len {
            return Err(DataError::LengthMismatch { expected: len, actual });
        }
        self.len = actual;
        self.raw = Some(RawData::Mmap(map));
        Ok(())
    }

    /// Drops the bytes if they can be recovered from the backing path, flushing a
    /// mapping to its file first. Keeps them when there is no backing path. Fails with
    /// `Flush`, changing nothing, when the flush fails.
    pub fn drop_data(&mut self) -> (r: Result<(), DataError>)
        requires
            old(self).wf(),
        ensures
            final(self).wf(),
            old(self)@.path is None ==> r is Ok && final(self)@ == old(self)@,
            r is Err ==> r->Err_0 is Flush && old(self)@.mapped && final(self)@ == old(self)@,
            old(self)@.path is Some && !old(self)@.mapped ==> r is Ok,
            old(self)@.path is Some && r is Ok ==> final(self)@.content is None
                && final(self)@.path == old(self)@.path && final(self)@.len == old(self)@.len
                && !final(self)@.mapped,
    {
        if self.path.is_some() {
            if let Some(RawData::Mmap(m)) = &self.raw {
                match flush_mapped(m) {
                    Err(e) => {
                        return Err(DataError::Flush(e));
                    },
                    Ok(()) => {},
                }
            }
            self.raw = None;
        }
        Ok(())
    }
}

} // verus!
