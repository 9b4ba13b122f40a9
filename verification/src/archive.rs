//! The directory of an archive: where each file of the archive lies.
//!
//! The directory is a header of three 32-bit fields, the version and the
//! numbers of directories and of files; then an entry for every directory,
//! its path and its depth; then an entry for every file, its path, its
//! offset and its length. A path is a text with its length in four bytes in
//! front of it. Paths are stored in small letters, and a file is looked up
//! without regard to the case of the letters that are asked for.

use vstd::prelude::*;
use crate::cif::text::chars_of;
use crate::cif::text::eq_ignore_case;
use crate::cif::text::lowered;
use crate::endian::le_u32_of;
use crate::error::DecodeError;
use crate::error::StructuralError;
use crate::reader::ByteCursor;
use crate::reader::normal_string_of;
use crate::reader::read_normal_string;
use crate::reader::truncated;

verus! {

/// The header of a directory.
#[derive(Debug, Clone, Copy, PartialEq, Eq, Structural)]
pub struct FSHeader {
    pub version: u32,
    pub num_dirs: u32,
    pub num_files: u32,
}

/// A directory of the archive.
#[derive(Debug, Clone, PartialEq, Eq)]
pub struct DirInfo {
    pub path: String,
    pub depth: u32,
}

/// A file of the archive: its path, and where its bytes lie.
#[derive(Debug, Clone, PartialEq, Eq)]
pub struct FileInfo {
    pub path: String,
    pub offset: u32,
    pub length: u32,
}

/// The mathematical value of a `DirInfo`.
pub struct DirInfoView {
    pub path: Seq<char>,
    pub depth: u32,
}

/// The mathematical value of a `FileInfo`.
pub struct FileInfoView {
    pub path: Seq<char>,
    pub offset: u32,
    pub length: u32,
}

impl View for DirInfo {
    type V = DirInfoView;

    open spec fn view(&self) -> DirInfoView {
        DirInfoView { path: self.path@, depth: self.depth }
    }
}

impl View for FileInfo {
    type V = FileInfoView;

    open spec fn view(&self) -> FileInfoView {
        FileInfoView { path: self.path@, offset: self.offset, length: self.length }
    }
}

/// The mathematical values of a sequence of directories.
pub open spec fn dirs_view(dirs: Seq<DirInfo>) -> Seq<DirInfoView> {
    Seq::new(dirs.len(), |i: int| dirs[i]@)
}

/// The mathematical values of a sequence of files.
pub open spec fn files_view(files: Seq<FileInfo>) -> Seq<FileInfoView> {
    Seq::new(files.len(), |i: int| files[i]@)
}

/// The header that the first twelve bytes of `s` hold.
pub open spec fn fs_header_of(s: Seq<u8>) -> Result<FSHeader, DecodeError> {
    if s.len() < 12 {
        Err(truncated())
    } else {
        Ok(
            FSHeader {
                version: le_u32_of(s) as u32,
                num_dirs: le_u32_of(s.skip(4)) as u32,
                num_files: le_u32_of(s.skip(8)) as u32,
            },
        )
    }
}

/// The directory entry at the head of `s`, and its size in bytes.
pub open spec fn dir_of(s: Seq<u8>) -> Result<(DirInfoView, int), DecodeError> {
    match normal_string_of(s) {
        Err(e) => Err(e),
        Ok((path, size)) => if s.len() - size < 4 {
            Err(truncated())
        } else {
            Ok((DirInfoView { path, depth: le_u32_of(s.skip(size)) as u32 }, size + 4))
        },
    }
}

/// The file entry at the head of `s`, and its size in bytes.
pub open spec fn file_of(s: Seq<u8>) -> Result<(FileInfoView, int), DecodeError> {
    match normal_string_of(s) {
        Err(e) => Err(e),
        Ok((path, size)) => if s.len() - size < 8 {
            Err(truncated())
        } else {
            Ok(
                (
                    FileInfoView {
                        path,
                        offset: le_u32_of(s.skip(size)) as u32,
                        length: le_u32_of(s.skip(size + 4)) as u32,
                    },
                    size + 8,
                ),
            )
        },
    }
}

/// The first `count` directory entries of `s`, and the bytes behind them.
pub open spec fn dirs_of(s: Seq<u8>, count: nat) -> Result<(Seq<DirInfoView>, Seq<u8>), DecodeError>
    decreases count,
{
    if count == 0 {
        Ok((Seq::empty(), s))
    } else {
        match dir_of(s) {
            Err(e) => Err(e),
            Ok((dir, size)) => match dirs_of(s.skip(size), (count - 1) as nat) {
                Err(e) => Err(e),
                Ok((dirs, rest)) => Ok((seq![dir] + dirs, rest)),
            },
        }
    }
}

/// The first `count` file entries of `s`, and the bytes behind them.
pub open spec fn files_of(s: Seq<u8>, count: nat) -> Result<
    (Seq<FileInfoView>, Seq<u8>),
    DecodeError,
>
    decreases count,
{
    if count == 0 {
        Ok((Seq::empty(), s))
    } else {
        match file_of(s) {
            Err(e) => Err(e),
            Ok((file, size)) => match files_of(s.skip(size), (count - 1) as nat) {
                Err(e) => Err(e),
                Ok((files, rest)) => Ok((seq![file] + files, rest)),
            },
        }
    }
}

/// The place of the file that is found under `path`: the last file whose
/// stored path is `path` in small letters.
pub open spec fn found_at(files: Seq<FileInfoView>, path: Seq<char>, i: int) -> bool {
    &&& 0 <= i < files.len()
    &&& files[i].path == lowered(path)
    &&& forall|j: int| i < j < files.len() ==> (#[trigger] files[j]).path != lowered(path)
}

/// Whether `len` bytes from `pos` on lie within a source of `size` bytes.
pub open spec fn range_fits(size: u64, pos: u64, len: u64) -> bool {
    pos + len <= size
}

/// Reads the header of a directory.
pub fn read_fs_header(c: &mut ByteCursor) -> (r: Result<FSHeader, DecodeError>)
    ensures
        r == fs_header_of(old(c)@),
        r is Ok ==> final(c)@ == old(c)@.skip(12),
{
    if c.remaining() < 12 {
        return Err(DecodeError::Malformed(StructuralError::Truncated));
    }
    let ghost s = c@;
    let version: u32 = c.read_u32()?;
    let num_dirs: u32 = c.read_u32()?;
    assert(c@ =~= s.skip(8));
    let num_files: u32 = c.read_u32()?;
    assert(c@ =~= s.skip(12));
    Ok(FSHeader { version, num_dirs, num_files })
}

/// Reads the entries of `n` directories.
pub fn read_dirs(n: u32, view: &mut ByteCursor) -> (r: Result<Vec<DirInfo>, DecodeError>)
    ensures
        match dirs_of(old(view)@, n as nat) {
            Ok((dirs, rest)) => r is Ok && dirs_view(r.unwrap()@) == dirs && final(view)@ == rest,
            Err(e) => r == Err::<Vec<DirInfo>, DecodeError>(e),
        },
{
    let ghost target = dirs_of(view@, n as nat);
    let mut dirs: Vec<DirInfo> = Vec::new();
    let mut i: u32 = 0;
    assert(dirs_view(dirs@) =~= Seq::<DirInfoView>::empty());
    while i < n
        invariant
            i <= n,
            target == dirs_of(old(view)@, n as nat),
            match dirs_of(view@, (n - i) as nat) {
                Ok((more, rest)) => target == Ok::<(Seq<DirInfoView>, Seq<u8>), DecodeError>(
                    (dirs_view(dirs@) + more, rest),
                ),
                Err(e) => target == Err::<(Seq<DirInfoView>, Seq<u8>), DecodeError>(e),
            },
        decreases n - i,
    {
        let ghost s = view@;
        let ghost before = dirs_view(dirs@);
        let path: String = read_normal_string(view)?;
        let ghost size = 4 + le_u32_of(s);
        let depth: u32 = view.read_u32()?;
        assert(view@ =~= s.skip(size + 4));
        let dir = DirInfo { path, depth };
        dirs.push(dir);
        proof {
            assert(dirs_view(dirs@) =~= before + seq![dir@]);
            match dirs_of(s.skip(size + 4), (n - i - 1) as nat) {
                Ok((more, rest)) => {
                    assert((before + seq![dir@]) + more =~= before + (seq![dir@] + more));
                },
                Err(e) => {},
            }
        }
        i = i + 1;
    }
    assert(dirs_view(dirs@) + Seq::<DirInfoView>::empty() =~= dirs_view(dirs@));
    Ok(dirs)
}

/// Reads the entries of `n` files.
pub fn read_files(n: u32, view: &mut ByteCursor) -> (r: Result<Vec<FileInfo>, DecodeError>)
    ensures
        match files_of(old(view)@, n as nat) {
            Ok((files, rest)) => r is Ok && files_view(r.unwrap()@) == files && final(view)@
                == rest,
            Err(e) => r == Err::<Vec<FileInfo>, DecodeError>(e),
        },
{
    let ghost target = files_of(view@, n as nat);
    let mut files: Vec<FileInfo> = Vec::new();
    let mut i: u32 = 0;
    assert(files_view(files@) =~= Seq::<FileInfoView>::empty());
    while i < n
        invariant
            i <= n,
            target == files_of(old(view)@, n as nat),
            match files_of(view@, (n - i) as nat) {
                Ok((more, rest)) => target == Ok::<(Seq<FileInfoView>, Seq<u8>), DecodeError>(
                    (files_view(files@) + more, rest),
                ),
                Err(e) => target == Err::<(Seq<FileInfoView>, Seq<u8>), DecodeError>(e),
            },
        decreases n - i,
    {
        let ghost s = view@;
        let ghost before = files_view(files@);
        let path: String = read_normal_string(view)?;
        let ghost size = 4 + le_u32_of(s);
        if view.remaining() < 8 {
            return Err(DecodeError::Malformed(StructuralError::Truncated));
        }
        let offset: u32 = view.read_u32()?;
        let length: u32 = view.read_u32()?;
        assert(view@ =~= s.skip(size + 8));
        assert(s.skip(size).skip(4) =~= s.skip(size + 4));
        let file = FileInfo { path, offset, length };
        files.push(file);
        proof {
            assert(files_view(files@) =~= before + seq![file@]);
            match files_of(s.skip(size + 8), (n - i - 1) as nat) {
                Ok((more, rest)) => {
                    assert((before + seq![file@]) + more =~= before + (seq![file@] + more));
                },
                Err(e) => {},
            }
        }
        i = i + 1;
    }
    assert(files_view(files@) + Seq::<FileInfoView>::empty() =~= files_view(files@));
    Ok(files)
}

/// Looks a file up by its path, without regard to the case of the letters
/// that are asked for. Of two files with one path the later one is found.
pub fn stats(files: &Vec<FileInfo>, path: &str) -> (r: Option<usize>)
    ensures
        r matches Some(i) ==> found_at(files_view(files@), path@, i as int),
        r is None ==> forall|j: int|
            0 <= j < files@.len() ==> (#[trigger] files_view(files@)[j]).path != lowered(path@),
{
    let asked: Vec<char> = chars_of(path);
    let mut i: usize = files.len();
    while i > 0
        invariant
            i <= files@.len(),
            asked@ == path@,
            forall|j: int|
                i <= j < files@.len() ==> (#[trigger] files_view(files@)[j]).path != lowered(
                    path@,
                ),
        decreases i,
    {
        i = i - 1;
        if eq_ignore_case(&asked, files[i].path.as_str()) {
            assert(files_view(files@)[i as int].path == lowered(path@));
            return Some(i);
        }
    }
    None
}

/// Whether `len` bytes from `pos` on lie within a source of `size` bytes.
pub fn fits(size: u64, pos: u64, len: u64) -> (r: bool)
    ensures
        r == range_fits(size, pos, len),
{
    pos <= size && len <= size - pos
}

} // verus!
