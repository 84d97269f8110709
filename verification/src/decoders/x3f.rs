use crate::bits::{le_u32, LEu32};
use vstd::prelude::*;

verus! {

/// Whether the file starts with the Sigma X3F magic `FOVb`.
pub fn is_x3f(file: &[u8]) -> (r: bool)
    ensures
        r == (file@.len() >= 4 && file@.subrange(0, 4) == seq![0x46u8, 0x4fu8, 0x56u8, 0x62u8]),
{
    if file.len() < 4 {
        return false;
    }
    let r = file[0] == 0x46 && file[1] == 0x4f && file[2] == 0x56 && file[3] == 0x62;
    assert(r == (file@.subrange(0, 4) =~= seq![0x46u8, 0x4fu8, 0x56u8, 0x62u8]));
    r
}

/// Why an X3F directory could not be read.
#[derive(Debug, Clone, Copy, PartialEq, Eq, Structural)]
pub enum X3fError {
    /// The file is too small to hold the directory pointer.
    FileTooSmall,
    /// The directory pointer points past the end of the file.
    DirectoryOutOfRange,
    /// The directory version is older than 2.0.
    VersionTooOld(u32),
    /// A directory entry starts past the end of the file.
    EntryOutOfRange,
    /// A directory entry is cut short by the end of the file.
    TruncatedEntry,
    /// An image entry points past the end of the file.
    ImageOutOfRange,
}

/// One entry of the X3F directory.
#[derive(Debug, Clone)]
pub struct X3fDirectory {
    pub offset: usize,
    pub len: usize,
    /// The four bytes naming the section.
    pub id: Vec<u8>,
}

/// An image section (`IMA2`) of an X3F file.
#[derive(Debug, Clone, Copy, PartialEq, Eq, Structural)]
pub struct X3fImage {
    pub typ: usize,
    pub format: usize,
    pub width: usize,
    pub height: usize,
    pub pitch: usize,
    pub doffset: usize,
}

/// The sections of an X3F file.
#[derive(Debug, Clone)]
pub struct X3fFile {
    pub dirs: Vec<X3fDirectory>,
    pub images: Vec<X3fImage>,
}

/// Whether the four bytes at `at` spell `IMA2`.
pub open spec fn is_ima2(b: Seq<u8>, at: int) -> bool {
    b[at] == 0x49 && b[at + 1] == 0x4d && b[at + 2] == 0x41 && b[at + 3] == 0x32
}

/// The image section whose header starts at `off`.
pub open spec fn image_at(b: Seq<u8>, off: int) -> X3fImage {
    X3fImage {
        typ: le_u32(b, off + 8) as usize,
        format: le_u32(b, off + 12) as usize,
        width: le_u32(b, off + 16) as usize,
        height: le_u32(b, off + 20) as usize,
        pitch: le_u32(b, off + 24) as usize,
        doffset: (off + 28) as usize,
    }
}

/// The directory of the file: where its pointer (the last four bytes)
/// points.
pub open spec fn dir_offset(b: Seq<u8>) -> int {
    le_u32(b, b.len() - 4)
}

/// Start of directory entry `k` in the directory at `off`.
pub open spec fn entry_start(off: int, k: int) -> int {
    off + 12 + 12 * k
}

/// What the directory entry starting at `e` yields: its fields, and the
/// image section it names where it is an `IMA2` entry.
pub open spec fn entry_step(b: Seq<u8>, e: int) -> Result<
    ((usize, usize, Seq<u8>), Option<X3fImage>),
    X3fError,
> {
    if e > b.len() {
        Err(X3fError::EntryOutOfRange)
    } else if e + 12 > b.len() {
        Err(X3fError::TruncatedEntry)
    } else {
        let d = (le_u32(b, e) as usize, le_u32(b, e + 4) as usize, b.subrange(e + 8, e + 12));
        if is_ima2(b, e + 8) {
            if d.0 > b.len() {
                Err(X3fError::ImageOutOfRange)
            } else {
                Ok((d, Some(image_at(b, d.0 as int))))
            }
        } else {
            Ok((d, None))
        }
    }
}

/// The directory entries and images read from the first `k` entries of
/// the directory at `off`, or the first error met.
pub open spec fn scan_entries(b: Seq<u8>, off: int, k: int) -> Result<
    (Seq<(usize, usize, Seq<u8>)>, Seq<X3fImage>),
    X3fError,
>
    decreases k,
{
    if k <= 0 {
        Ok((Seq::empty(), Seq::empty()))
    } else {
        match scan_entries(b, off, k - 1) {
            Err(e) => Err(e),
            Ok((dirs, images)) => match entry_step(b, entry_start(off, k - 1)) {
                Err(e) => Err(e),
                Ok((d, img)) => Ok(
                    (
                        dirs.push(d),
                        match img {
                            Some(i) => images.push(i),
                            None => images,
                        },
                    ),
                ),
            },
        }
    }
}

/// The sections of the file, or why they could not be read.
pub open spec fn x3f_sections(b: Seq<u8>) -> Result<(Seq<(usize, usize, Seq<u8>)>, Seq<X3fImage>), X3fError> {
    if b.len() < 4 {
        Err(X3fError::FileTooSmall)
    } else if dir_offset(b) > b.len() {
        Err(X3fError::DirectoryOutOfRange)
    } else if le_u32(b, dir_offset(b) + 4) < 0x20000 {
        Err(X3fError::VersionTooOld(le_u32(b, dir_offset(b) + 4) as u32))
    } else {
        scan_entries(b, dir_offset(b), le_u32(b, dir_offset(b) + 8))
    }
}

/// Reading the entry at `e` stays inside the file where it starts there:
/// its offset and length fields fit, and so does the header of the image
/// an `IMA2` entry names.
pub open spec fn entry_reads_ok(b: Seq<u8>, e: int) -> bool {
    e > b.len() || (e + 8 <= b.len() && (e + 12 > b.len() || !is_ima2(b, e + 8) || le_u32(b, e)
        > b.len() || le_u32(b, e) + 28 <= b.len()))
}

/// Every read of a fixed-size field that parsing the file makes falls
/// inside it: the directory header, and each entry that starts inside it.
pub open spec fn x3f_reads_in_bounds(b: Seq<u8>) -> bool {
    b.len() >= 4 ==> (dir_offset(b) > b.len() || {
        &&& dir_offset(b) + 12 <= b.len()
        &&& dir_offset(b) + 12 + 12 * le_u32(b, dir_offset(b) + 8) <= usize::MAX
        &&& forall|k: int|
            0 <= k < le_u32(b, dir_offset(b) + 8) ==> #[trigger] entry_reads_ok(
                b,
                entry_start(dir_offset(b), k),
            )
    })
}

proof fn lemma_scan_error_sticks(b: Seq<u8>, off: int, k: int, m: int)
    requires
        0 <= k <= m,
        scan_entries(b, off, k) is Err,
    ensures
        scan_entries(b, off, m) == scan_entries(b, off, k),
    decreases m - k,
{
    if m > k {
        lemma_scan_error_sticks(b, off, k, m - 1);
    }
}

impl X3fDirectory {
    /// Read the directory entry at `offset`.
    pub fn new(buf: &[u8], offset: usize) -> (r: Result<X3fDirectory, X3fError>)
        requires
            offset > buf@.len() || offset + 8 <= buf@.len(),
        ensures
            offset > buf@.len() ==> r == Err::<X3fDirectory, X3fError>(X3fError::EntryOutOfRange),
            offset <= buf@.len() && offset + 12 > buf@.len() ==> r == Err::<X3fDirectory, X3fError>(
                X3fError::TruncatedEntry,
            ),
            offset + 12 <= buf@.len() ==> (r matches Ok(d) && d.offset == le_u32(buf@, offset as int)
                && d.len == le_u32(buf@, offset + 4) && d.id@ == buf@.subrange(
                offset + 8,
                offset + 12,
            )),
    {
        if offset > buf.len() {
            return Err(X3fError::EntryOutOfRange);
        }
        let off = LEu32(buf, offset) as usize;
        let len = LEu32(buf, offset + 4) as usize;
        if buf.len() - offset < 12 {
            return Err(X3fError::TruncatedEntry);
        }
        let mut id: Vec<u8> = Vec::new();
        id.push(buf[offset + 8]);
        id.push(buf[offset + 9]);
        id.push(buf[offset + 10]);
        id.push(buf[offset + 11]);
        assert(id@ =~= buf@.subrange(offset + 8, offset + 12));
        Ok(X3fDirectory { offset: off, len, id })
    }
}

impl X3fImage {
    /// Read the image header at `offset`.
    pub fn new(buf: &[u8], offset: usize) -> (r: Result<X3fImage, X3fError>)
        requires
            offset > buf@.len() || offset + 28 <= buf@.len(),
        ensures
            offset > buf@.len() ==> r == Err::<X3fImage, X3fError>(X3fError::ImageOutOfRange),
            offset <= buf@.len() ==> r == Ok::<X3fImage, X3fError>(image_at(buf@, offset as int)),
    {
        if offset > buf.len() {
            return Err(X3fError::ImageOutOfRange);
        }
        Ok(
            X3fImage {
                typ: LEu32(buf, offset + 8) as usize,
                format: LEu32(buf, offset + 12) as usize,
                width: LEu32(buf, offset + 16) as usize,
                height: LEu32(buf, offset + 20) as usize,
                pitch: LEu32(buf, offset + 24) as usize,
                doffset: offset + 28,
            },
        )
    }
}

/// Read the directory entry at `e` and, for an `IMA2` entry, its image.
fn read_entry(buf: &[u8], e: usize) -> (r: Result<(X3fDirectory, Option<X3fImage>), X3fError>)
    requires
        entry_reads_ok(buf@, e as int),
    ensures
        match entry_step(buf@, e as int) {
            Ok((d, img)) => (r matches Ok((dir, i)) && (dir.offset, dir.len, dir.id@) == d && i == img),
            Err(err) => r == Err::<(X3fDirectory, Option<X3fImage>), X3fError>(err),
        },
{
    let dir = X3fDirectory::new(buf, e)?;
    if dir.id[0] == 0x49 && dir.id[1] == 0x4d && dir.id[2] == 0x41 && dir.id[3] == 0x32 {
        let img = X3fImage::new(buf, dir.offset)?;
        Ok((dir, Some(img)))
    } else {
        Ok((dir, None))
    }
}

impl X3fFile {
    /// The directory entries of the file, each with the view of its fields.
    pub open spec fn dir_views(dirs: Seq<X3fDirectory>) -> Seq<(usize, usize, Seq<u8>)> {
        dirs.map_values(|d: X3fDirectory| (d.offset, d.len, d.id@))
    }

    /// Read the directory of an X3F file and the image sections it names.
    pub fn new(buf: &[u8]) -> (r: Result<X3fFile, X3fError>)
        requires
            x3f_reads_in_bounds(buf@),
        ensures
            match x3f_sections(buf@) {
                Ok((dirs, images)) => (r matches Ok(f) && Self::dir_views(f.dirs@) == dirs && f.images@
                    == images),
                Err(e) => r == Err::<X3fFile, X3fError>(e),
            },
    {
        if buf.len() < 4 {
            return Err(X3fError::FileTooSmall);
        }
        let dir_ptr_pos = buf.len() - 4;
        let offset = LEu32(buf, dir_ptr_pos) as usize;
        if offset > buf.len() {
            return Err(X3fError::DirectoryOutOfRange);
        }
        let version = LEu32(buf, offset + 4);
        if version < 0x00020000 {
            return Err(X3fError::VersionTooOld(version));
        }
        let entries = LEu32(buf, offset + 8) as usize;
        let mut dirs: Vec<X3fDirectory> = Vec::new();
        let mut images: Vec<X3fImage> = Vec::new();
        let ghost b = buf@;
        assert(Self::dir_views(dirs@) =~= Seq::empty());
        for i in 0..entries
            invariant
                b == buf@,
                b.len() >= 4,
                offset as int == dir_offset(b),
                offset <= b.len(),
                le_u32(b, offset + 4) >= 0x20000,
                entries as int == le_u32(b, offset + 8),
                offset + 12 + 12 * entries <= usize::MAX,
                forall|k: int|
                    0 <= k < entries ==> #[trigger] entry_reads_ok(b, entry_start(offset as int, k)),
                scan_entries(b, offset as int, i as int) == Ok::<
                    (Seq<(usize, usize, Seq<u8>)>, Seq<X3fImage>),
                    X3fError,
                >((Self::dir_views(dirs@), images@)),
        {
            assert(entry_reads_ok(b, entry_start(offset as int, i as int)));
            let start = offset + 12 + i * 12;
            match read_entry(buf, start) {
                Ok((dir, img)) => {
                    let ghost before = dirs@;
                    dirs.push(dir);
                    assert(Self::dir_views(dirs@) =~= Self::dir_views(before).push(
                        (dirs@.last().offset, dirs@.last().len, dirs@.last().id@),
                    ));
                    match img {
                        Some(im) => images.push(im),
                        None => {},
                    }
                },
                Err(err) => {
                    proof {
                        assert(scan_entries(b, offset as int, i + 1) == Err::<
                            (Seq<(usize, usize, Seq<u8>)>, Seq<X3fImage>),
                            X3fError,
                        >(err));
                        lemma_scan_error_sticks(b, offset as int, i + 1, entries as int);
                    }
                    return Err(err);
                },
            }
        }
        Ok(X3fFile { dirs, images })
    }
}

} // verus!
