//! Reading the links under `/proc/self`: the path of the executable, and
//! the paths behind the open file descriptors.

use std::collections::HashMap;
use vstd::prelude::*;
use vstd::std_specs::hash::group_hash_axioms;
use vstd::string::is_ascii_spec_bytes;
use vstd::string::StringSliceAdditionalSpecFns;
use vstd::utf8::encode_utf8;

verus! {

/// The error number of a bad file descriptor.
pub const EBADF: i32 = 9;

/// The error number of an invalid argument.
pub const EINVAL: i32 = 22;

/// Why a link could not be read.
#[derive(Clone, Copy, Debug, PartialEq, Eq)]
pub enum ReadlinkError {
    /// The path names no file descriptor that is open.
    InvalidDescriptor,
    /// The file descriptor is open on something that has no path.
    NotNormalFile,
    /// The path is not one of the links that can be read.
    NotSymlink,
}

impl ReadlinkError {
    /// The error number that goes with the error.
    pub open spec fn spec_errno(self) -> i32 {
        match self {
            ReadlinkError::InvalidDescriptor => EBADF,
            ReadlinkError::NotNormalFile => EINVAL,
            ReadlinkError::NotSymlink => EINVAL,
        }
    }

    /// The error number that goes with the error.
    #[verifier::when_used_as_spec(spec_errno)]
    pub fn errno(self) -> (errno: i32)
        ensures
            errno == self.spec_errno(),
    {
        match self {
            ReadlinkError::InvalidDescriptor => EBADF,
            ReadlinkError::NotNormalFile => EINVAL,
            ReadlinkError::NotSymlink => EINVAL,
        }
    }
}

/// What a file descriptor is open on.
#[derive(Debug, PartialEq, Eq)]
pub enum OpenFile {
    /// A file of a file system, with its absolute path.
    Inode { abs_path: String },
    /// Anything else: a device, a socket, a pipe.
    Special,
}

/// What the links of a process lead to.
pub struct ProcessView {
    /// The bytes of the path of the executable.
    pub exec_path: Seq<u8>,
    /// The open file descriptors.
    pub files: Map<u32, OpenFile>,
}

/// The process whose links are read: the path of its executable and its
/// open file descriptors.
pub struct ProcessContext {
    exec_path: String,
    files: HashMap<u32, OpenFile>,
}

impl View for ProcessContext {
    type V = ProcessView;

    closed spec fn view(&self) -> ProcessView {
        ProcessView { exec_path: encode_utf8(self.exec_path@), files: self.files@ }
    }
}

impl ProcessContext {
    /// A process that runs `exec_path` and has no file descriptor open.
    pub fn new(exec_path: String) -> (process: ProcessContext)
        ensures
            process@ == (ProcessView { exec_path: encode_utf8(exec_path@), files: Map::empty() }),
    {
        ProcessContext { exec_path, files: HashMap::new() }
    }

    /// Opens `fd` on `file`, in place of what it was open on.
    pub fn open(&mut self, fd: u32, file: OpenFile)
        ensures
            final(self)@ == (ProcessView {
                files: old(self)@.files.insert(fd, file),
                ..old(self)@
            }),
    {
        broadcast use group_hash_axioms;

        self.files.insert(fd, file);
    }

    /// Closes `fd`.
    pub fn close(&mut self, fd: u32)
        ensures
            final(self)@ == (ProcessView { files: old(self)@.files.remove(fd), ..old(self)@ }),
    {
        broadcast use group_hash_axioms;

        self.files.remove(&fd);
    }
}

/// The number that the decimal digits `digits` write.
pub open spec fn decimal_value(digits: Seq<u8>) -> nat
    decreases digits.len(),
{
    if digits.len() == 0 {
        0
    } else {
        decimal_value(digits.drop_last()) * 10 + (digits.last() - 0x30) as nat
    }
}

/// Whether every byte of `s` is a decimal digit.
pub open spec fn all_digits(s: Seq<u8>) -> bool {
    forall|i: int| 0 <= i < s.len() ==> 0x30 <= #[trigger] s[i] <= 0x39
}

/// The file descriptor that the digits `digits` write: there is one if
/// they are one or more decimal digits of a number that is not too large for
/// a descriptor.
pub open spec fn digits_fd(digits: Seq<u8>) -> Option<u32> {
    if digits.len() > 0 && all_digits(digits) && decimal_value(digits) <= u32::MAX {
        Some(decimal_value(digits) as u32)
    } else {
        None
    }
}

/// The file descriptor that `s` writes: an optional plus sign and then the
/// digits. Nothing else writes one.
pub open spec fn parse_fd(s: Seq<u8>) -> Option<u32> {
    if s.len() > 0 && s[0] == 0x2b {
        digits_fd(s.skip(1))
    } else {
        digits_fd(s)
    }
}

/// What is left of `s` when `pattern` has been taken off its start as often
/// as it stands there.
pub open spec fn trim_start(s: Seq<u8>, pattern: Seq<u8>) -> Seq<u8>
    decreases s.len(),
{
    if pattern.len() > 0 && pattern.is_prefix_of(s) {
        trim_start(s.skip(pattern.len() as int), pattern)
    } else {
        s
    }
}

/// The bytes that the link `path` of `process` leads to, or why it cannot be
/// read.
pub open spec fn link_target(process: ProcessView, path: Seq<u8>) -> Result<
    Seq<u8>,
    ReadlinkError,
> {
    if path == "/proc/self/exe".spec_bytes() {
        Ok(process.exec_path)
    } else if "/proc/self/fd".spec_bytes().is_prefix_of(path) {
        match parse_fd(trim_start(path, "/proc/self/fd/".spec_bytes())) {
            None => Err(ReadlinkError::InvalidDescriptor),
            Some(fd) => if !process.files.contains_key(fd) {
                Err(ReadlinkError::InvalidDescriptor)
            } else {
                match process.files[fd] {
                    OpenFile::Inode { abs_path } => Ok(encode_utf8(abs_path@)),
                    OpenFile::Special => Err(ReadlinkError::NotNormalFile),
                }
            },
        }
    } else {
        Err(ReadlinkError::NotSymlink)
    }
}

/// A number written with more digits is not smaller.
proof fn lemma_decimal_value_grows(digits: Seq<u8>, k: int)
    requires
        0 <= k <= digits.len(),
        all_digits(digits),
    ensures
        decimal_value(digits.take(k)) <= decimal_value(digits),
    decreases digits.len() - k,
{
    if k < digits.len() {
        lemma_decimal_value_grows(digits, k + 1);
        assert(digits.take(k + 1).drop_last() =~= digits.take(k));
    } else {
        assert(digits.take(k) =~= digits);
    }
}

/// Whether `pattern` stands in `s` at `from`.
fn starts_with_at(s: &[u8], from: usize, pattern: &[u8]) -> (found: bool)
    requires
        from <= s@.len(),
    ensures
        found == pattern@.is_prefix_of(s@.skip(from as int)),
{
    let len = s.len();
    if pattern.len() > len - from {
        return false;
    }
    let mut i: usize = 0;
    while i < pattern.len()
        invariant
            len == s@.len(),
            from <= s@.len(),
            pattern@.len() <= s@.len() - from,
            i <= pattern@.len(),
            forall|k: int| 0 <= k < i ==> pattern@[k] == s@[from + k],
        decreases pattern@.len() - i,
    {
        if pattern[i] != s[from + i] {
            assert(s@.skip(from as int)[i as int] == s@[from + i]);
            return false;
        }
        i += 1;
    }
    assert(s@.skip(from as int).subrange(0, pattern@.len() as int) =~= pattern@);
    true
}

/// Where `s` goes on after `pattern` has been taken off its start as often
/// as it stands there.
fn trim_start_matches(s: &[u8], pattern: &[u8]) -> (from: usize)
    ensures
        from <= s@.len(),
        s@.skip(from as int) == trim_start(s@, pattern@),
{
    let len = s.len();
    let mut from: usize = 0;
    assert(s@.skip(0) =~= s@);
    if pattern.len() == 0 {
        return from;
    }
    while starts_with_at(s, from, pattern)
        invariant
            len == s@.len(),
            pattern@.len() > 0,
            from <= s@.len(),
            trim_start(s@.skip(from as int), pattern@) == trim_start(s@, pattern@),
        decreases s@.len() - from,
    {
        assert(pattern@.len() <= s@.skip(from as int).len());
        assert(s@.skip(from as int).skip(pattern@.len() as int) =~= s@.skip(
            from + pattern@.len(),
        ));
        from += pattern.len();
    }
    from
}

/// Reads the file descriptor that the bytes of `s` from `from` on write.
fn parse_fd_at(s: &[u8], from: usize) -> (fd: Option<u32>)
    requires
        from <= s@.len(),
    ensures
        fd == parse_fd(s@.skip(from as int)),
{
    let ghost text = s@.skip(from as int);
    let start: usize = if from < s.len() && s[from] == 0x2b {
        from + 1
    } else {
        from
    };
    let ghost digits = s@.skip(start as int);
    assert(parse_fd(text) == digits_fd(digits)) by {
        if from < s@.len() {
            assert(text.skip(1) =~= s@.skip(from + 1));
        }
    }
    if start == s.len() {
        return None;
    }
    let mut value: u64 = 0;
    let mut i: usize = start;
    while i < s.len()
        invariant
            start <= i <= s@.len(),
            digits == s@.skip(start as int),
            parse_fd(s@.skip(from as int)) == digits_fd(digits),
            all_digits(digits.take(i - start)),
            value == decimal_value(digits.take(i - start)),
            value <= u32::MAX,
        decreases s@.len() - i,
    {
        let byte = s[i];
        assert(digits[i - start] == byte);
        if byte < 0x30 || byte > 0x39 {
            return None;
        }
        let ghost longer = digits.take(i - start + 1);
        assert(longer.drop_last() =~= digits.take(i - start));
        assert(all_digits(longer)) by {
            assert forall|k: int| 0 <= k < longer.len() implies 0x30 <= #[trigger] longer[k]
                <= 0x39 by {
                if k < i - start {
                    assert(longer[k] == digits.take(i - start)[k]);
                }
            }
        }
        value = value * 10 + (byte - 0x30) as u64;
        if value > 0xffff_ffff {
            proof {
                if all_digits(digits) {
                    lemma_decimal_value_grows(digits, i - start + 1);
                }
            }
            return None;
        }
        i += 1;
    }
    assert(digits.take(i - start) =~= digits);
    Some(value as u32)
}

/// Reads the link `path` of `process` into `buf`, as much of it as fits, and
/// returns how many bytes that is. What does not fit is left out, and so is
/// any terminator. The links that can be read are `/proc/self/exe`, the
/// path of the executable, and `/proc/self/fd/` with a number, the path of
/// the file that this descriptor is open on. On an error `buf` is untouched.
pub fn do_readlink(process: &ProcessContext, path: &str, buf: &mut [u8]) -> (read: Result<
    usize,
    ReadlinkError,
>)
    ensures
        match link_target(process@, path.spec_bytes()) {
            Ok(target) => {
                let len = if target.len() <= old(buf)@.len() {
                    target.len()
                } else {
                    old(buf)@.len()
                };
                &&& read == Ok::<usize, ReadlinkError>(len as usize)
                &&& final(buf)@ == target.take(len as int) + old(buf)@.skip(len as int)
            },
            Err(e) => read == Err::<usize, ReadlinkError>(e) && final(buf)@ == old(buf)@,
        },
{
    broadcast use group_hash_axioms;

    let bytes = path.as_bytes();
    let file_path: &[u8] = if slices_equal(bytes, "/proc/self/exe".as_bytes()) {
        process.exec_path.as_str().as_bytes()
    } else if starts_with_at(bytes, 0, "/proc/self/fd".as_bytes()) {
        assert(bytes@.skip(0) =~= bytes@);
        let from = trim_start_matches(bytes, "/proc/self/fd/".as_bytes());
        let fd = match parse_fd_at(bytes, from) {
            None => { return Err(ReadlinkError::InvalidDescriptor); },
            Some(fd) => fd,
        };
        match process.files.get(&fd) {
            None => { return Err(ReadlinkError::InvalidDescriptor); },
            Some(OpenFile::Inode { abs_path }) => abs_path.as_str().as_bytes(),
            Some(OpenFile::Special) => { return Err(ReadlinkError::NotNormalFile); },
        }
    } else {
        assert(bytes@.skip(0) =~= bytes@);
        return Err(ReadlinkError::NotSymlink);
    };
    let len = if file_path.len() <= buf.len() {
        file_path.len()
    } else {
        buf.len()
    };
    let mut i: usize = 0;
    while i < len
        invariant
            i <= len,
            len <= file_path@.len(),
            len <= buf@.len(),
            buf@.len() == old(buf)@.len(),
            buf@ == file_path@.take(i as int) + old(buf)@.skip(i as int),
        decreases len - i,
    {
        buf[i] = file_path[i];
        i += 1;
    }
    Ok(len)
}

/// Whether two byte strings are the same.
fn slices_equal(a: &[u8], b: &[u8]) -> (same: bool)
    ensures
        same == (a@ == b@),
{
    if a.len() != b.len() {
        return false;
    }
    let mut i: usize = 0;
    while i < a.len()
        invariant
            a@.len() == b@.len(),
            i <= a@.len(),
            forall|k: int| 0 <= k < i ==> a@[k] == b@[k],
        decreases a@.len() - i,
    {
        if a[i] != b[i] {
            return false;
        }
        i += 1;
    }
    assert(a@ =~= b@);
    true
}

} // verus!
