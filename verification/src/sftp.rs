//! The file transfer subsystem: how files are described to the host, and the
//! requests that the operations on a file transfer session send.

use vstd::prelude::*;
use crate::channel::ChannelRequest;
use crate::error::WrappedError;
use crate::session::SessionRequest;

verus! {

/// What a directory entry is.
#[derive(Clone, Copy, Debug, PartialEq, Eq, Structural)]
pub enum SftpFileType {
    Directory,
    File,
    Symlink,
    Other,
}

/// The attributes of a file as the server sends them. Each may be missing.
#[derive(Clone, Debug, PartialEq, Eq)]
pub struct SftpAttributes {
    pub size: Option<u64>,
    pub uid: Option<u32>,
    pub user: Option<String>,
    pub gid: Option<u32>,
    pub group: Option<String>,
    pub permissions: Option<u32>,
    pub atime: Option<u32>,
    pub mtime: Option<u32>,
}

/// The attributes of a file as the host sees them. The size is written in
/// decimal, so that no digit is lost in a host whose numbers are floats.
#[derive(Clone, Debug, PartialEq, Eq)]
pub struct SftpFileMetadata {
    pub size: String,
    pub uid: Option<u32>,
    pub user: Option<String>,
    pub gid: Option<u32>,
    pub group: Option<String>,
    pub permissions: Option<u32>,
    pub atime: Option<u32>,
    pub mtime: Option<u32>,
}

/// One entry of a directory listing.
#[derive(Clone, Debug, PartialEq, Eq)]
pub struct SftpDirEntry {
    pub name: String,
    pub type_: SftpFileType,
    pub metadata: SftpFileMetadata,
}

/// The bits of a mode that say what kind of file it is.
pub const FILE_KIND_MASK: u32 = 0xF000;

/// The bits that an open mode may have.
pub const OPEN_FLAGS_MASK: u32 = 0x3F;

/// The kind of file that a mode stands for. Without a mode it is `Other`.
pub open spec fn file_type_of(permissions: Option<u32>) -> SftpFileType {
    let kind = match permissions {
        Some(mode) => mode & FILE_KIND_MASK,
        None => 0,
    };
    if kind == 0x4000 {
        SftpFileType::Directory
    } else if kind == 0xA000 {
        SftpFileType::Symlink
    } else if kind == 0x8000 {
        SftpFileType::File
    } else {
        SftpFileType::Other
    }
}

/// Whether every bit of an open mode is a known flag.
pub open spec fn mode_known(mode: u32) -> bool {
    mode & !OPEN_FLAGS_MASK == 0
}

/// Trusted: `russh_sftp::protocol::FileAttributes::file_type`, on attributes
/// that hold `permissions` and nothing else. It keeps the file kind bits of
/// the mode and names the directory, the symbolic link and the regular file;
/// every other value, and a missing mode, is `Other`.
#[verifier::external_body]
fn file_type_from_mode(permissions: Option<u32>) -> (kind: SftpFileType)
    ensures
        kind == file_type_of(permissions),
{
    let attributes = russh_sftp::protocol::FileAttributes { permissions, ..Default::default() };
    match attributes.file_type() {
        russh_sftp::protocol::FileType::Dir => SftpFileType::Directory,
        russh_sftp::protocol::FileType::File => SftpFileType::File,
        russh_sftp::protocol::FileType::Symlink => SftpFileType::Symlink,
        russh_sftp::protocol::FileType::Other => SftpFileType::Other,
    }
}

/// Trusted: `russh_sftp::protocol::OpenFlags::from_bits`. It accepts a mode
/// exactly when no bit is set beside the six flags of the protocol.
#[verifier::external_body]
fn open_flags_known(mode: u32) -> (known: bool)
    ensures
        known == mode_known(mode),
{
    russh_sftp::protocol::OpenFlags::from_bits(mode).is_some()
}

/// Trusted: `String::push` of the standard library, which appends one
/// character.
#[verifier::external_body]
fn push_char(text: &mut String, c: char)
    ensures
        final(text)@ == old(text)@.push(c),
{
    text.push(c)
}

/// The character of a decimal digit.
pub open spec fn digit_of(d: nat) -> char {
    if d == 0 {
        '0'
    } else if d == 1 {
        '1'
    } else if d == 2 {
        '2'
    } else if d == 3 {
        '3'
    } else if d == 4 {
        '4'
    } else if d == 5 {
        '5'
    } else if d == 6 {
        '6'
    } else if d == 7 {
        '7'
    } else if d == 8 {
        '8'
    } else {
        '9'
    }
}

/// The decimal numeral of a number, without leading zeros.
pub open spec fn decimal(n: nat) -> Seq<char>
    decreases n,
{
    if n < 10 {
        seq![digit_of(n)]
    } else {
        decimal(n / 10).push(digit_of(n % 10))
    }
}

fn digit(d: u64) -> (c: char)
    requires
        d < 10,
    ensures
        c == digit_of(d as nat),
{
    if d == 0 {
        '0'
    } else if d == 1 {
        '1'
    } else if d == 2 {
        '2'
    } else if d == 3 {
        '3'
    } else if d == 4 {
        '4'
    } else if d == 5 {
        '5'
    } else if d == 6 {
        '6'
    } else if d == 7 {
        '7'
    } else if d == 8 {
        '8'
    } else {
        '9'
    }
}

/// Writes a number in decimal.
pub fn to_decimal(n: u64) -> (text: String)
    ensures
        text@ == decimal(n as nat),
{
    let mut digits: Vec<char> = Vec::new();
    let mut rest: u64 = n;
    // The digits, least significant first.
    loop
        invariant_except_break
            digits@.len() > 0 ==> rest > 0,
            decimal(n as nat) == decimal(rest as nat) + digits@.reverse(),
        ensures
            decimal(n as nat) == digits@.reverse(),
            digits@.len() > 0,
        decreases rest,
    {
        let c = digit(rest % 10);
        let ghost before = digits@;
        digits.push(c);
        proof {
            assert(digits@.reverse() =~= seq![c] + before.reverse());
            if rest >= 10 {
                assert(decimal(rest as nat) == decimal((rest / 10) as nat).push(c));
                assert(decimal((rest / 10) as nat).push(c) + before.reverse() =~= decimal(
                    (rest / 10) as nat,
                ) + digits@.reverse());
            } else {
                assert(decimal(rest as nat) == seq![c]);
                assert(seq![c] + before.reverse() =~= digits@.reverse());
            }
        }
        if rest < 10 {
            break ;
        }
        rest = rest / 10;
    }
    let mut text = String::new();
    let mut left: usize = digits.len();
    while left > 0
        invariant
            left <= digits@.len(),
            text@ == digits@.reverse().take(digits@.len() - left),
        decreases left,
    {
        left -= 1;
        push_char(&mut text, digits[left]);
        proof {
            let turned = digits@.reverse();
            let done = digits@.len() - left;
            assert(turned[done - 1] == digits@[left as int]);
            assert(turned.take(done) =~= turned.take(done - 1).push(turned[done - 1]));
        }
    }
    proof {
        assert(digits@.reverse().take(digits@.len() as int) =~= digits@.reverse());
    }
    text
}

impl SftpFileMetadata {
    /// Whether this is how the host sees `value`: every attribute as it is,
    /// and the size, zero where it is missing, in decimal.
    pub open spec fn shows(self, value: SftpAttributes) -> bool {
        &&& self.size@ == decimal(
            match value.size {
                Some(size) => size as nat,
                None => 0,
            },
        )
        &&& self.uid == value.uid
        &&& self.user == value.user
        &&& self.gid == value.gid
        &&& self.group == value.group
        &&& self.permissions == value.permissions
        &&& self.atime == value.atime
        &&& self.mtime == value.mtime
    }

    /// The host's view of a file's attributes.
    pub fn from(value: &SftpAttributes) -> (metadata: Self)
        ensures
            metadata.shows(*value),
    {
        let size = match value.size {
            Some(size) => size,
            None => 0,
        };
        SftpFileMetadata {
            size: to_decimal(size),
            uid: value.uid,
            user: copy_text(&value.user),
            gid: value.gid,
            group: copy_text(&value.group),
            permissions: value.permissions,
            atime: value.atime,
            mtime: value.mtime,
        }
    }

    /// What kind of file the mode stands for.
    pub fn type_(&self) -> (kind: SftpFileType)
        ensures
            kind == file_type_of(self.permissions),
    {
        file_type_from_mode(self.permissions)
    }

    fn duplicate(&self) -> (copy: Self)
        ensures
            copy == *self,
    {
        SftpFileMetadata {
            size: self.size.clone(),
            uid: self.uid,
            user: copy_text(&self.user),
            gid: self.gid,
            group: copy_text(&self.group),
            permissions: self.permissions,
            atime: self.atime,
            mtime: self.mtime,
        }
    }
}

fn copy_text(text: &Option<String>) -> (copy: Option<String>)
    ensures
        copy == *text,
{
    match text {
        Some(text) => Some(text.clone()),
        None => None,
    }
}

impl SftpDirEntry {
    /// The entry of the file called `name` with the attributes `attributes`.
    pub fn from(name: String, attributes: &SftpAttributes) -> (entry: Self)
        ensures
            entry.name == name,
            entry.type_ == file_type_of(attributes.permissions),
            entry.metadata.shows(*attributes),
    {
        SftpDirEntry {
            name,
            type_: file_type_from_mode(attributes.permissions),
            metadata: SftpFileMetadata::from(attributes),
        }
    }

    /// A copy of the entry's attributes.
    pub fn metadata(&self) -> (copy: SftpFileMetadata)
        ensures
            copy == self.metadata,
    {
        self.metadata.duplicate()
    }
}

/// A request to the protocol engine on an open file.
#[derive(Clone, Debug, PartialEq, Eq)]
pub enum FileRequest {
    /// Read once, into a buffer of this capacity.
    Read { capacity: usize },
    /// Write all of these bytes.
    WriteAll { data: Vec<u8> },
    Flush,
    Shutdown,
}

/// A handle on an open remote file. `F` is the caller's type of a file.
#[derive(Debug)]
pub struct SftpFile<F> {
    handle: F,
}

impl<F> SftpFile<F> {
    /// The file that this handle holds.
    pub closed spec fn handle_of(self) -> F {
        self.handle
    }

    /// A handle on a file that has been opened.
    pub fn new(handle: F) -> (file: Self)
        ensures
            file.handle_of() == handle,
    {
        SftpFile { handle }
    }

    /// The file, to perform a request on.
    pub fn handle(&self) -> (handle: &F)
        ensures
            *handle == self.handle_of(),
    {
        &self.handle
    }

    /// The file, to perform a request that changes it.
    pub fn handle_mut(&mut self) -> (handle: &mut F)
        ensures
            *handle == old(self).handle_of(),
            final(self).handle_of() == *final(handle),
    {
        &mut self.handle
    }

    /// Reads at most `n` bytes.
    pub fn read(&self, n: u32) -> (request: FileRequest)
        ensures
            request == (FileRequest::Read { capacity: n as usize }),
    {
        FileRequest::Read { capacity: n as usize }
    }

    /// Writes all of `data`.
    pub fn write_all(&self, data: Vec<u8>) -> (request: FileRequest)
        ensures
            request == (FileRequest::WriteAll { data }),
    {
        FileRequest::WriteAll { data }
    }

    /// Flushes what was written.
    pub fn flush(&self) -> (request: FileRequest)
        ensures
            request == FileRequest::Flush,
    {
        FileRequest::Flush
    }

    /// Ends the writing.
    pub fn shutdown(&self) -> (request: FileRequest)
        ensures
            request == FileRequest::Shutdown,
    {
        FileRequest::Shutdown
    }
}

/// The bytes that a read yielded: the first `len` of the buffer, and all of
/// it where it holds no more.
pub fn bytes_read(buffer: Vec<u8>, len: usize) -> (bytes: Vec<u8>)
    ensures
        bytes@ == if len <= buffer@.len() {
            buffer@.take(len as int)
        } else {
            buffer@
        },
{
    let mut bytes = buffer;
    bytes.truncate(len);
    bytes
}

/// A request to the protocol engine on a file transfer session.
#[derive(Clone, Debug, PartialEq, Eq)]
pub enum SftpRequest {
    ReadDir { path: String },
    Stat { path: String },
    CreateDir { path: String },
    ReadLink { path: String },
    Rename { src: String, dst: String },
    SetMetadata { path: String, attributes: SftpAttributes },
    RemoveDir { path: String },
    RemoveFile { path: String },
    Close,
    /// Open a file with the flags that the bits of `flags` stand for.
    Open { path: String, flags: u32 },
}

/// The requests that open a file transfer session, in their order: a session
/// channel, then on it the subsystem. The engine's file transfer session is
/// started over that channel once both have succeeded.
#[derive(Debug, PartialEq, Eq)]
pub struct SftpBootstrap {
    pub open: SessionRequest,
    pub subsystem: ChannelRequest,
}

/// A handle on a file transfer session, known by the number of the channel
/// that carries it. `T` is the caller's type of such a session.
#[derive(Debug)]
pub struct SftpChannel<T> {
    pub channel_id: u32,
    handle: T,
}

impl<T> SftpChannel<T> {
    /// The session that this handle holds.
    pub closed spec fn handle_of(self) -> T {
        self.handle
    }

    /// The number of the channel that carries the session.
    pub closed spec fn number(self) -> u32 {
        self.channel_id
    }

    /// What `open` returns: the request that carries the mode as it is, or a
    /// refusal where a bit of the mode is no flag.
    pub open spec fn opening(path: String, mode: u32) -> Result<SftpRequest, WrappedError> {
        if mode_known(mode) {
            Ok(SftpRequest::Open { path, flags: mode })
        } else {
            Err(WrappedError::IncorrectMode)
        }
    }

    /// A handle on the session `session` over the channel numbered `id`.
    pub fn new(id: u32, session: T) -> (channel: Self)
        ensures
            channel.number() == id,
            channel.handle_of() == session,
    {
        SftpChannel { channel_id: id, handle: session }
    }

    /// The number of the channel that carries the session.
    pub fn channel_id(&self) -> (id: u32)
        ensures
            id == self.number(),
    {
        self.channel_id
    }

    /// The session, to perform a request on.
    pub fn handle(&self) -> (handle: &T)
        ensures
            *handle == self.handle_of(),
    {
        &self.handle
    }

    /// Lists a directory.
    pub fn read_dir(&self, path: String) -> (request: SftpRequest)
        ensures
            request == (SftpRequest::ReadDir { path }),
    {
        SftpRequest::ReadDir { path }
    }

    /// Asks for the attributes of a file.
    pub fn stat(&self, path: String) -> (request: SftpRequest)
        ensures
            request == (SftpRequest::Stat { path }),
    {
        SftpRequest::Stat { path }
    }

    /// Creates a directory.
    pub fn create_dir(&self, path: String) -> (request: SftpRequest)
        ensures
            request == (SftpRequest::CreateDir { path }),
    {
        SftpRequest::CreateDir { path }
    }

    /// Reads the target of a symbolic link.
    pub fn readlink(&self, path: String) -> (request: SftpRequest)
        ensures
            request == (SftpRequest::ReadLink { path }),
    {
        SftpRequest::ReadLink { path }
    }

    /// Renames a file.
    pub fn rename(&self, src: String, dst: String) -> (request: SftpRequest)
        ensures
            request == (SftpRequest::Rename { src, dst }),
    {
        SftpRequest::Rename { src, dst }
    }

    /// Changes the mode of a file whose attributes are `current`: every
    /// other attribute is sent back as it was read.
    pub fn chmod(&self, path: String, current: SftpAttributes, mode: u32) -> (request:
        SftpRequest)
        ensures
            request == (SftpRequest::SetMetadata {
                path,
                attributes: SftpAttributes { permissions: Some(mode), ..current },
            }),
    {
        let mut attributes = current;
        attributes.permissions = Some(mode);
        SftpRequest::SetMetadata { path, attributes }
    }

    /// Removes a directory.
    pub fn remove_dir(&self, path: String) -> (request: SftpRequest)
        ensures
            request == (SftpRequest::RemoveDir { path }),
    {
        SftpRequest::RemoveDir { path }
    }

    /// Removes a file.
    pub fn remove_file(&self, path: String) -> (request: SftpRequest)
        ensures
            request == (SftpRequest::RemoveFile { path }),
    {
        SftpRequest::RemoveFile { path }
    }

    /// Closes the session.
    pub fn close(&self) -> (request: SftpRequest)
        ensures
            request == SftpRequest::Close,
    {
        SftpRequest::Close
    }

    /// Opens a file. A mode with a bit that is no flag is refused.
    pub fn open(&self, path: String, mode: u32) -> (request: Result<SftpRequest, WrappedError>)
        ensures
            request == Self::opening(path, mode),
    {
        if open_flags_known(mode) {
            Ok(SftpRequest::Open { path, flags: mode })
        } else {
            Err(WrappedError::IncorrectMode)
        }
    }
}

} // verus!
