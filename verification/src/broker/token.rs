//! Which token file a broker trusts, and what it has to hold.

use vstd::prelude::*;

use crate::error::{IoError, IoErrorKind};

verus! {

/// How many bytes a token has.
pub const TOKEN_BYTES: usize = 32;

/// The token that a client has to know.
pub struct StartupToken {
    bytes: [u8; 32],
}

impl View for StartupToken {
    type V = Seq<u8>;

    closed spec fn view(&self) -> Seq<u8> {
        self.bytes@
    }
}

impl StartupToken {
    /// The token with the given bytes.
    pub fn from_bytes(bytes: [u8; 32]) -> (token: StartupToken)
        ensures
            token@ == bytes@,
    {
        StartupToken { bytes }
    }

    /// The bytes of the token.
    pub fn expose_bytes(&self) -> (bytes: &[u8; 32])
        ensures
            bytes@ == self@,
    {
        &self.bytes
    }
}

/// What a path names.
#[derive(Clone, Copy, Debug, PartialEq, Eq, Structural)]
pub enum FileKind {
    Directory,
    RegularFile,
    SymbolicLink,
    Other,
}

/// What the system reports of a path or of an open file.
#[derive(Clone, Copy, Debug, PartialEq, Eq, Structural)]
pub struct FileMetadata {
    pub kind: FileKind,
    pub mode: u32,
    pub device: u64,
    pub inode: u64,
    pub owner: u32,
    pub links: u64,
}

/// Which file it is.
#[derive(Clone, Copy, Debug, PartialEq, Eq, Structural)]
pub struct Identity {
    pub device: u64,
    pub inode: u64,
    pub owner: u32,
}

impl FileMetadata {
    /// Which file it is.
    pub open spec fn identity(self) -> Identity {
        Identity { device: self.device, inode: self.inode, owner: self.owner }
    }

    /// Which file it is.
    pub fn to_identity(&self) -> (identity: Identity)
        ensures
            identity == self.identity(),
    {
        Identity { device: self.device, inode: self.inode, owner: self.owner }
    }
}

/// The error of a file that is not trusted.
pub fn policy_error(message: &'static str) -> (error: IoError)
    ensures
        error.is_found(IoErrorKind::PermissionDenied, message@),
{
    IoError::new(IoErrorKind::PermissionDenied, message)
}

/// Why the directory of a token file is not trusted.
pub open spec fn parent_refusal(metadata: FileMetadata) -> Option<Seq<char>> {
    if metadata.kind != FileKind::Directory {
        Some("token parent must be a real directory"@)
    } else if metadata.mode & 0x1ff != 0x1c0 {
        Some("token parent directory must have mode 0700"@)
    } else {
        None
    }
}

/// Checks that the directory of a token file is trusted: only its owner may use it.
pub fn validate_parent(metadata: &FileMetadata) -> (result: Result<(), IoError>)
    ensures
        match result {
            Ok(()) => parent_refusal(*metadata) is None,
            Err(error) => {
                &&& parent_refusal(*metadata) is Some
                &&& error.is_found(IoErrorKind::PermissionDenied, parent_refusal(*metadata)->0)
            },
        },
{
    if metadata.kind != FileKind::Directory {
        return Err(policy_error("token parent must be a real directory"));
    }
    if metadata.mode & 0x1ff != 0x1c0 {
        return Err(policy_error("token parent directory must have mode 0700"));
    }
    Ok(())
}

/// Why a token file is not trusted.
pub open spec fn file_refusal(metadata: FileMetadata, parent_owner: u32) -> Option<Seq<char>> {
    if metadata.kind != FileKind::RegularFile {
        Some("token path must name a regular file"@)
    } else if metadata.mode & 0x3f != 0 || metadata.mode & 0x100 == 0 {
        Some("token file must be owner-readable and inaccessible to group/other"@)
    } else if metadata.owner != parent_owner {
        Some("token file and private parent must have the same owner"@)
    } else if metadata.links != 1 {
        Some("token file must have exactly one hard link"@)
    } else {
        None
    }
}

/// Checks that a token file is trusted: only its owner may read it, and it has one name.
pub fn validate_file(metadata: &FileMetadata, parent_owner: u32) -> (result: Result<(), IoError>)
    ensures
        match result {
            Ok(()) => file_refusal(*metadata, parent_owner) is None,
            Err(error) => {
                &&& file_refusal(*metadata, parent_owner) is Some
                &&& error.is_found(
                    IoErrorKind::PermissionDenied,
                    file_refusal(*metadata, parent_owner)->0,
                )
            },
        },
{
    if metadata.kind != FileKind::RegularFile {
        return Err(policy_error("token path must name a regular file"));
    }
    if metadata.mode & 0x3f != 0 || metadata.mode & 0x100 == 0 {
        return Err(
            policy_error("token file must be owner-readable and inaccessible to group/other"),
        );
    }
    if metadata.owner != parent_owner {
        return Err(policy_error("token file and private parent must have the same owner"));
    }
    if metadata.links != 1 {
        return Err(policy_error("token file must have exactly one hard link"));
    }
    Ok(())
}

/// The numbers of the errors by which the system refuses to follow a link.
#[derive(Clone, Copy, Debug, PartialEq, Eq, Structural)]
pub struct LinkErrors {
    pub too_many_links: i32,
    pub too_many_symbolic_links: i32,
}

/// The error of a token file that could not be opened: a refusal to follow a link is one of the
/// policy.
pub fn normalize_open_error(error: IoError, codes: LinkErrors) -> (normalized: IoError)
    ensures
        if error.raw_os_error == Some(codes.too_many_links) || error.raw_os_error == Some(
            codes.too_many_symbolic_links,
        ) {
            normalized.is_found(
                IoErrorKind::PermissionDenied,
                "token file must not be a symbolic link"@,
            )
        } else {
            normalized == error
        },
{
    if let Some(code) = error.raw_os_error {
        if code == codes.too_many_links || code == codes.too_many_symbolic_links {
            return policy_error("token file must not be a symbolic link");
        }
    }
    error
}

/// A directory that is trusted to hold a token file.
#[derive(Clone, Copy, Debug, PartialEq, Eq, Structural)]
pub struct TrustedParent {
    identity: Identity,
}

impl View for TrustedParent {
    type V = Identity;

    closed spec fn view(&self) -> Identity {
        self.identity
    }
}

/// A token file that is trusted.
#[derive(Clone, Copy, Debug, PartialEq, Eq, Structural)]
pub struct TrustedTokenFile {
    parent: Identity,
    file: Identity,
}

/// The mathematical content of a [`TrustedTokenFile`].
pub struct TrustedFileView {
    pub parent: Identity,
    pub file: Identity,
}

impl View for TrustedTokenFile {
    type V = TrustedFileView;

    closed spec fn view(&self) -> TrustedFileView {
        TrustedFileView { parent: self.parent, file: self.file }
    }
}

/// Why an open token file is not trusted, given what its path named just before.
pub open spec fn open_refusal(
    parent: Identity,
    path: FileMetadata,
    file: FileMetadata,
) -> Option<Seq<char>> {
    if path.kind == FileKind::SymbolicLink {
        Some("token file must not be a symbolic link"@)
    } else if file_refusal(file, parent.owner) is Some {
        file_refusal(file, parent.owner)
    } else if file.identity() != path.identity() {
        Some("token path changed while it was being opened"@)
    } else {
        None
    }
}

impl TrustedParent {
    /// The directory of a token file, where it is trusted; a path without one is refused.
    pub fn accept(metadata: Option<&FileMetadata>) -> (result: Result<TrustedParent, IoError>)
        ensures
            match result {
                Ok(parent) => {
                    &&& metadata is Some
                    &&& parent_refusal(*metadata->0) is None
                    &&& parent@ == metadata->0.identity()
                },
                Err(error) => match metadata {
                    None => error.is_found(
                        IoErrorKind::PermissionDenied,
                        "token file must have a private parent directory"@,
                    ),
                    Some(metadata) => {
                        &&& parent_refusal(*metadata) is Some
                        &&& error.is_found(
                            IoErrorKind::PermissionDenied,
                            parent_refusal(*metadata)->0,
                        )
                    },
                },
            },
    {
        match metadata {
            None => Err(policy_error("token file must have a private parent directory")),
            Some(metadata) => {
                validate_parent(metadata)?;
                Ok(TrustedParent { identity: metadata.to_identity() })
            },
        }
    }

    /// Checks what the path of a token file names before it is opened.
    pub fn check_path(&self, path: &FileMetadata) -> (result: Result<(), IoError>)
        ensures
            match result {
                Ok(()) => path.kind != FileKind::SymbolicLink,
                Err(error) => {
                    &&& path.kind == FileKind::SymbolicLink
                    &&& error.is_found(
                        IoErrorKind::PermissionDenied,
                        "token file must not be a symbolic link"@,
                    )
                },
            },
    {
        if path.kind == FileKind::SymbolicLink {
            return Err(policy_error("token file must not be a symbolic link"));
        }
        Ok(())
    }

    /// The open token file, where it is trusted and is what its path named just before.
    pub fn open(&self, path: &FileMetadata, file: &FileMetadata) -> (result: Result<
        TrustedTokenFile,
        IoError,
    >)
        ensures
            match result {
                Ok(trusted) => {
                    &&& open_refusal(self@, *path, *file) is None
                    &&& trusted@ == (TrustedFileView { parent: self@, file: file.identity() })
                },
                Err(error) => {
                    &&& open_refusal(self@, *path, *file) is Some
                    &&& error.is_found(
                        IoErrorKind::PermissionDenied,
                        open_refusal(self@, *path, *file)->0,
                    )
                },
            },
    {
        self.check_path(path)?;
        validate_file(file, self.identity.owner)?;
        if file.to_identity() != path.to_identity() {
            return Err(policy_error("token path changed while it was being opened"));
        }
        Ok(TrustedTokenFile { parent: self.identity, file: file.to_identity() })
    }
}

/// The token that bytes read from a file give: there are exactly as many as a token has.
pub fn exact_token(bytes: &[u8]) -> (result: Result<StartupToken, IoError>)
    ensures
        match result {
            Ok(token) => bytes@.len() == TOKEN_BYTES && token@ == bytes@,
            Err(error) => {
                &&& bytes@.len() != TOKEN_BYTES
                &&& if bytes@.len() < TOKEN_BYTES {
                    error.is_found(IoErrorKind::UnexpectedEof, "failed to fill whole buffer"@)
                } else {
                    error.is_found(
                        IoErrorKind::InvalidData,
                        "authentication token file must contain exactly 32 bytes"@,
                    )
                }
            },
        },
{
    if bytes.len() < TOKEN_BYTES {
        return Err(IoError::new(IoErrorKind::UnexpectedEof, "failed to fill whole buffer"));
    }
    if bytes.len() > TOKEN_BYTES {
        return Err(
            IoError::new(
                IoErrorKind::InvalidData,
                "authentication token file must contain exactly 32 bytes",
            ),
        );
    }
    let mut token: [u8; 32] = [0;32];
    let mut index: usize = 0;
    while index < TOKEN_BYTES
        invariant
            index <= TOKEN_BYTES,
            bytes@.len() == TOKEN_BYTES,
            token@.len() == TOKEN_BYTES,
            forall|i: int| 0 <= i < index ==> token@[i] == bytes@[i],
        decreases TOKEN_BYTES - index,
    {
        token[index] = bytes[index];
        index += 1;
    }
    proof {
        assert(token@ =~= bytes@);
    }
    Ok(StartupToken::from_bytes(token))
}

/// Why the file that a path names is not deleted.
pub open spec fn deletion_refusal(
    trusted: TrustedFileView,
    parent: FileMetadata,
    path: FileMetadata,
) -> Option<Seq<char>> {
    if parent_refusal(parent) is Some {
        parent_refusal(parent)
    } else if parent.identity() != trusted.parent {
        Some("token parent directory changed before deletion"@)
    } else if file_refusal(path, trusted.parent.owner) is Some {
        file_refusal(path, trusted.parent.owner)
    } else if path.identity() != trusted.file {
        Some("token path changed before deletion"@)
    } else {
        None
    }
}

impl TrustedTokenFile {
    /// Checks that the directory is still the trusted one.
    pub fn confirm_parent(&self, parent: &FileMetadata) -> (result: Result<(), IoError>)
        ensures
            match result {
                Ok(()) => parent_refusal(*parent) is None && parent.identity() == self@.parent,
                Err(error) => if parent_refusal(*parent) is Some {
                    error.is_found(IoErrorKind::PermissionDenied, parent_refusal(*parent)->0)
                } else {
                    &&& parent.identity() != self@.parent
                    &&& error.is_found(
                        IoErrorKind::PermissionDenied,
                        "token parent directory changed before deletion"@,
                    )
                },
            },
    {
        validate_parent(parent)?;
        if parent.to_identity() != self.parent {
            return Err(policy_error("token parent directory changed before deletion"));
        }
        Ok(())
    }

    /// Checks that the path still names the file that was read, in the trusted directory. Only then
    /// may it be deleted.
    pub fn confirm_deletion(&self, parent: &FileMetadata, path: &FileMetadata) -> (result: Result<
        (),
        IoError,
    >)
        ensures
            match result {
                Ok(()) => deletion_refusal(self@, *parent, *path) is None,
                Err(error) => {
                    &&& deletion_refusal(self@, *parent, *path) is Some
                    &&& error.is_found(
                        IoErrorKind::PermissionDenied,
                        deletion_refusal(self@, *parent, *path)->0,
                    )
                },
            },
    {
        self.confirm_parent(parent)?;
        validate_file(path, self.parent.owner)?;
        if path.to_identity() != self.file {
            return Err(policy_error("token path changed before deletion"));
        }
        Ok(())
    }
}

/// A file that took the place of the one that was read is never deleted.
pub proof fn law_replaced_file_is_not_deleted(
    trusted: TrustedFileView,
    parent: FileMetadata,
    path: FileMetadata,
)
    requires
        path.device != trusted.file.device || path.inode != trusted.file.inode,
    ensures
        deletion_refusal(trusted, parent, path) is Some,
{
}

/// A token file that group or others can use, or that is a link, is never opened or deleted.
pub proof fn law_exposed_file_is_never_trusted(
    identity: Identity,
    trusted: TrustedFileView,
    parent: FileMetadata,
    path: FileMetadata,
    file: FileMetadata,
)
    requires
        file.mode & 0x3f != 0 || file.kind != FileKind::RegularFile || file.links != 1,
    ensures
        open_refusal(identity, path, file) is Some,
        deletion_refusal(trusted, parent, file) is Some,
{
}

/// A directory is trusted exactly where it is a real one with all rights for its owner and none for
/// others. A file is trusted exactly where it is a real one with one name, which its owner, who owns
/// the directory too, can read and nobody else can use.
pub proof fn law_trusted_paths_are_private(metadata: FileMetadata, parent_owner: u32)
    ensures
        parent_refusal(metadata) is None <==> metadata.kind == FileKind::Directory && metadata.mode
            & 0o777 == 0o700,
        file_refusal(metadata, parent_owner) is None <==> {
            &&& metadata.kind == FileKind::RegularFile
            &&& metadata.mode & 0o077 == 0
            &&& metadata.mode & 0o400 != 0
            &&& metadata.owner == parent_owner
            &&& metadata.links == 1
        },
{
}

/// An open token file is trusted exactly where its path was no link, the file is trusted, and it is
/// the one that the path named. It is deleted exactly where the directory and the file are still
/// trusted and still the same.
pub proof fn law_trusted_files_are_what_their_paths_named(
    parent: Identity,
    path: FileMetadata,
    file: FileMetadata,
    trusted: TrustedFileView,
    directory: FileMetadata,
)
    ensures
        open_refusal(parent, path, file) is None <==> {
            &&& path.kind != FileKind::SymbolicLink
            &&& file_refusal(file, parent.owner) is None
            &&& file.device == path.device
            &&& file.inode == path.inode
            &&& file.owner == path.owner
        },
        deletion_refusal(trusted, directory, path) is None <==> {
            &&& parent_refusal(directory) is None
            &&& directory.device == trusted.parent.device
            &&& directory.inode == trusted.parent.inode
            &&& directory.owner == trusted.parent.owner
            &&& file_refusal(path, trusted.parent.owner) is None
            &&& path.device == trusted.file.device
            &&& path.inode == trusted.file.inode
            &&& path.owner == trusted.file.owner
        },
{
}

} // verus!
