//! Which token file a broker trusts on Windows.

use vstd::prelude::*;
use vstd::string::*;

use crate::broker::token::policy_error;
use crate::error::{IoError, IoErrorKind};
use crate::text::same_text;

verus! {

/// The attribute of a file that stands for another one.
pub const REPARSE_POINT: u32 = 0x400;

/// The system account.
pub const SYSTEM_SID: &'static str = "S-1-5-18";

/// The administrators.
pub const ADMINISTRATORS_SID: &'static str = "S-1-5-32-544";

/// Whoever owns the file.
pub const OWNER_RIGHTS_SID: &'static str = "S-1-3-4";

/// What a path names, apart from the attribute of a reparse point.
#[derive(Clone, Copy, Debug, PartialEq, Eq, Structural)]
pub enum WindowsFileKind {
    Directory,
    RegularFile,
    Other,
}

/// Which file it is.
#[derive(Clone, Copy, Debug, PartialEq, Eq, Structural)]
pub struct WindowsIdentity {
    pub attributes: u32,
    pub created: u64,
    pub modified: u64,
    pub size: u64,
}

/// What the system reports of a path or of an open file.
#[derive(Clone, Copy, Debug, PartialEq, Eq, Structural)]
pub struct WindowsMetadata {
    pub kind: WindowsFileKind,
    pub identity: WindowsIdentity,
}

/// Why a directory is not a real one.
pub open spec fn directory_refusal(metadata: WindowsMetadata) -> Option<Seq<char>> {
    if metadata.kind != WindowsFileKind::Directory || metadata.identity.attributes & REPARSE_POINT
        != 0 {
        Some("token parent must be a non-reparse private directory"@)
    } else {
        None
    }
}

/// Checks that a directory is a real one.
pub fn validate_real_directory(metadata: &WindowsMetadata) -> (result: Result<(), IoError>)
    ensures
        match result {
            Ok(()) => directory_refusal(*metadata) is None,
            Err(error) => {
                &&& directory_refusal(*metadata) is Some
                &&& error.is_found(IoErrorKind::PermissionDenied, directory_refusal(*metadata)->0)
            },
        },
{
    if metadata.kind != WindowsFileKind::Directory || metadata.identity.attributes & REPARSE_POINT
        != 0 {
        return Err(policy_error("token parent must be a non-reparse private directory"));
    }
    Ok(())
}

/// Why a file is not a real one.
pub open spec fn file_refusal(metadata: WindowsMetadata) -> Option<Seq<char>> {
    if metadata.kind != WindowsFileKind::RegularFile || metadata.identity.attributes & REPARSE_POINT
        != 0 {
        Some("token path must name a regular non-reparse file"@)
    } else {
        None
    }
}

/// Checks that a file is a real one.
pub fn validate_real_file(metadata: &WindowsMetadata) -> (result: Result<(), IoError>)
    ensures
        match result {
            Ok(()) => file_refusal(*metadata) is None,
            Err(error) => {
                &&& file_refusal(*metadata) is Some
                &&& error.is_found(IoErrorKind::PermissionDenied, file_refusal(*metadata)->0)
            },
        },
{
    if metadata.kind != WindowsFileKind::RegularFile || metadata.identity.attributes & REPARSE_POINT
        != 0 {
        return Err(policy_error("token path must name a regular non-reparse file"));
    }
    Ok(())
}

/// The type of an entry of an access list.
#[derive(Clone, Copy, Debug, PartialEq, Eq, Structural)]
pub enum AceType {
    AccessAllowed,
    AccessAllowedCallback,
    AccessAllowedCallbackObject,
    AccessAllowedObject,
    /// Any other type.
    Other,
}

impl AceType {
    /// Entries of the type allow something, rather than denying or auditing it.
    pub open spec fn allows(self) -> bool {
        self != AceType::Other
    }
}

/// An entry of an access list.
#[derive(Debug, PartialEq, Eq)]
pub struct AccessEntry {
    pub ace_type: AceType,
    /// The entry holds only for what is inside.
    pub inherit_only: bool,
    /// Whom the entry is about.
    pub sid: Option<String>,
    /// The rights that the list as a whole gives to whom the entry is about.
    pub effective_rights: Result<u32, IoError>,
}

/// Who owns a file, and the access list of it; an entry that could not be read is absent.
#[derive(Debug, PartialEq, Eq)]
pub struct SecurityReport {
    pub owner: Option<String>,
    pub dacl: Option<Vec<Option<AccessEntry>>>,
}

/// Somebody who may have access.
pub open spec fn trusted(sid: Seq<char>, user: Seq<char>) -> bool {
    ||| sid == user
    ||| sid == SYSTEM_SID@
    ||| sid == ADMINISTRATORS_SID@
    ||| sid == OWNER_RIGHTS_SID@
}

/// Why something is not trusted.
pub enum TokenFault {
    /// The policy forbids it.
    Policy(Seq<char>),
    /// The system could not tell what the policy asks about.
    System(IoError),
}

/// What is wrong with an entry of an access list, if anything.
pub open spec fn entry_fault(entry: Option<AccessEntry>, user: Seq<char>) -> Option<TokenFault> {
    match entry {
        None => Some(TokenFault::Policy("token DACL changed while it was inspected"@)),
        Some(entry) => if !entry.ace_type.allows() || entry.inherit_only {
            None
        } else {
            match entry.sid {
                None => Some(TokenFault::Policy("token DACL contains an invalid access entry"@)),
                Some(sid) => if trusted(sid@, user) {
                    None
                } else {
                    match entry.effective_rights {
                        Err(error) => Some(TokenFault::System(error)),
                        Ok(rights) => if rights != 0 {
                            Some(
                                TokenFault::Policy(
                                    "token file and parent grant access to an untrusted principal"@,
                                ),
                            )
                        } else {
                            None
                        },
                    }
                },
            }
        },
    }
}

/// An error that says why something is not trusted.
pub open spec fn tells(error: IoError, fault: TokenFault) -> bool {
    match fault {
        TokenFault::Policy(message) => error.is_found(IoErrorKind::PermissionDenied, message),
        TokenFault::System(failure) => error.kind == failure.kind && error.raw_os_error
            == failure.raw_os_error && error.message@ == failure.message@,
    }
}

fn copy_failure(failure: &IoError) -> (error: IoError)
    ensures
        tells(error, TokenFault::System(*failure)),
{
    IoError {
        kind: failure.kind,
        raw_os_error: failure.raw_os_error,
        message: failure.message.as_str().to_owned(),
    }
}

fn check_entry(entry: &Option<AccessEntry>, user: &str) -> (result: Result<(), IoError>)
    ensures
        match result {
            Ok(()) => entry_fault(*entry, user@) is None,
            Err(error) => {
                &&& entry_fault(*entry, user@) is Some
                &&& tells(error, entry_fault(*entry, user@)->0)
            },
        },
{
    let entry = match entry {
        Some(entry) => entry,
        None => {
            return Err(policy_error("token DACL changed while it was inspected"));
        },
    };
    if entry.ace_type == AceType::Other || entry.inherit_only {
        return Ok(());
    }
    let sid = match &entry.sid {
        Some(sid) => sid.as_str(),
        None => {
            return Err(policy_error("token DACL contains an invalid access entry"));
        },
    };
    if same_text(sid, user) || same_text(sid, SYSTEM_SID) || same_text(sid, ADMINISTRATORS_SID)
        || same_text(sid, OWNER_RIGHTS_SID) {
        return Ok(());
    }
    match &entry.effective_rights {
        Err(failure) => Err(copy_failure(failure)),
        Ok(rights) => {
            if *rights != 0 {
                return Err(
                    policy_error("token file and parent grant access to an untrusted principal"),
                );
            }
            Ok(())
        },
    }
}

/// The first entry that something is wrong with.
pub open spec fn first_fault(
    entries: Seq<Option<AccessEntry>>,
    i: int,
    user: Seq<char>,
) -> bool {
    &&& 0 <= i < entries.len()
    &&& entry_fault(entries[i], user) is Some
    &&& forall|j: int| 0 <= j < i ==> entry_fault(#[trigger] entries[j], user) is None
}

/// A file is private: the user owns it, and no entry of its access list is wrong.
pub open spec fn is_private(report: SecurityReport, user: Seq<char>) -> bool {
    &&& report.owner is Some
    &&& report.owner->0@ == user
    &&& report.dacl is Some
    &&& forall|i: int|
        0 <= i < report.dacl->0@.len() ==> entry_fault(#[trigger] report.dacl->0@[i], user) is None
}

/// Why a file is not private: the first reason in order.
pub open spec fn security_fault(report: SecurityReport, user: Seq<char>) -> Option<TokenFault> {
    if report.owner is None || report.owner->0@ != user {
        Some(TokenFault::Policy("token file and parent must be owned by the current user"@))
    } else if report.dacl is None {
        Some(TokenFault::Policy("token file and parent must have a private DACL"@))
    } else if exists|i: int| first_fault(report.dacl->0@, i, user) {
        entry_fault(
            report.dacl->0@[choose|i: int| first_fault(report.dacl->0@, i, user)],
            user,
        )
    } else {
        None
    }
}

/// Checks that a file is private.
pub fn validate_private_security_descriptor(report: &SecurityReport, user: &str) -> (result: Result<
    (),
    IoError,
>)
    ensures
        match result {
            Ok(()) => is_private(*report, user@) && security_fault(*report, user@) is None,
            Err(error) => {
                &&& !is_private(*report, user@)
                &&& security_fault(*report, user@) is Some
                &&& tells(error, security_fault(*report, user@)->0)
            },
        },
{
    let owned = match &report.owner {
        Some(owner) => same_text(owner.as_str(), user),
        None => false,
    };
    if !owned {
        return Err(policy_error("token file and parent must be owned by the current user"));
    }
    match &report.dacl {
        None => Err(policy_error("token file and parent must have a private DACL")),
        Some(entries) => {
            let result = check_entries(entries, user);
            proof {
                if result is Err {
                    let first = choose|i: int| first_fault(entries@, i, user@);
                    assert(first_fault(entries@, first, user@));
                    assert forall|i: int| first_fault(entries@, i, user@) implies i == first by {
                        if i < first {
                            assert(entry_fault(entries@[i], user@) is None);
                        }
                        if first < i {
                            assert(entry_fault(entries@[first], user@) is None);
                        }
                    }
                }
            }
            result
        },
    }
}

fn check_entries(entries: &Vec<Option<AccessEntry>>, user: &str) -> (result: Result<(), IoError>)
    ensures
        match result {
            Ok(()) => forall|i: int|
                0 <= i < entries@.len() ==> entry_fault(#[trigger] entries@[i], user@) is None,
            Err(error) => exists|i: int|
                #[trigger] first_fault(entries@, i, user@) && tells(
                    error,
                    entry_fault(entries@[i], user@)->0,
                ),
        },
{
    let mut index: usize = 0;
    while index < entries.len()
        invariant
            index <= entries@.len(),
            forall|i: int| 0 <= i < index ==> entry_fault(#[trigger] entries@[i], user@) is None,
        decreases entries@.len() - index,
    {
        match check_entry(&entries[index], user) {
            Ok(()) => {},
            Err(error) => {
                proof {
                    assert(first_fault(entries@, index as int, user@));
                }
                return Err(error);
            },
        }
        index += 1;
    }
    Ok(())
}

/// A private file gives nobody else any rights.
pub proof fn law_private_files_exclude_others(
    report: SecurityReport,
    user: Seq<char>,
    entry: AccessEntry,
)
    requires
        is_private(report, user),
        report.dacl->0@.contains(Some(entry)),
        entry.ace_type.allows(),
        !entry.inherit_only,
    ensures
        entry.sid is Some,
        trusted(entry.sid->0@, user) || entry.effective_rights == Ok::<u32, IoError>(0),
{
    let i = choose|i: int| 0 <= i < report.dacl->0@.len() && report.dacl->0@[i] == Some(entry);
    assert(entry_fault(report.dacl->0@[i], user) is None);
}

/// Checks that what was opened is what its path named just before.
pub fn check_unchanged(
    path: &WindowsMetadata,
    opened: &WindowsMetadata,
    message: &'static str,
) -> (result: Result<(), IoError>)
    ensures
        match result {
            Ok(()) => path.identity == opened.identity,
            Err(error) => {
                &&& path.identity != opened.identity
                &&& error.is_found(IoErrorKind::PermissionDenied, message@)
            },
        },
{
    if path.identity != opened.identity {
        return Err(policy_error(message));
    }
    Ok(())
}

/// A directory that is trusted to hold a token file: a real one, which is what its path named.
pub open spec fn directory_trusted(path: WindowsMetadata, opened: WindowsMetadata) -> bool {
    &&& directory_refusal(path) is None
    &&& directory_refusal(opened) is None
    &&& path.identity == opened.identity
}

/// A token file that is trusted: a real one, which is what its path named.
pub open spec fn file_trusted(path: WindowsMetadata, opened: WindowsMetadata) -> bool {
    &&& file_refusal(path) is None
    &&& file_refusal(opened) is None
    &&& path.identity == opened.identity
}

/// Why a path and what was opened by it are not trusted.
pub open spec fn pair_refusal(
    first: Option<Seq<char>>,
    second: Option<Seq<char>>,
    same: bool,
    changed: Seq<char>,
) -> Option<Seq<char>> {
    if first is Some {
        first
    } else if second is Some {
        second
    } else if !same {
        Some(changed)
    } else {
        None
    }
}

/// Checks a directory that was opened.
pub fn open_directory(path: &WindowsMetadata, opened: &WindowsMetadata) -> (result: Result<
    WindowsIdentity,
    IoError,
>)
    ensures
        ({
            let refusal = pair_refusal(
                directory_refusal(*path),
                directory_refusal(*opened),
                path.identity == opened.identity,
                "token parent path changed while it was being opened"@,
            );
            match result {
                Ok(identity) => directory_trusted(*path, *opened) && identity == opened.identity,
                Err(error) => refusal is Some && error.is_found(
                    IoErrorKind::PermissionDenied,
                    refusal->0,
                ),
            }
        }),
{
    validate_real_directory(path)?;
    validate_real_directory(opened)?;
    check_unchanged(path, opened, "token parent path changed while it was being opened")?;
    Ok(opened.identity)
}

/// Checks a token file that was opened.
pub fn open_file(path: &WindowsMetadata, opened: &WindowsMetadata) -> (result: Result<
    WindowsIdentity,
    IoError,
>)
    ensures
        ({
            let refusal = pair_refusal(
                file_refusal(*path),
                file_refusal(*opened),
                path.identity == opened.identity,
                "token path changed while it was being opened"@,
            );
            match result {
                Ok(identity) => file_trusted(*path, *opened) && identity == opened.identity,
                Err(error) => refusal is Some && error.is_found(
                    IoErrorKind::PermissionDenied,
                    refusal->0,
                ),
            }
        }),
{
    validate_real_file(path)?;
    validate_real_file(opened)?;
    check_unchanged(path, opened, "token path changed while it was being opened")?;
    Ok(opened.identity)
}

/// What is known of a path and of what was opened by it.
#[derive(Debug, PartialEq, Eq)]
pub struct OpenedEntry {
    /// What the path names.
    pub path: WindowsMetadata,
    /// What was opened.
    pub opened: WindowsMetadata,
    /// Who has access to what was opened, or why that, or who the user is, cannot be told.
    pub security: Result<SecurityReport, IoError>,
}

/// Why access to what was opened is not trusted.
pub open spec fn access_fault(
    security: Result<SecurityReport, IoError>,
    user: Seq<char>,
) -> Option<TokenFault> {
    match security {
        Ok(report) => security_fault(report, user),
        Err(failure) => Some(TokenFault::System(failure)),
    }
}

fn check_access(security: &Result<SecurityReport, IoError>, user: &str) -> (result: Result<
    (),
    IoError,
>)
    ensures
        match result {
            Ok(()) => {
                &&& access_fault(*security, user@) is None
                &&& security is Ok
                &&& is_private(security->Ok_0, user@)
            },
            Err(error) => {
                &&& access_fault(*security, user@) is Some
                &&& tells(error, access_fault(*security, user@)->0)
            },
        },
{
    match security {
        Ok(report) => validate_private_security_descriptor(report, user),
        Err(failure) => Err(copy_failure(failure)),
    }
}

/// Why a directory that was opened is not trusted to hold a token file.
pub open spec fn directory_fault(entry: OpenedEntry, user: Seq<char>) -> Option<TokenFault> {
    let refusal = pair_refusal(
        directory_refusal(entry.path),
        directory_refusal(entry.opened),
        entry.path.identity == entry.opened.identity,
        "token parent path changed while it was being opened"@,
    );
    if refusal is Some {
        Some(TokenFault::Policy(refusal->0))
    } else {
        access_fault(entry.security, user)
    }
}

/// Checks a directory that was opened, and who has access to it.
pub fn check_directory(entry: &OpenedEntry, user: &str) -> (result: Result<WindowsIdentity, IoError>)
    ensures
        match result {
            Ok(identity) => {
                &&& directory_fault(*entry, user@) is None
                &&& identity == entry.opened.identity
            },
            Err(error) => {
                &&& directory_fault(*entry, user@) is Some
                &&& tells(error, directory_fault(*entry, user@)->0)
            },
        },
{
    let identity = open_directory(&entry.path, &entry.opened)?;
    check_access(&entry.security, user)?;
    Ok(identity)
}

/// Why a token file that was opened is not trusted.
pub open spec fn file_fault(entry: OpenedEntry, user: Seq<char>) -> Option<TokenFault> {
    let refusal = pair_refusal(
        file_refusal(entry.path),
        file_refusal(entry.opened),
        entry.path.identity == entry.opened.identity,
        "token path changed while it was being opened"@,
    );
    if refusal is Some {
        Some(TokenFault::Policy(refusal->0))
    } else {
        access_fault(entry.security, user)
    }
}

/// Checks a token file that was opened, and who has access to it.
pub fn check_file(entry: &OpenedEntry, user: &str) -> (result: Result<WindowsIdentity, IoError>)
    ensures
        match result {
            Ok(identity) => {
                &&& file_fault(*entry, user@) is None
                &&& identity == entry.opened.identity
            },
            Err(error) => {
                &&& file_fault(*entry, user@) is Some
                &&& tells(error, file_fault(*entry, user@)->0)
            },
        },
{
    let identity = open_file(&entry.path, &entry.opened)?;
    check_access(&entry.security, user)?;
    Ok(identity)
}

/// Why a token file in a directory is not trusted: the first reason, with the directory before the
/// file.
pub open spec fn token_fault(
    parent: Option<OpenedEntry>,
    file: OpenedEntry,
    user: Seq<char>,
) -> Option<TokenFault> {
    match parent {
        None => Some(TokenFault::Policy("token file must have a private parent directory"@)),
        Some(parent) => if directory_fault(parent, user) is Some {
            directory_fault(parent, user)
        } else {
            file_fault(file, user)
        },
    }
}

/// Why something that was trusted when it was opened is not any more.
pub open spec fn kept_fault(
    opened_refusal: Option<Seq<char>>,
    security: Result<SecurityReport, IoError>,
    path_refusal: Option<Seq<char>>,
    same: bool,
    changed: Seq<char>,
    user: Seq<char>,
) -> Option<TokenFault> {
    if opened_refusal is Some {
        Some(TokenFault::Policy(opened_refusal->0))
    } else if access_fault(security, user) is Some {
        access_fault(security, user)
    } else if path_refusal is Some {
        Some(TokenFault::Policy(path_refusal->0))
    } else if !same {
        Some(TokenFault::Policy(changed))
    } else {
        None
    }
}

/// A token file that is trusted.
#[derive(Debug, PartialEq, Eq)]
pub struct WindowsTokenFile {
    parent: WindowsIdentity,
    file: WindowsIdentity,
    user: String,
}

/// The mathematical content of a [`WindowsTokenFile`].
#[verifier::ext_equal]
pub struct TrustedFileView {
    pub parent: WindowsIdentity,
    pub file: WindowsIdentity,
    pub user: Seq<char>,
}

impl View for WindowsTokenFile {
    type V = TrustedFileView;

    closed spec fn view(&self) -> TrustedFileView {
        TrustedFileView { parent: self.parent, file: self.file, user: self.user@ }
    }
}

impl TrustedFileView {
    /// Why the directory is no longer the trusted one.
    pub open spec fn parent_fault(self, entry: OpenedEntry) -> Option<TokenFault> {
        kept_fault(
            directory_refusal(entry.opened),
            entry.security,
            directory_refusal(entry.path),
            entry.opened.identity == self.parent && entry.path.identity == self.parent,
            "token parent changed before deletion"@,
            self.user,
        )
    }

    /// Why the file must not be deleted: the first reason, with the directory before the file.
    pub open spec fn deletion_fault(
        self,
        parent: OpenedEntry,
        file: OpenedEntry,
    ) -> Option<TokenFault> {
        if self.parent_fault(parent) is Some {
            self.parent_fault(parent)
        } else {
            kept_fault(
                file_refusal(file.opened),
                file.security,
                file_refusal(file.path),
                file.opened.identity == self.file && file.path.identity == self.file,
                "token path changed before deletion"@,
                self.user,
            )
        }
    }
}

impl WindowsTokenFile {
    /// The token file in a directory, where both are real, are what their paths named, and are
    /// private to the user. A path without a directory is refused.
    pub fn open(parent: Option<&OpenedEntry>, file: &OpenedEntry, user: &str) -> (result: Result<
        WindowsTokenFile,
        IoError,
    >)
        ensures
            ({
                let fault = token_fault(
                    match parent {
                        Some(parent) => Some(*parent),
                        None => None,
                    },
                    *file,
                    user@,
                );
                match result {
                    Ok(trusted) => {
                        &&& fault is None
                        &&& trusted@ == (TrustedFileView {
                            parent: parent->0.opened.identity,
                            file: file.opened.identity,
                            user: user@,
                        })
                    },
                    Err(error) => fault is Some && tells(error, fault->0),
                }
            }),
    {
        let parent = match parent {
            None => {
                return Err(policy_error("token file must have a private parent directory"));
            },
            Some(parent) => check_directory(parent, user)?,
        };
        let file = check_file(file, user)?;
        Ok(WindowsTokenFile { parent, file, user: user.to_owned() })
    }

    /// Checks that the directory is still the trusted one.
    pub fn confirm_parent(&self, entry: &OpenedEntry) -> (result: Result<(), IoError>)
        ensures
            match result {
                Ok(()) => self@.parent_fault(*entry) is None,
                Err(error) => {
                    &&& self@.parent_fault(*entry) is Some
                    &&& tells(error, self@.parent_fault(*entry)->0)
                },
            },
    {
        validate_real_directory(&entry.opened)?;
        check_access(&entry.security, self.user.as_str())?;
        validate_real_directory(&entry.path)?;
        if entry.opened.identity != self.parent || entry.path.identity != self.parent {
            return Err(policy_error("token parent changed before deletion"));
        }
        Ok(())
    }

    /// Checks that the directory and the file are still the trusted ones. Only then may the file be
    /// deleted.
    pub fn confirm_deletion(&self, parent: &OpenedEntry, file: &OpenedEntry) -> (result: Result<
        (),
        IoError,
    >)
        ensures
            match result {
                Ok(()) => self@.deletion_fault(*parent, *file) is None,
                Err(error) => {
                    &&& self@.deletion_fault(*parent, *file) is Some
                    &&& tells(error, self@.deletion_fault(*parent, *file)->0)
                },
            },
    {
        self.confirm_parent(parent)?;
        validate_real_file(&file.opened)?;
        check_access(&file.security, self.user.as_str())?;
        validate_real_file(&file.path)?;
        if file.opened.identity != self.file || file.path.identity != self.file {
            return Err(policy_error("token path changed before deletion"));
        }
        Ok(())
    }
}

/// A report without a fault is that of a private file.
proof fn lemma_faultless_is_private(report: SecurityReport, user: Seq<char>)
    requires
        security_fault(report, user) is None,
    ensures
        is_private(report, user),
{
    let entries = report.dacl->0@;
    if exists|i: int| first_fault(entries, i, user) {
        let i = choose|i: int| first_fault(entries, i, user);
        assert(first_fault(entries, i, user));
    } else {
        assert forall|i: int| 0 <= i < entries.len() implies entry_fault(
            #[trigger] entries[i],
            user,
        ) is None by {
            lemma_no_first_fault(entries, i, user);
        }
    }
}

/// Without a first faulty entry there is no faulty entry.
proof fn lemma_no_first_fault(entries: Seq<Option<AccessEntry>>, i: int, user: Seq<char>)
    requires
        0 <= i < entries.len(),
        !exists|k: int| first_fault(entries, k, user),
    ensures
        entry_fault(entries[i], user) is None,
    decreases i,
{
    assert forall|j: int| 0 <= j < i implies entry_fault(#[trigger] entries[j], user) is None by {
        lemma_no_first_fault(entries, j, user);
    }
    assert(!first_fault(entries, i, user));
}

/// A token file that is trusted and the directory of it are real, are what their paths named, and
/// are private to the user.
pub proof fn law_trusted_token_is_private(
    parent: Option<OpenedEntry>,
    file: OpenedEntry,
    user: Seq<char>,
)
    requires
        token_fault(parent, file, user) is None,
    ensures
        parent is Some,
        directory_trusted(parent->0.path, parent->0.opened),
        parent->0.security is Ok,
        is_private(parent->0.security->Ok_0, user),
        file_trusted(file.path, file.opened),
        file.security is Ok,
        is_private(file.security->Ok_0, user),
{
    lemma_faultless_is_private(parent->0.security->Ok_0, user);
    lemma_faultless_is_private(file.security->Ok_0, user);
}

/// A file that is not the one that was read, or that others were given access to since, is not
/// deleted.
pub proof fn law_changed_token_is_not_deleted(
    trusted: TrustedFileView,
    parent: OpenedEntry,
    file: OpenedEntry,
)
    requires
        file.path.identity != trusted.file || file.opened.identity != trusted.file || (
        file.security is Ok && !is_private(file.security->Ok_0, trusted.user)),
    ensures
        trusted.deletion_fault(parent, file) is Some,
{
    if file.security is Ok && security_fault(file.security->Ok_0, trusted.user) is None {
        lemma_faultless_is_private(file.security->Ok_0, trusted.user);
    }
}

/// Only the user, the system, the administrators and the owner may have access: an entry of an access
/// list is harmless exactly where it can be read and allows nothing here, or names one of them, or
/// gives no rights in effect.
pub proof fn law_only_trusted_principals_have_access(
    entry: Option<AccessEntry>,
    sid: Seq<char>,
    user: Seq<char>,
)
    ensures
        trusted(sid, user) <==> sid == user || sid == "S-1-5-18"@ || sid == "S-1-5-32-544"@ || sid
            == "S-1-3-4"@,
        entry_fault(entry, user) is None <==> entry is Some && {
            let found = entry->0;
            ||| found.ace_type == AceType::Other
            ||| found.inherit_only
            ||| found.sid is Some && trusted(found.sid->0@, user)
            ||| found.sid is Some && found.effective_rights is Ok && found.effective_rights->Ok_0
                == 0
        },
{
}

/// What stands for another file is not a real one, whatever kind it is of.
pub proof fn law_real_paths_stand_for_themselves(metadata: WindowsMetadata)
    ensures
        directory_refusal(metadata) is None <==> metadata.kind == WindowsFileKind::Directory
            && metadata.identity.attributes & 0x400 == 0,
        file_refusal(metadata) is None <==> metadata.kind == WindowsFileKind::RegularFile
            && metadata.identity.attributes & 0x400 == 0,
{
}

/// A report has no fault exactly where it is that of a private file.
proof fn lemma_private_is_faultless(report: SecurityReport, user: Seq<char>)
    requires
        is_private(report, user),
    ensures
        security_fault(report, user) is None,
{
    let entries = report.dacl->0@;
    if exists|i: int| first_fault(entries, i, user) {
        let i = choose|i: int| first_fault(entries, i, user);
        assert(first_fault(entries, i, user));
        assert(entry_fault(entries[i], user) is None);
    }
}

/// A token file is trusted wherever it and its directory are real, are what their paths named, and
/// are private to the user; it may be deleted wherever both still are, and are still the same.
pub proof fn law_private_token_is_trusted(
    parent: OpenedEntry,
    file: OpenedEntry,
    trusted: TrustedFileView,
)
    requires
        directory_trusted(parent.path, parent.opened),
        parent.security is Ok,
        is_private(parent.security->Ok_0, trusted.user),
        file_trusted(file.path, file.opened),
        file.security is Ok,
        is_private(file.security->Ok_0, trusted.user),
    ensures
        token_fault(Some(parent), file, trusted.user) is None,
        trusted.deletion_fault(parent, file) is None <==> parent.opened.identity == trusted.parent
            && file.opened.identity == trusted.file,
{
    lemma_private_is_faultless(parent.security->Ok_0, trusted.user);
    lemma_private_is_faultless(file.security->Ok_0, trusted.user);
}

/// A file may be deleted exactly where the directory and the file, both as opened and as found under
/// their paths, are what they should be, give access to the user alone and are the trusted ones.
pub proof fn law_unchanged_token_is_deleted(
    trusted: TrustedFileView,
    parent: OpenedEntry,
    file: OpenedEntry,
)
    ensures
        trusted.deletion_fault(parent, file) is None <==> {
            &&& directory_refusal(parent.opened) is None
            &&& directory_refusal(parent.path) is None
            &&& file_refusal(file.opened) is None
            &&& file_refusal(file.path) is None
            &&& access_fault(parent.security, trusted.user) is None
            &&& access_fault(file.security, trusted.user) is None
            &&& parent.opened.identity == trusted.parent
            &&& parent.path.identity == trusted.parent
            &&& file.opened.identity == trusted.file
            &&& file.path.identity == trusted.file
        },
        trusted.parent_fault(parent) is Some ==> trusted.deletion_fault(parent, file)
            == trusted.parent_fault(parent),
{
}

} // verus!
