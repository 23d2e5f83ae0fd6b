//! Decisions around the operating system's named shared memory.

use vstd::prelude::*;
use vstd::string::*;

use crate::error::{IoError, IoErrorKind};
use crate::shared_memory::mapping;
use crate::shared_memory::mapping::digest;
use crate::text;
use crate::text::{push_byte_hex, same_text};

verus! {

/// An ASCII hexadecimal digit.
pub open spec fn is_hex_digit(c: char) -> bool {
    ||| '0' <= c <= '9'
    ||| 'a' <= c <= 'f'
    ||| 'A' <= c <= 'F'
}

/// The name of a private mapping: the prefix and eighteen hexadecimal digits.
pub open spec fn valid_mapping_name(name: Seq<char>) -> bool {
    &&& name.len() == 29
    &&& name.take(11) == "/robot-hal-"@
    &&& forall|i: int| 11 <= i < 29 ==> is_hex_digit(#[trigger] name[i])
}

/// The failure of a name that no private mapping has.
pub open spec fn is_invalid_name(error: IoError) -> bool {
    error.is_found(IoErrorKind::InvalidInput, "invalid private shared-memory mapping name"@)
}

/// Checks the name of a private mapping.
pub fn validate_mapping_name(name: &str) -> (result: Result<(), IoError>)
    ensures
        match result {
            Ok(()) => valid_mapping_name(name@),
            Err(error) => !valid_mapping_name(name@) && is_invalid_name(error),
        },
{
    proof {
        reveal_strlit("/robot-hal-");
    }
    let prefix = "/robot-hal-";
    if name.unicode_len() != 29 {
        return Err(
            IoError::new(IoErrorKind::InvalidInput, "invalid private shared-memory mapping name"),
        );
    }
    if !same_text(name.substring_char(0, 11), prefix) {
        proof {
            assert(name@.take(11) =~= name@.subrange(0, 11));
        }
        return Err(
            IoError::new(IoErrorKind::InvalidInput, "invalid private shared-memory mapping name"),
        );
    }
    let mut index: usize = 11;
    while index < 29
        invariant
            11 <= index <= 29,
            name@.len() == 29,
            forall|i: int| 11 <= i < index ==> is_hex_digit(#[trigger] name@[i]),
        decreases 29 - index,
    {
        let c = name.get_char(index);
        let digit = ('0' <= c && c <= '9') || ('a' <= c && c <= 'f') || ('A' <= c && c <= 'F');
        if !digit {
            return Err(
                IoError::new(
                    IoErrorKind::InvalidInput,
                    "invalid private shared-memory mapping name",
                ),
            );
        }
        index += 1;
    }
    proof {
        assert(name@.take(11) =~= name@.subrange(0, 11));
    }
    Ok(())
}

/// The path of the lock file of a mapping.
pub open spec fn lock_path_of(name: Seq<char>) -> Seq<char> {
    "/tmp/"@ + name.skip(1) + ".lock"@
}

/// The path of the lock file of a mapping.
pub fn lock_path(name: &str) -> (result: Result<String, IoError>)
    ensures
        match result {
            Ok(path) => valid_mapping_name(name@) && path@ == lock_path_of(name@),
            Err(error) => !valid_mapping_name(name@) && is_invalid_name(error),
        },
{
    validate_mapping_name(name)?;
    let mut path = "/tmp/".to_owned();
    path.append(name.substring_char(1, name.unicode_len()));
    path.append(".lock");
    proof {
        assert(name@.skip(1) =~= name@.subrange(1, name@.len() as int));
    }
    Ok(path)
}

/// The name of the lock object of a mapping, which does not show the mapping's name.
pub open spec fn lock_name_of(name: Seq<char>) -> Seq<char> {
    "Local\\robot-hal-lock-"@ + text::byte_hex_digits(
        mapping::sha256(vstd::utf8::encode_utf8(name)).take(16),
    )
}

/// The name of the lock object of a mapping, which does not show the mapping's name.
pub fn lock_name(name: &str) -> (result: Result<String, IoError>)
    ensures
        match result {
            Ok(lock) => valid_mapping_name(name@) && lock@ == lock_name_of(name@),
            Err(error) => !valid_mapping_name(name@) && is_invalid_name(error),
        },
{
    validate_mapping_name(name)?;
    let hash = digest(name.as_bytes());
    let mut lock = "Local\\robot-hal-lock-".to_owned();
    let half = &hash.as_slice()[0..16];
    push_byte_hex(&mut lock, half);
    proof {
        assert(half@ =~= hash@.take(16));
    }
    Ok(lock)
}

/// Checks that a name can be handed to the operating system.
pub fn check_interior_nul(name: &str) -> (result: Result<(), IoError>)
    ensures
        match result {
            Ok(()) => !name@.contains('\0'),
            Err(error) => {
                &&& name@.contains('\0')
                &&& error.is_found(
                    IoErrorKind::InvalidInput,
                    "shared-memory name contains an interior NUL"@,
                )
            },
        },
{
    let length: usize = name.unicode_len();
    let mut index: usize = 0;
    while index < length
        invariant
            index <= length,
            length == name@.len(),
            forall|i: int| 0 <= i < index ==> #[trigger] name@[i] != '\0',
        decreases length - index,
    {
        if name.get_char(index) == '\0' {
            proof {
                assert(name@[index as int] == '\0');
            }
            return Err(
                IoError::new(
                    IoErrorKind::InvalidInput,
                    "shared-memory name contains an interior NUL",
                ),
            );
        }
        index += 1;
    }
    Ok(())
}

/// What `fstat` tells about a file.
#[derive(Clone, Copy, Debug, PartialEq, Eq, Structural)]
pub struct FileFacts {
    pub regular: bool,
    pub owner: u32,
    pub mode: u32,
    pub links: u64,
    pub size: i64,
}

/// The permission bits of a mode.
pub open spec fn permissions(mode: u32) -> u32 {
    mode & 0o777
}

/// Checks that a new shared-memory object belongs to the user and is private.
pub fn verify_object(facts: FileFacts, user: u32) -> (result: Result<(), IoError>)
    ensures
        match result {
            Ok(()) => facts.owner == user && permissions(facts.mode) == 0o600,
            Err(error) => {
                &&& facts.owner != user || permissions(facts.mode) != 0o600
                &&& error.is_found(
                    IoErrorKind::PermissionDenied,
                    "shared-memory object ownership or mode verification failed"@,
                )
            },
        },
{
    if facts.owner != user || facts.mode & 0o777 != 0o600 {
        return Err(
            IoError::new(
                IoErrorKind::PermissionDenied,
                "shared-memory object ownership or mode verification failed",
            ),
        );
    }
    Ok(())
}

/// Checks that a lock file is a private regular file of the user with one name.
pub fn verify_private_lock_file(facts: FileFacts, user: u32) -> (result: Result<(), IoError>)
    ensures
        ({
            let private = facts.regular && facts.owner == user && permissions(facts.mode) == 0o600
                && facts.links == 1;
            match result {
                Ok(()) => private,
                Err(error) => {
                    &&& !private
                    &&& error.is_found(
                        IoErrorKind::PermissionDenied,
                        "lock file ownership, mode, or type verification failed"@,
                    )
                },
            }
        }),
{
    if !facts.regular || facts.owner != user || facts.mode & 0o777 != 0o600 || facts.links != 1 {
        return Err(
            IoError::new(
                IoErrorKind::PermissionDenied,
                "lock file ownership, mode, or type verification failed",
            ),
        );
    }
    Ok(())
}

/// Checks that a shared-memory object is as long as its descriptor says.
pub fn verify_object_length(facts: FileFacts, length: usize) -> (result: Result<(), IoError>)
    ensures
        match result {
            Ok(()) => length <= facts.size,
            Err(error) => {
                &&& facts.size < length
                &&& error.is_found(
                    IoErrorKind::InvalidData,
                    "shared-memory object length does not match descriptor"@,
                )
            },
        },
{
    if facts.size < 0 || (facts.size as u64) < length as u64 {
        return Err(
            IoError::new(
                IoErrorKind::InvalidData,
                "shared-memory object length does not match descriptor",
            ),
        );
    }
    Ok(())
}

/// A step of creating or opening a named mapping, in order.
#[derive(Clone, Copy, Debug, PartialEq, Eq, Structural)]
pub enum MappingStage {
    /// Open the object by its name; a new one must not exist yet.
    Open,
    /// Make the object private. Only for a new object.
    Protect,
    /// Read the facts about the object.
    Inspect,
    /// Set the length of the object. Only for a new object.
    Resize,
    /// Map the object.
    MapView,
    /// Make or open the lock file.
    Lock,
}

/// What a step gave.
#[derive(Clone, Debug, PartialEq, Eq)]
pub enum StageOutcome {
    Done,
    Facts(FileFacts),
    Failed(IoError),
}

/// What is held while a mapping is being made.
#[derive(Clone, Copy, Debug, PartialEq, Eq, Structural)]
pub struct Held {
    /// The mapped range.
    pub address: bool,
    /// The descriptor of the object.
    pub object: bool,
    /// The name of the object, where this process has made it.
    pub name: bool,
}

/// What to do next.
#[derive(Clone, Debug, PartialEq, Eq)]
pub enum MappingAction {
    /// Perform the step.
    Perform(MappingStage),
    /// The mapping is complete.
    Complete,
    /// Give back what is held, in the order of its fields, and report the error.
    Abandon(Held, IoError),
}

/// How a mapping is made: as a new object or from an existing one.
#[derive(Clone, Copy, Debug, PartialEq, Eq, Structural)]
pub enum MappingPurpose {
    /// A new object of the user; `mode_is_fixed` on systems that refuse to change its mode.
    Create { mode_is_fixed: bool },
    /// An existing object, for reading.
    Open,
}

/// What is held when a step is about to be performed.
pub open spec fn held_before(purpose: MappingPurpose, stage: MappingStage) -> Held {
    Held {
        address: stage == MappingStage::Lock,
        object: stage != MappingStage::Open,
        name: stage != MappingStage::Open && purpose is Create,
    }
}

/// The step after one that succeeded.
pub open spec fn stage_after(purpose: MappingPurpose, stage: MappingStage) -> Option<
    MappingStage,
> {
    match stage {
        MappingStage::Open => if purpose is Create {
            Some(MappingStage::Protect)
        } else {
            Some(MappingStage::Inspect)
        },
        MappingStage::Protect => Some(MappingStage::Inspect),
        MappingStage::Inspect => if purpose is Create {
            Some(MappingStage::Resize)
        } else {
            Some(MappingStage::MapView)
        },
        MappingStage::Resize => Some(MappingStage::MapView),
        MappingStage::MapView => Some(MappingStage::Lock),
        MappingStage::Lock => None,
    }
}

/// Whether the outcome of a step lets the next one follow.
pub open spec fn stage_succeeds(
    purpose: MappingPurpose,
    stage: MappingStage,
    outcome: StageOutcome,
    user: u32,
    length: usize,
) -> bool {
    match outcome {
        StageOutcome::Done => stage != MappingStage::Inspect,
        StageOutcome::Facts(facts) => {
            &&& stage == MappingStage::Inspect
            &&& match purpose {
                MappingPurpose::Create { mode_is_fixed } => facts.owner == user && permissions(
                    facts.mode,
                ) == 0o600,
                MappingPurpose::Open => length <= facts.size,
            }
        },
        StageOutcome::Failed(error) => {
            &&& stage == MappingStage::Protect
            &&& purpose == (MappingPurpose::Create { mode_is_fixed: true })
        },
    }
}

fn held(purpose: MappingPurpose, stage: MappingStage) -> (held: Held)
    ensures
        held == held_before(purpose, stage),
{
    let opened = stage != MappingStage::Open;
    Held {
        address: stage == MappingStage::Lock,
        object: opened,
        name: opened && match purpose {
            MappingPurpose::Create { .. } => true,
            MappingPurpose::Open => false,
        },
    }
}

fn follow(purpose: MappingPurpose, stage: MappingStage) -> (action: MappingAction)
    ensures
        match stage_after(purpose, stage) {
            Some(next) => action == MappingAction::Perform(next),
            None => action is Complete,
        },
{
    let create = match purpose {
        MappingPurpose::Create { .. } => true,
        MappingPurpose::Open => false,
    };
    match stage {
        MappingStage::Open => if create {
            MappingAction::Perform(MappingStage::Protect)
        } else {
            MappingAction::Perform(MappingStage::Inspect)
        },
        MappingStage::Protect => MappingAction::Perform(MappingStage::Inspect),
        MappingStage::Inspect => if create {
            MappingAction::Perform(MappingStage::Resize)
        } else {
            MappingAction::Perform(MappingStage::MapView)
        },
        MappingStage::Resize => MappingAction::Perform(MappingStage::MapView),
        MappingStage::MapView => MappingAction::Perform(MappingStage::Lock),
        MappingStage::Lock => MappingAction::Complete,
    }
}

/// Decides what follows a step: the next one, the end, or giving back everything that is held.
pub fn advance_mapping(
    purpose: MappingPurpose,
    stage: MappingStage,
    outcome: StageOutcome,
    user: u32,
    length: usize,
) -> (action: MappingAction)
    requires
        outcome is Facts ==> stage == MappingStage::Inspect,
        outcome is Done ==> stage != MappingStage::Inspect,
    ensures
        if stage_succeeds(purpose, stage, outcome, user, length) {
            match stage_after(purpose, stage) {
                Some(next) => action == MappingAction::Perform(next),
                None => action is Complete,
            }
        } else {
            &&& action is Abandon
            &&& action->Abandon_0 == held_before(purpose, stage)
            &&& match outcome {
                StageOutcome::Failed(error) => action->Abandon_1 == error,
                _ => match purpose {
                    MappingPurpose::Create { mode_is_fixed } => action->Abandon_1.is_found(
                        IoErrorKind::PermissionDenied,
                        "shared-memory object ownership or mode verification failed"@,
                    ),
                    MappingPurpose::Open => action->Abandon_1.is_found(
                        IoErrorKind::InvalidData,
                        "shared-memory object length does not match descriptor"@,
                    ),
                },
            }
        },
{
    match outcome {
        StageOutcome::Done => follow(purpose, stage),
        StageOutcome::Facts(facts) => {
            let checked = match purpose {
                MappingPurpose::Create { .. } => verify_object(facts, user),
                MappingPurpose::Open => verify_object_length(facts, length),
            };
            match checked {
                Ok(()) => follow(purpose, stage),
                Err(error) => MappingAction::Abandon(held(purpose, stage), error),
            }
        },
        StageOutcome::Failed(error) => {
            let ignored = match purpose {
                MappingPurpose::Create { mode_is_fixed } => mode_is_fixed && stage
                    == MappingStage::Protect,
                MappingPurpose::Open => false,
            };
            if ignored {
                follow(purpose, stage)
            } else {
                MappingAction::Abandon(held(purpose, stage), error)
            }
        },
    }
}

/// The result of removing a mapping's name and its lock file: what is already gone is no failure,
/// and the failure of the name comes first.
pub fn unlink_result(
    name: &str,
    object: Result<(), IoError>,
    lock: Result<(), IoError>,
) -> (result: Result<(), IoError>)
    ensures
        if object is Err && object->Err_0.kind != IoErrorKind::NotFound {
            result == object
        } else if !valid_mapping_name(name@) {
            result is Err && is_invalid_name(result->Err_0)
        } else if lock is Err && lock->Err_0.kind != IoErrorKind::NotFound {
            result == lock
        } else {
            result is Ok
        },
{
    if let Err(error) = object {
        if error.kind != IoErrorKind::NotFound {
            return Err(error);
        }
    }
    validate_mapping_name(name)?;
    if let Err(error) = lock {
        if error.kind != IoErrorKind::NotFound {
            return Err(error);
        }
    }
    Ok(())
}

/// The failure of a section whose length is not that of its descriptor.
pub open spec fn is_invalid_section_length(error: IoError) -> bool {
    error.is_found(
        IoErrorKind::InvalidData,
        "shared-memory section length does not match descriptor"@,
    )
}

/// The failure of a section whose length is not that of its descriptor.
pub fn invalid_section_length() -> (error: IoError)
    ensures
        is_invalid_section_length(error),
{
    IoError::new(
        IoErrorKind::InvalidData,
        "shared-memory section length does not match descriptor",
    )
}

/// Splits the length of a section in its high and its low half.
pub fn split_section_length(length: usize) -> (result: Result<(u32, u32), IoError>)
    ensures
        match result {
            Ok((high, low)) => length > 0 && high * 0x1_0000_0000 + low == length,
            Err(error) => {
                &&& length == 0
                &&& error.is_found(
                    IoErrorKind::InvalidInput,
                    "shared-memory section length must be non-zero"@,
                )
            },
        },
{
    if length == 0 {
        return Err(
            IoError::new(
                IoErrorKind::InvalidInput,
                "shared-memory section length must be non-zero",
            ),
        );
    }
    let wide: u64 = length as u64;
    Ok(((wide / 0x1_0000_0000) as u32, (wide % 0x1_0000_0000) as u32))
}

/// Checks that a section is long enough; a failed query stays what it is.
pub fn validate_section_length(
    section_length: Result<usize, IoError>,
    requested: usize,
) -> (result: Result<(), IoError>)
    ensures
        match section_length {
            Ok(actual) => if actual >= requested {
                result is Ok
            } else {
                result is Err && is_invalid_section_length(result->Err_0)
            },
            Err(error) => result == Err::<(), IoError>(error),
        },
{
    match section_length {
        Ok(actual) => if actual >= requested {
            Ok(())
        } else {
            Err(invalid_section_length())
        },
        Err(error) => Err(error),
    }
}

/// The status of a refused query of a section.
pub const STATUS_ACCESS_DENIED: i32 = -1073741790;

/// The failure that a status of a section query stands for.
pub open spec fn is_query_failure(error: IoError, status: i32) -> bool {
    if status == STATUS_ACCESS_DENIED {
        error.is_found(
            IoErrorKind::PermissionDenied,
            "shared-memory section metadata query was denied"@,
        )
    } else {
        error.is_found(IoErrorKind::Other, "shared-memory section metadata query failed"@)
    }
}

/// The failure that a status of a section query stands for.
pub fn section_query_error(status: i32) -> (error: IoError)
    ensures
        is_query_failure(error, status),
{
    if status == STATUS_ACCESS_DENIED {
        IoError::new(
            IoErrorKind::PermissionDenied,
            "shared-memory section metadata query was denied",
        )
    } else {
        IoError::new(IoErrorKind::Other, "shared-memory section metadata query failed")
    }
}

/// The length of a section, from the status of the query and the size that it gave.
pub fn section_length(status: i32, maximum_size: i64) -> (result: Result<usize, IoError>)
    ensures
        match result {
            Ok(length) => status >= 0 && 0 < maximum_size && length == maximum_size,
            Err(error) => if status < 0 {
                is_query_failure(error, status)
            } else {
                &&& maximum_size <= 0 || maximum_size > usize::MAX
                &&& is_invalid_section_length(error)
            },
        },
{
    if status < 0 {
        return Err(section_query_error(status));
    }
    if maximum_size <= 0 {
        return Err(invalid_section_length());
    }
    let size: u64 = maximum_size as u64;
    if size > usize::MAX as u64 {
        return Err(invalid_section_length());
    }
    Ok(size as usize)
}

/// A step of creating or opening a named section and its mutex, in order.
#[derive(Clone, Copy, Debug, PartialEq, Eq, Structural)]
pub enum SectionStage {
    /// Make the security attributes. Only for a new section.
    Protect,
    /// Create or open the section.
    Section,
    /// Ask for the length of the section. Only for an existing section.
    Query,
    /// Create or open the mutex.
    Mutex,
    /// Map the section.
    View,
}

/// How a section is reached: as a new one or as an existing one, for reading.
#[derive(Clone, Copy, Debug, PartialEq, Eq, Structural)]
pub enum SectionPurpose {
    Create,
    Open,
}

/// What a step gave.
#[derive(Clone, Debug, PartialEq, Eq)]
pub enum SectionOutcome {
    /// The step was performed.
    Done,
    /// A handle of an object that already existed was given in place of a new one.
    Existing,
    /// The status of the query, and the size that it gave.
    Queried { status: i32, maximum_size: i64 },
    /// The step failed, and gave nothing.
    Failed(IoError),
}

/// The handles that are held while a section is being mapped.
#[derive(Clone, Copy, Debug, PartialEq, Eq, Structural)]
pub struct HeldHandles {
    pub lock: bool,
    pub section: bool,
}

/// What to do next.
#[derive(Clone, Debug, PartialEq, Eq)]
pub enum SectionAction {
    /// Perform the step.
    Perform(SectionStage),
    /// The mapping is complete; it owns both handles.
    Complete,
    /// Close what is held, in the order of its fields, and report the error.
    Abandon(HeldHandles, IoError),
}

/// The steps that can have an outcome.
pub open spec fn can_give(
    purpose: SectionPurpose,
    stage: SectionStage,
    outcome: SectionOutcome,
) -> bool {
    &&& stage == SectionStage::Protect ==> purpose == SectionPurpose::Create
    &&& stage == SectionStage::Query ==> purpose == SectionPurpose::Open
    &&& match outcome {
        SectionOutcome::Done => stage != SectionStage::Query,
        SectionOutcome::Existing => purpose == SectionPurpose::Create && (stage
            == SectionStage::Section || stage == SectionStage::Mutex),
        SectionOutcome::Queried { status, maximum_size } => stage == SectionStage::Query,
        SectionOutcome::Failed(error) => stage != SectionStage::Query,
    }
}

/// The length that a query gives, if it gives one.
pub open spec fn queried_length(status: i32, maximum_size: i64) -> Option<int> {
    if status >= 0 && 0 < maximum_size <= usize::MAX {
        Some(maximum_size as int)
    } else {
        None
    }
}

/// Whether the outcome of a step lets the next one follow.
pub open spec fn section_succeeds(
    stage: SectionStage,
    outcome: SectionOutcome,
    length: usize,
) -> bool {
    match outcome {
        SectionOutcome::Done => stage == SectionStage::Protect ==> length > 0,
        SectionOutcome::Existing => false,
        SectionOutcome::Queried { status, maximum_size } => match queried_length(
            status,
            maximum_size,
        ) {
            Some(actual) => actual >= length,
            None => false,
        },
        SectionOutcome::Failed(error) => false,
    }
}

/// The step after one that succeeded.
pub open spec fn section_stage_after(purpose: SectionPurpose, stage: SectionStage) -> Option<
    SectionStage,
> {
    match stage {
        SectionStage::Protect => Some(SectionStage::Section),
        SectionStage::Section => match purpose {
            SectionPurpose::Create => Some(SectionStage::Mutex),
            SectionPurpose::Open => Some(SectionStage::Query),
        },
        SectionStage::Query => Some(SectionStage::Mutex),
        SectionStage::Mutex => Some(SectionStage::View),
        SectionStage::View => None,
    }
}

/// What is held once a step did not succeed: what earlier steps gave, and the handle of an object
/// that already existed.
pub open spec fn handles_after(stage: SectionStage, outcome: SectionOutcome) -> HeldHandles {
    HeldHandles {
        lock: stage == SectionStage::View || (stage == SectionStage::Mutex && outcome is Existing),
        section: stage == SectionStage::Query || stage == SectionStage::Mutex || stage
            == SectionStage::View || (stage == SectionStage::Section && outcome is Existing),
    }
}

/// The error of a step that did not succeed.
pub open spec fn is_section_failure(error: IoError, outcome: SectionOutcome) -> bool {
    match outcome {
        SectionOutcome::Done => error.is_found(
            IoErrorKind::InvalidInput,
            "shared-memory section length must be non-zero"@,
        ),
        SectionOutcome::Existing => error.is_found(
            IoErrorKind::AlreadyExists,
            "named shared mapping already exists"@,
        ),
        SectionOutcome::Queried { status, maximum_size } => if status < 0 {
            is_query_failure(error, status)
        } else {
            is_invalid_section_length(error)
        },
        SectionOutcome::Failed(failure) => error == failure,
    }
}

/// Decides how mapping a section begins. Nothing is held yet.
pub fn begin_section(purpose: SectionPurpose, name: &str, length: usize) -> (action: SectionAction)
    ensures
        match purpose {
            SectionPurpose::Create => if valid_mapping_name(name@) {
                action == SectionAction::Perform(SectionStage::Protect)
            } else {
                &&& action is Abandon
                &&& action->Abandon_0 == (HeldHandles { lock: false, section: false })
                &&& is_invalid_name(action->Abandon_1)
            },
            SectionPurpose::Open => if length > 0 && valid_mapping_name(name@) {
                action == SectionAction::Perform(SectionStage::Section)
            } else {
                &&& action is Abandon
                &&& action->Abandon_0 == (HeldHandles { lock: false, section: false })
                &&& if length == 0 {
                    is_invalid_section_length(action->Abandon_1)
                } else {
                    is_invalid_name(action->Abandon_1)
                }
            },
        },
{
    let nothing = HeldHandles { lock: false, section: false };
    let first = match purpose {
        SectionPurpose::Create => SectionStage::Protect,
        SectionPurpose::Open => {
            if length == 0 {
                return SectionAction::Abandon(nothing, invalid_section_length());
            }
            SectionStage::Section
        },
    };
    match validate_mapping_name(name) {
        Ok(()) => SectionAction::Perform(first),
        Err(error) => SectionAction::Abandon(nothing, error),
    }
}

fn follow_section(purpose: SectionPurpose, stage: SectionStage) -> (action: SectionAction)
    ensures
        match section_stage_after(purpose, stage) {
            Some(next) => action == SectionAction::Perform(next),
            None => action is Complete,
        },
{
    match stage {
        SectionStage::Protect => SectionAction::Perform(SectionStage::Section),
        SectionStage::Section => match purpose {
            SectionPurpose::Create => SectionAction::Perform(SectionStage::Mutex),
            SectionPurpose::Open => SectionAction::Perform(SectionStage::Query),
        },
        SectionStage::Query => SectionAction::Perform(SectionStage::Mutex),
        SectionStage::Mutex => SectionAction::Perform(SectionStage::View),
        SectionStage::View => SectionAction::Complete,
    }
}

/// Decides what follows a step: the next one, the end, or closing everything that is held.
pub fn advance_section(
    purpose: SectionPurpose,
    stage: SectionStage,
    outcome: SectionOutcome,
    length: usize,
) -> (action: SectionAction)
    requires
        can_give(purpose, stage, outcome),
    ensures
        if section_succeeds(stage, outcome, length) {
            match section_stage_after(purpose, stage) {
                Some(next) => action == SectionAction::Perform(next),
                None => action is Complete,
            }
        } else {
            &&& action is Abandon
            &&& action->Abandon_0 == handles_after(stage, outcome)
            &&& is_section_failure(action->Abandon_1, outcome)
        },
{
    let held = HeldHandles {
        lock: stage == SectionStage::View,
        section: stage == SectionStage::Query || stage == SectionStage::Mutex || stage
            == SectionStage::View,
    };
    match outcome {
        SectionOutcome::Done => {
            if stage == SectionStage::Protect {
                if let Err(error) = split_section_length(length) {
                    return SectionAction::Abandon(held, error);
                }
            }
            follow_section(purpose, stage)
        },
        SectionOutcome::Existing => SectionAction::Abandon(
            HeldHandles { lock: stage == SectionStage::Mutex, section: true },
            IoError::new(IoErrorKind::AlreadyExists, "named shared mapping already exists"),
        ),
        SectionOutcome::Queried { status, maximum_size } => {
            match validate_section_length(section_length(status, maximum_size), length) {
                Ok(()) => follow_section(purpose, stage),
                Err(error) => SectionAction::Abandon(held, error),
            }
        },
        SectionOutcome::Failed(error) => SectionAction::Abandon(held, error),
    }
}

/// What waiting for a mutex gave.
#[derive(Clone, Debug, PartialEq, Eq)]
pub enum WaitStatus {
    /// The mutex is owned.
    Object,
    /// The mutex is owned, and its last owner has gone without releasing it.
    Abandoned,
    /// Another thread owns the mutex.
    Timeout,
    /// The wait failed.
    Failed(IoError),
}

/// What to do after waiting for a mutex.
#[derive(Clone, Debug, PartialEq, Eq)]
pub enum LockAction {
    /// Go on as the owner.
    Proceed,
    /// Give the ownership back, then report the error.
    ReleaseThenFail(IoError),
    /// Report the error.
    Fail(IoError),
}

/// Decides on the lock of a frame operation: an abandoned mutex is given back and refused.
pub fn try_lock(status: WaitStatus) -> (action: LockAction)
    ensures
        match status {
            WaitStatus::Object => action is Proceed,
            WaitStatus::Timeout => action is Fail && action->Fail_0.is_found(
                IoErrorKind::WouldBlock,
                "operation would block"@,
            ),
            WaitStatus::Abandoned => action is ReleaseThenFail
                && action->ReleaseThenFail_0.is_found(
                IoErrorKind::Other,
                "shared-memory mutex was abandoned"@,
            ),
            WaitStatus::Failed(error) => action == LockAction::Fail(error),
        },
{
    match status {
        WaitStatus::Object => LockAction::Proceed,
        WaitStatus::Timeout => LockAction::Fail(
            IoError::new(IoErrorKind::WouldBlock, "operation would block"),
        ),
        WaitStatus::Abandoned => LockAction::ReleaseThenFail(
            IoError::new(IoErrorKind::Other, "shared-memory mutex was abandoned"),
        ),
        WaitStatus::Failed(error) => LockAction::Fail(error),
    }
}

/// Decides on the lock of the teardown, which keeps the ownership of an abandoned mutex: the
/// caller then only marks the mapping closed and releases it.
pub fn try_lock_for_teardown(status: WaitStatus) -> (action: LockAction)
    ensures
        match status {
            WaitStatus::Object | WaitStatus::Abandoned => action is Proceed,
            WaitStatus::Timeout => action is Fail && action->Fail_0.is_found(
                IoErrorKind::WouldBlock,
                "operation would block"@,
            ),
            WaitStatus::Failed(error) => action == LockAction::Fail(error),
        },
{
    match status {
        WaitStatus::Object => LockAction::Proceed,
        WaitStatus::Abandoned => LockAction::Proceed,
        WaitStatus::Timeout => LockAction::Fail(
            IoError::new(IoErrorKind::WouldBlock, "operation would block"),
        ),
        WaitStatus::Failed(error) => LockAction::Fail(error),
    }
}

/// A name made of nine random bytes is the name of a private mapping.
pub proof fn law_generated_names_are_valid(bytes: Seq<u8>)
    requires
        bytes.len() == 9,
    ensures
        valid_mapping_name(mapping::mapping_name_of(bytes)),
{
    reveal_strlit("/robot-hal-");
    lemma_byte_hex(bytes);
    let name = mapping::mapping_name_of(bytes);
    assert(name.take(11) =~= "/robot-hal-"@);
    assert forall|i: int| 11 <= i < 29 implies is_hex_digit(#[trigger] name[i]) by {
        assert(name[i] == text::byte_hex_digits(bytes)[i - 11]);
    }
}

/// The digits of bytes are two hexadecimal digits for each.
pub proof fn lemma_byte_hex(bytes: Seq<u8>)
    ensures
        text::byte_hex_digits(bytes).len() == 2 * bytes.len(),
        forall|i: int|
            0 <= i < 2 * bytes.len() ==> is_hex_digit(#[trigger] text::byte_hex_digits(bytes)[i]),
    decreases bytes.len(),
{
    if bytes.len() > 0 {
        lemma_byte_hex(bytes.drop_last());
        reveal_with_fuel(text::lower_hex_digits, 3);
        let last = text::lower_hex_digits(bytes.last() as nat, 2);
        assert(last.len() == 2);
        assert(is_hex_digit(last[0]) && is_hex_digit(last[1]));
        assert forall|i: int| 0 <= i < 2 * bytes.len() implies is_hex_digit(
            #[trigger] text::byte_hex_digits(bytes)[i],
        ) by {
            let before = text::byte_hex_digits(bytes.drop_last());
            if i < before.len() {
                assert(text::byte_hex_digits(bytes)[i] == before[i]);
            } else {
                assert(text::byte_hex_digits(bytes)[i] == last[i - before.len()]);
            }
        }
    }
}

/// A new object is made private, inspected and sized before it is mapped, and an existing one is
/// inspected before it is mapped; the lock comes last.
pub proof fn law_objects_are_inspected_before_they_are_mapped(mode_is_fixed: bool)
    ensures
        ({
            let create = MappingPurpose::Create { mode_is_fixed };
            &&& stage_after(create, MappingStage::Open) == Some(MappingStage::Protect)
            &&& stage_after(create, MappingStage::Protect) == Some(MappingStage::Inspect)
            &&& stage_after(create, MappingStage::Inspect) == Some(MappingStage::Resize)
            &&& stage_after(create, MappingStage::Resize) == Some(MappingStage::MapView)
            &&& stage_after(create, MappingStage::MapView) == Some(MappingStage::Lock)
            &&& stage_after(create, MappingStage::Lock) is None
        }),
        stage_after(MappingPurpose::Open, MappingStage::Open) == Some(MappingStage::Inspect),
        stage_after(MappingPurpose::Open, MappingStage::Inspect) == Some(MappingStage::MapView),
        stage_after(MappingPurpose::Open, MappingStage::MapView) == Some(MappingStage::Lock),
        stage_after(MappingPurpose::Open, MappingStage::Lock) is None,
{
}

/// A step lets the next one follow only where it was performed: a new object belongs to the user and
/// is private, an existing one is long enough, and the one failure that does not matter is that of
/// making an object private whose mode cannot be changed.
pub proof fn law_unsafe_objects_are_not_mapped(
    purpose: MappingPurpose,
    stage: MappingStage,
    outcome: StageOutcome,
    user: u32,
    length: usize,
)
    ensures
        stage_succeeds(purpose, stage, outcome, user, length) && stage == MappingStage::Inspect
            ==> {
            &&& outcome is Facts
            &&& purpose is Create ==> outcome->Facts_0.owner == user && outcome->Facts_0.mode
                & 0o777 == 0o600
            &&& purpose is Open ==> outcome->Facts_0.size >= length
        },
        outcome is Facts && stage == MappingStage::Inspect && purpose is Create
            && outcome->Facts_0.owner == user && outcome->Facts_0.mode & 0o777 == 0o600
            ==> stage_succeeds(purpose, stage, outcome, user, length),
        outcome is Facts && stage == MappingStage::Inspect && purpose is Open
            && outcome->Facts_0.size >= length ==> stage_succeeds(
            purpose,
            stage,
            outcome,
            user,
            length,
        ),
        outcome is Failed && stage_succeeds(purpose, stage, outcome, user, length) ==> stage
            == MappingStage::Protect && purpose == (MappingPurpose::Create {
            mode_is_fixed: true,
        }),
        outcome is Done && stage != MappingStage::Inspect ==> stage_succeeds(
            purpose,
            stage,
            outcome,
            user,
            length,
        ),
{
}

/// What is given back when a step fails is what the earlier steps gave: nothing before the object is
/// open, then the object, its name where it is new, and the mapped range once there is one.
pub proof fn law_everything_held_is_given_back(purpose: MappingPurpose, stage: MappingStage)
    ensures
        ({
            let held = held_before(purpose, stage);
            &&& held.object <==> stage != MappingStage::Open
            &&& held.name <==> stage != MappingStage::Open && !(purpose is Open)
            &&& held.address <==> stage == MappingStage::Lock
        }),
{
}

/// A new section is protected before it is made, an existing one is measured before it is mapped, and
/// the mutex is there before the section is mapped.
pub proof fn law_sections_are_measured_before_they_are_mapped()
    ensures
        section_stage_after(SectionPurpose::Create, SectionStage::Protect) == Some(
            SectionStage::Section,
        ),
        section_stage_after(SectionPurpose::Create, SectionStage::Section) == Some(
            SectionStage::Mutex,
        ),
        section_stage_after(SectionPurpose::Open, SectionStage::Section) == Some(
            SectionStage::Query,
        ),
        section_stage_after(SectionPurpose::Open, SectionStage::Query) == Some(SectionStage::Mutex),
        forall|purpose: SectionPurpose| #[trigger]
            section_stage_after(purpose, SectionStage::Mutex) == Some(SectionStage::View),
        forall|purpose: SectionPurpose| #[trigger]
            section_stage_after(purpose, SectionStage::View) is None,
{
}

/// An object that already existed is never taken for a new one, a failed step is never passed over,
/// and a section that is shorter than it should be is never mapped.
pub proof fn law_unsuitable_sections_are_not_mapped(
    stage: SectionStage,
    outcome: SectionOutcome,
    length: usize,
)
    ensures
        outcome is Existing || outcome is Failed ==> !section_succeeds(stage, outcome, length),
        outcome matches SectionOutcome::Queried { status, maximum_size } ==> (section_succeeds(
            stage,
            outcome,
            length,
        ) <==> status >= 0 && maximum_size > 0 && length <= maximum_size <= usize::MAX),
        outcome is Done && stage != SectionStage::Protect ==> section_succeeds(
            stage,
            outcome,
            length,
        ),
        outcome is Done && stage == SectionStage::Protect ==> (section_succeeds(
            stage,
            outcome,
            length,
        ) <==> length > 0),
{
}

/// What is closed when a step fails is every handle that there is by then, and no other: that of the
/// section once it is open, that of the mutex once it is, and that of an object which already existed.
pub proof fn law_every_handle_is_closed(stage: SectionStage, outcome: SectionOutcome)
    ensures
        ({
            let held = handles_after(stage, outcome);
            &&& stage == SectionStage::Protect ==> !held.section && !held.lock
            &&& stage == SectionStage::Section ==> held.section == (outcome is Existing)
                && !held.lock
            &&& stage == SectionStage::Query ==> held.section && !held.lock
            &&& stage == SectionStage::Mutex ==> held.section && held.lock == (outcome is Existing)
            &&& stage == SectionStage::View ==> held.section && held.lock
        }),
{
}

/// The name of a private mapping is twenty-nine characters long: a fixed start and eighteen
/// hexadecimal digits.
pub proof fn law_mapping_names_are_narrow(name: Seq<char>, i: int)
    requires
        valid_mapping_name(name),
        0 <= i < name.len(),
    ensures
        name.len() == 29,
        name[0] == '/',
        1 <= i < 11 ==> name[i] == "robot-hal-"@[i - 1],
        i >= 11 ==> ('0' <= name[i] <= '9' || 'a' <= name[i] <= 'f' || 'A' <= name[i] <= 'F'),
{
    reveal_strlit("/robot-hal-");
    reveal_strlit("robot-hal-");
    assert(name.take(11)[0] == name[0]);
    if 1 <= i < 11 {
        assert(name.take(11)[i] == name[i]);
        assert("robot-hal-"@[i - 1] == "/robot-hal-"@[i]);
    }
    if i >= 11 {
        assert(is_hex_digit(name[i]));
    }
}

/// The lock of a mapping is found under the mapping's name: as a file without the leading mark, or as
/// an object under sixteen bytes of the name's hash.
pub proof fn law_locks_go_by_the_mapping_name(name: Seq<char>)
    requires
        valid_mapping_name(name),
    ensures
        lock_path_of(name).len() == 38,
        forall|i: int| 5 <= i < 33 ==> (#[trigger] lock_path_of(name)[i]) == name[i - 4],
        lock_name_of(name) == "Local\\robot-hal-lock-"@ + text::byte_hex_digits(
            mapping::sha256(vstd::utf8::encode_utf8(name)).take(16),
        ),
{
    reveal_strlit("/tmp/");
    reveal_strlit(".lock");
}

/// A refused query is told from one that failed, a section of another length from either, and a name
/// that is taken from all of them.
pub proof fn law_section_failures_are_told_apart(error: IoError, status: i32, size: i64)
    ensures
        is_query_failure(error, status) ==> (error.kind == IoErrorKind::PermissionDenied <==> status
            == -1073741790) && (error.kind == IoErrorKind::Other <==> status != -1073741790)
            && error.raw_os_error is None,
        is_section_failure(error, SectionOutcome::Queried { status, maximum_size: size })
            ==> if status >= 0 {
            error.kind == IoErrorKind::InvalidData
        } else {
            error.kind == IoErrorKind::PermissionDenied || error.kind == IoErrorKind::Other
        },
        is_section_failure(error, SectionOutcome::Existing) ==> error.kind
            == IoErrorKind::AlreadyExists,
        is_section_failure(error, SectionOutcome::Done) ==> error.kind == IoErrorKind::InvalidInput,
        is_section_failure(error, SectionOutcome::Failed(error)),
{
}

} // verus!
