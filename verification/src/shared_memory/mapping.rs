//! The secrets and the geometry of a mapping.

use vstd::prelude::*;
use zeroize::Zeroize;

use crate::error::HalResult;
use crate::shared_memory::layout;
use crate::shared_memory::layout::internal;
use crate::text;
use crate::text::{push_byte_hex, push_byte_list, push_decimal};

verus! {

/// The error of the operating system's random source.
#[verifier::external_type_specification]
#[verifier::external_body]
pub struct ExRandomError(getrandom::Error);

/// `getrandom::fill` overwrites the buffer with random bytes. Nothing is promised of their values,
/// nor that the source works.
#[verifier::external_body]
fn fill_secret(bytes: &mut [u8; 32]) -> (result: Result<(), getrandom::Error>)
{
    getrandom::fill(bytes)
}

/// `getrandom::Error::to_string` describes the failure. Nothing is promised of the text.
#[verifier::external_body]
fn random_error_text(error: &getrandom::Error) -> (text: String)
{
    error.to_string()
}

/// What SHA-256 makes of a byte string.
pub uninterp spec fn sha256(bytes: Seq<u8>) -> Seq<u8>;

/// `sha2::Sha256::digest` is the SHA-256 hash of the bytes, 32 bytes long.
#[verifier::external_body]
pub(crate) fn digest(bytes: &[u8]) -> (hash: [u8; 32])
    ensures
        hash@ == sha256(bytes@),
{
    <sha2::Sha256 as sha2::Digest>::digest(bytes).into()
}

/// `zeroize::Zeroize::zeroize` overwrites every byte with zero.
#[verifier::external_body]
fn zeroize_secret(bytes: &mut [u8; 32])
    ensures
        forall|i: int| 0 <= i < 32 ==> final(bytes)@[i] == 0,
    opens_invariants none
    no_unwind
{
    bytes.zeroize()
}

/// The capability that opens a mapping. It is wiped when it is dropped, and it has no textual
/// form but a redacted one.
pub struct MappingToken {
    secret: [u8; 32],
}

impl View for MappingToken {
    type V = Seq<u8>;

    closed spec fn view(&self) -> Seq<u8> {
        self.secret@
    }
}

impl Drop for MappingToken {
    fn drop(&mut self)
        opens_invariants none
        no_unwind
    {
        zeroize_secret(&mut self.secret);
    }
}

impl MappingToken {
    /// A fresh random token.
    pub fn generate() -> (result: HalResult<MappingToken>)
        ensures
            match result {
                Ok(token) => token@.len() == 32,
                Err(error) => error@ == layout::internal_error(
                    "shared_memory.token"@,
                    error@.message,
                ),
            },
    {
        let mut secret: [u8; 32] = [0;32];
        match fill_secret(&mut secret) {
            Ok(()) => Ok(MappingToken { secret }),
            Err(error) => Err(internal("shared_memory.token", random_error_text(&error))),
        }
    }

    /// The token with the given bytes.
    pub fn from_bytes(secret: [u8; 32]) -> (token: MappingToken)
        ensures
            token@ == secret@,
    {
        MappingToken { secret }
    }

    /// The hash by which the region knows the token.
    pub fn hash(&self) -> (hash: [u8; 32])
        ensures
            hash@ == sha256(self@),
    {
        digest(self.secret.as_slice())
    }

    /// A second value with the same bytes.
    pub fn copy(&self) -> (token: MappingToken)
        ensures
            token@ == self@,
    {
        MappingToken { secret: self.secret }
    }

    /// A text that shows nothing of the secret.
    pub fn redacted(&self) -> (text: String)
        ensures
            text@ == "MappingToken(REDACTED)"@,
    {
        "MappingToken(REDACTED)".to_owned()
    }
}

/// What tells one mapping session from another.
#[derive(Clone, Copy, Debug, PartialEq, Eq)]
pub struct MappingIdentity {
    value: [u8; 32],
}

impl View for MappingIdentity {
    type V = Seq<u8>;

    closed spec fn view(&self) -> Seq<u8> {
        self.value@
    }
}

impl MappingIdentity {
    /// A fresh random identity.
    pub fn generate() -> (result: HalResult<MappingIdentity>)
        ensures
            match result {
                Ok(identity) => identity@.len() == 32,
                Err(error) => error@ == layout::internal_error(
                    "shared_memory.identity"@,
                    error@.message,
                ),
            },
    {
        let mut value: [u8; 32] = [0;32];
        match fill_secret(&mut value) {
            Ok(()) => Ok(MappingIdentity { value }),
            Err(error) => Err(internal("shared_memory.identity", random_error_text(&error))),
        }
    }

    /// The identity with the given bytes.
    pub fn from_bytes(value: [u8; 32]) -> (identity: MappingIdentity)
        ensures
            identity@ == value@,
    {
        MappingIdentity { value }
    }

    /// The bytes.
    pub fn bytes(&self) -> (bytes: &[u8; 32])
        ensures
            bytes@ == self@,
    {
        &self.value
    }
}

/// The name of a mapping made of random bytes.
pub open spec fn mapping_name_of(bytes: Seq<u8>) -> Seq<char> {
    "/robot-hal-"@ + text::byte_hex_digits(bytes)
}

/// The name of the mapping that the random bytes give.
pub fn mapping_name(bytes: &[u8]) -> (name: String)
    ensures
        name@ == mapping_name_of(bytes@),
{
    let mut name = "/robot-hal-".to_owned();
    push_byte_hex(&mut name, bytes);
    name
}

/// The text that shows a descriptor without its capability.
pub open spec fn redacted_descriptor(
    name: Seq<char>,
    identity: Seq<u8>,
    total_length: nat,
) -> Seq<char> {
    "MappingDescriptor { mapping_name: \""@ + name
        + "\", mapping_identity: MappingIdentity(["@ + text::byte_list(identity)
        + "]), capability_token: \"REDACTED\", total_length: "@ + text::decimal_digits(
        total_length,
    ) + " }"@
}

/// Everything that a reader needs to open a mapping.
pub struct MappingDescriptor {
    pub(crate) name: String,
    pub(crate) identity: MappingIdentity,
    pub(crate) token: MappingToken,
    pub(crate) total_length: usize,
}

/// The mathematical content of a [`MappingDescriptor`].
#[verifier::ext_equal]
pub struct MappingView {
    pub name: Seq<char>,
    pub identity: Seq<u8>,
    pub token: Seq<u8>,
    pub total_length: usize,
}

impl View for MappingDescriptor {
    type V = MappingView;

    closed spec fn view(&self) -> MappingView {
        MappingView {
            name: self.name@,
            identity: self.identity@,
            token: self.token@,
            total_length: self.total_length,
        }
    }
}

impl MappingDescriptor {
    /// The descriptor with the given parts.
    pub fn new(
        name: String,
        identity: MappingIdentity,
        token: MappingToken,
        total_length: usize,
    ) -> (descriptor: MappingDescriptor)
        ensures
            descriptor@ == (MappingView {
                name: name@,
                identity: identity@,
                token: token@,
                total_length,
            }),
    {
        MappingDescriptor { name, identity, token, total_length }
    }

    /// A descriptor with a fresh random name, identity and token.
    pub fn generate(total_length: usize) -> (result: HalResult<MappingDescriptor>)
        ensures
            match result {
                Ok(descriptor) => {
                    &&& descriptor@.total_length == total_length
                    &&& exists|bytes: Seq<u8>|
                        bytes.len() == 9 && descriptor@.name == #[trigger] mapping_name_of(bytes)
                },
                Err(error) => {
                    ||| error@ == layout::internal_error("shared_memory.identity"@, error@.message)
                    ||| error@ == layout::internal_error("shared_memory.token"@, error@.message)
                    ||| error@ == layout::internal_error("shared_memory.create"@, error@.message)
                },
            },
    {
        let identity = match MappingIdentity::generate() {
            Ok(identity) => identity,
            Err(error) => {
                return Err(error);
            },
        };
        let token = match MappingToken::generate() {
            Ok(token) => token,
            Err(error) => {
                return Err(error);
            },
        };
        let mut random: [u8; 32] = [0;32];
        match fill_secret(&mut random) {
            Ok(()) => {
                let bytes = &random.as_slice()[0..9];
                let name = mapping_name(bytes);
                Ok(MappingDescriptor::new(name, identity, token, total_length))
            },
            Err(error) => Err(internal("shared_memory.create", random_error_text(&error))),
        }
    }

    /// The name of the mapping.
    pub fn mapping_name(&self) -> (name: &str)
        ensures
            name@ == self@.name,
    {
        self.name.as_str()
    }

    /// The identity of the mapping session.
    pub fn mapping_identity(&self) -> (identity: &MappingIdentity)
        ensures
            identity@ == self@.identity,
    {
        &self.identity
    }

    /// The capability that opens the mapping.
    pub fn token(&self) -> (token: &MappingToken)
        ensures
            token@ == self@.token,
    {
        &self.token
    }

    /// The length of the region.
    pub fn total_length(&self) -> (length: usize)
        ensures
            length == self@.total_length,
    {
        self.total_length
    }

    /// Sets another capability.
    pub fn replace_token(&mut self, token: MappingToken)
        ensures
            final(self)@ == (MappingView { token: token@, ..old(self)@ }),
    {
        self.token = token;
    }

    /// A text that shows the name, the identity and the length, and nothing of the capability. The
    /// name stands as it is: that of a private mapping holds no character to escape.
    pub fn redacted(&self) -> (text: String)
        ensures
            text@ == redacted_descriptor(self@.name, self@.identity, self@.total_length as nat),
    {
        let mut text = "MappingDescriptor { mapping_name: \"".to_owned();
        text.append(self.name.as_str());
        text.append("\", mapping_identity: MappingIdentity([");
        push_byte_list(&mut text, self.identity.bytes().as_slice());
        text.append("]), capability_token: \"REDACTED\", total_length: ");
        push_decimal(&mut text, self.total_length as u64);
        text.append(" }");
        text
    }

    /// A second value with the same parts.
    pub fn copy(&self) -> (descriptor: MappingDescriptor)
        ensures
            descriptor@ == self@,
    {
        MappingDescriptor {
            name: self.name.clone(),
            identity: self.identity,
            token: self.token.copy(),
            total_length: self.total_length,
        }
    }
}

} // verus!
