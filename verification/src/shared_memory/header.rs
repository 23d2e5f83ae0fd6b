//! The fixed header of a region: writing it and checking it.

use vstd::bytes::*;
use vstd::prelude::*;

use crate::camera::frame_format;
use crate::camera::frame_format::{CameraFormat, CameraLimits, CameraPixelFormat};
use crate::error::{HalErrorView, HalResult};
use crate::shared_memory::bytes;
use crate::shared_memory::bytes::{
    holds_bytes, read_u16, read_u32, read_u64, write_bytes, write_u16, write_u32, write_u64,
};
use crate::shared_memory::config;
use crate::shared_memory::config::{RingConfig, RingGeometry, ValidatedHeader};
use crate::shared_memory::layout;
use crate::shared_memory::layout::{
    invalid, PixelFormat, HEADER_BYTES, LAYOUT_MAJOR, LAYOUT_MINOR,
};
use crate::shared_memory::mapping;
use crate::shared_memory::mapping::{MappingDescriptor, MappingView};
use crate::shared_memory::slots;
use crate::shared_memory::slots::{RingView, HEADER_DROPPED_COUNT};

verus! {

pub const HEADER_MAGIC: usize = 0;

pub const HEADER_MAJOR: usize = 8;

pub const HEADER_MINOR: usize = 10;

pub const HEADER_TOTAL_LENGTH: usize = 16;

pub const HEADER_SLOT_COUNT: usize = 24;

pub const HEADER_SLOT_STRIDE: usize = 32;

pub const HEADER_FORMAT: usize = 40;

pub const HEADER_WIDTH: usize = 44;

pub const HEADER_HEIGHT: usize = 48;

pub const HEADER_PAYLOAD_CAPACITY: usize = 56;

pub const HEADER_IDENTITY: usize = 64;

pub const HEADER_TOKEN_HASH: usize = 96;

/// `SHRING04` in ASCII.
pub const MAGIC: [u8; 8] = [0x53, 0x48, 0x52, 0x49, 0x4e, 0x47, 0x30, 0x34];

/// `subtle::ConstantTimeEq::ct_eq` on two byte slices tells whether they are equal.
#[verifier::external_body]
fn ct_eq(left: &[u8], right: &[u8]) -> (same: bool)
    ensures
        same == (left@ == right@),
{
    bool::from(subtle::ConstantTimeEq::ct_eq(left, right))
}

/// The fields of a header.
#[verifier::ext_equal]
pub struct HeaderView {
    pub magic: Seq<u8>,
    pub major: u16,
    pub minor: u16,
    pub total_length: u64,
    pub slot_count: u64,
    pub slot_stride: u64,
    pub format: u32,
    pub width: u32,
    pub height: u32,
    pub payload_capacity: u64,
    pub identity: Seq<u8>,
    pub token_hash: Seq<u8>,
}

/// The fields of the header bytes.
pub open spec fn header_of(header: Seq<u8>) -> HeaderView {
    HeaderView {
        magic: header.subrange(HEADER_MAGIC as int, HEADER_MAGIC + 8),
        major: bytes::u16_at(header, HEADER_MAJOR as int),
        minor: bytes::u16_at(header, HEADER_MINOR as int),
        total_length: bytes::u64_at(header, HEADER_TOTAL_LENGTH as int),
        slot_count: bytes::u64_at(header, HEADER_SLOT_COUNT as int),
        slot_stride: bytes::u64_at(header, HEADER_SLOT_STRIDE as int),
        format: bytes::u32_at(header, HEADER_FORMAT as int),
        width: bytes::u32_at(header, HEADER_WIDTH as int),
        height: bytes::u32_at(header, HEADER_HEIGHT as int),
        payload_capacity: bytes::u64_at(header, HEADER_PAYLOAD_CAPACITY as int),
        identity: header.subrange(HEADER_IDENTITY as int, HEADER_IDENTITY + 32),
        token_hash: header.subrange(HEADER_TOKEN_HASH as int, HEADER_TOKEN_HASH + 32),
    }
}

/// The header that describes a mapping with a geometry.
pub open spec fn header_for(geometry: RingGeometry, mapping: MappingView) -> HeaderView {
    HeaderView {
        magic: MAGIC@,
        major: LAYOUT_MAJOR,
        minor: LAYOUT_MINOR,
        total_length: geometry.total_length() as u64,
        slot_count: geometry.slot_count as u64,
        slot_stride: geometry.slot_stride() as u64,
        format: layout::pixel_format_of(geometry.format.pixel_format).code(),
        width: geometry.format.width,
        height: geometry.format.height,
        payload_capacity: geometry.payload_capacity as u64,
        identity: mapping.identity,
        token_hash: mapping::sha256(mapping.token),
    }
}

/// A number of the region as a size of this machine: the largest size for one that does not fit.
pub open spec fn size_of_field(value: u64) -> usize {
    if value <= usize::MAX {
        value as usize
    } else {
        usize::MAX
    }
}

fn field_size(value: u64) -> (size: usize)
    ensures
        size == size_of_field(value),
{
    if value <= usize::MAX as u64 {
        value as usize
    } else {
        usize::MAX
    }
}

/// The geometry that a header names, once its pixel format is known.
pub open spec fn named_geometry(header: HeaderView, format: CameraPixelFormat) -> RingGeometry {
    RingGeometry {
        format: CameraFormat {
            pixel_format: format,
            width: header.width,
            height: header.height,
        },
        slot_count: size_of_field(header.slot_count) as int,
        payload_capacity: size_of_field(header.payload_capacity) as int,
    }
}

/// The pixel format that a code names.
pub open spec fn named_format(code: u32) -> CameraPixelFormat {
    if code == 1 {
        CameraPixelFormat::Nv12
    } else if code == 2 {
        CameraPixelFormat::Yuyv
    } else {
        CameraPixelFormat::Mjpeg
    }
}

/// What checking a header against a descriptor gives: the geometry, or the first reason why the
/// header does not describe the mapping.
pub open spec fn checked_header(
    limits: CameraLimits,
    header: HeaderView,
    mapped_length: int,
    mapping: MappingView,
) -> Result<RingGeometry, HalErrorView> {
    let open = "shared_memory.open"@;
    let geometry = named_geometry(header, named_format(header.format));
    if header.magic != MAGIC@ || header.major != LAYOUT_MAJOR || header.minor > LAYOUT_MINOR {
        Err(layout::invalid_error(open, "mapping magic or layout version is incompatible"@))
    } else if header.total_length != mapped_length || header.total_length
        != mapping.total_length {
        Err(layout::invalid_error(open, "mapping total length does not match its descriptor"@))
    } else if !(1 <= header.format <= 3) {
        Err(layout::invalid_error("shared_memory.layout"@, "unknown pixel format"@))
    } else if geometry.refusal(limits) is Some {
        Err(geometry.refusal(limits)->0)
    } else if geometry.slot_stride() != header.slot_stride {
        Err(layout::invalid_error(open, "mapping slot stride violates the fixed layout"@))
    } else if geometry.total_length() > mapped_length {
        Err(layout::invalid_error(open, "mapping total length does not match its descriptor"@))
    } else if header.identity != mapping.identity || header.token_hash != mapping::sha256(
        mapping.token,
    ) {
        Err(
            layout::invalid_error(
                open,
                "mapping session identity or capability token does not match"@,
            ),
        )
    } else {
        Ok(geometry)
    }
}

/// Checks that the header of a region describes the mapping.
pub fn validate_header(
    limits: &CameraLimits,
    region: &[u8],
    descriptor: &MappingDescriptor,
) -> (result: HalResult<ValidatedHeader>)
    requires
        region.len() >= HEADER_BYTES,
    ensures
        ({
            let header = header_of(region@.subrange(0, HEADER_DROPPED_COUNT as int));
            let checked = checked_header(*limits, header, region.len() as int, descriptor@);
            match result {
                Ok(valid) => {
                    &&& checked == Ok::<RingGeometry, HalErrorView>(valid.geometry())
                    &&& valid.session() == descriptor@.identity
                    &&& valid.geometry().total_length() <= region.len()
                },
                Err(error) => checked == Err::<RingGeometry, HalErrorView>(error@),
            }
        }),
{
    let mapped_length: usize = region.len();
    let header = &region[0..HEADER_DROPPED_COUNT];
    if !holds_bytes(header, HEADER_MAGIC, MAGIC.as_slice()) || read_u16(header, HEADER_MAJOR)
        != LAYOUT_MAJOR || read_u16(header, HEADER_MINOR) > LAYOUT_MINOR {
        return Err(
            invalid("shared_memory.open", "mapping magic or layout version is incompatible"),
        );
    }
    let total_length: u64 = read_u64(header, HEADER_TOTAL_LENGTH);
    if total_length != mapped_length as u64 || total_length != descriptor.total_length() as u64 {
        return Err(
            invalid("shared_memory.open", "mapping total length does not match its descriptor"),
        );
    }
    let format = PixelFormat::from_raw(read_u32(header, HEADER_FORMAT))?;
    let width: u32 = read_u32(header, HEADER_WIDTH);
    let height: u32 = read_u32(header, HEADER_HEIGHT);
    let slot_count: usize = field_size(read_u64(header, HEADER_SLOT_COUNT));
    let capacity: usize = field_size(read_u64(header, HEADER_PAYLOAD_CAPACITY));
    let camera_format = CameraFormat::new(limits, format.to_camera(), width, height)?;
    let config = RingConfig::new(limits, camera_format, slot_count, capacity)?;
    if config.slot_stride() as u64 != read_u64(header, HEADER_SLOT_STRIDE) {
        return Err(
            invalid("shared_memory.open", "mapping slot stride violates the fixed layout"),
        );
    }
    if config.total_length() > mapped_length {
        return Err(
            invalid("shared_memory.open", "mapping total length does not match its descriptor"),
        );
    }
    let token_hash = descriptor.token().hash();
    let identity_known = holds_bytes(
        header,
        HEADER_IDENTITY,
        descriptor.mapping_identity().bytes().as_slice(),
    );
    if !identity_known || !ct_eq(
        &header[HEADER_TOKEN_HASH..HEADER_TOKEN_HASH + 32],
        token_hash.as_slice(),
    ) {
        return Err(
            invalid(
                "shared_memory.open",
                "mapping session identity or capability token does not match",
            ),
        );
    }
    Ok(ValidatedHeader::new(config, *descriptor.mapping_identity()))
}

/// Fields of the header bytes are fields of the region.
pub proof fn lemma_header_fields(region: Seq<u8>)
    requires
        region.len() >= HEADER_BYTES,
    ensures
        ({
            let header = region.subrange(0, HEADER_DROPPED_COUNT as int);
            &&& forall|o: int|
                0 <= o && o + 8 <= HEADER_DROPPED_COUNT ==> #[trigger] bytes::u64_at(header, o)
                    == bytes::u64_at(region, o)
            &&& forall|o: int|
                0 <= o && o + 4 <= HEADER_DROPPED_COUNT ==> #[trigger] bytes::u32_at(header, o)
                    == bytes::u32_at(region, o)
            &&& forall|o: int|
                0 <= o && o + 2 <= HEADER_DROPPED_COUNT ==> #[trigger] bytes::u16_at(header, o)
                    == bytes::u16_at(region, o)
            &&& forall|from: int, to: int|
                0 <= from <= to <= HEADER_DROPPED_COUNT ==> #[trigger] header.subrange(from, to)
                    == region.subrange(from, to)
        }),
{
    let header = region.subrange(0, HEADER_DROPPED_COUNT as int);
    assert forall|from: int, to: int|
        0 <= from <= to <= HEADER_DROPPED_COUNT implies #[trigger] header.subrange(from, to)
        == region.subrange(from, to) by {
        assert(header.subrange(from, to) =~= region.subrange(from, to));
    }
}

/// A write in the fixed header leaves the counters and the slots.
proof fn lemma_patch_in_header(
    geometry: RingGeometry,
    region: Seq<u8>,
    offset: int,
    written: Seq<u8>,
)
    requires
        geometry.payload_capacity >= 0,
        geometry.slot_count >= 0,
        region.len() == geometry.total_length(),
        region.len() >= HEADER_BYTES,
        0 <= offset,
        offset + written.len() <= HEADER_DROPPED_COUNT,
    ensures
        slots::ring_of(geometry, bytes::patched(region, offset, written)) == (RingView {
            header: bytes::patched(region, offset, written).subrange(
                0,
                HEADER_DROPPED_COUNT as int,
            ),
            ..slots::ring_of(geometry, region)
        }),
{
    let after = bytes::patched(region, offset, written);
    slots::lemma_patch_fields(region, offset, written);
    assert forall|j: int| 0 <= j < geometry.slot_count implies slots::slot_at(geometry, after, j)
        == slots::slot_at(geometry, region, j) by {
        config::lemma_slot_range(geometry, j);
        assert(slots::slot_at(geometry, after, j).planes =~= slots::slot_at(
            geometry,
            region,
            j,
        ).planes);
    }
    assert(slots::ring_of(geometry, after).slots =~= slots::ring_of(geometry, region).slots);
}

/// Writes the geometry part of a header.
fn store_geometry(config: &RingConfig, region: &mut [u8])
    requires
        old(region).len() == config@.total_length(),
        old(region).len() >= HEADER_BYTES,
    ensures
        final(region).len() == old(region).len(),
        ({
            let header = header_of(final(region)@.subrange(0, HEADER_DROPPED_COUNT as int));
            header == (HeaderView {
                identity: header.identity,
                token_hash: header.token_hash,
                ..header_for(config@, arbitrary())
            })
        }),
        slots::ring_of(config@, final(region)@) == (RingView {
            header: final(region)@.subrange(0, HEADER_DROPPED_COUNT as int),
            ..slots::ring_of(config@, old(region)@)
        }),
{
    config.facts();
    let format = config.format();
    let code: u32 = PixelFormat::from(format.pixel_format).raw();
    let ghost g = config@;
    let ghost r0 = region@;
    write_bytes(region, HEADER_MAGIC, MAGIC.as_slice());
    let ghost r1 = region@;
    write_u16(region, HEADER_MAJOR, LAYOUT_MAJOR);
    let ghost r2 = region@;
    write_u16(region, HEADER_MINOR, LAYOUT_MINOR);
    let ghost r3 = region@;
    write_u64(region, HEADER_TOTAL_LENGTH, config.total_length() as u64);
    let ghost r4 = region@;
    write_u64(region, HEADER_SLOT_COUNT, config.slot_count() as u64);
    let ghost r5 = region@;
    write_u64(region, HEADER_SLOT_STRIDE, config.slot_stride() as u64);
    let ghost r6 = region@;
    write_u32(region, HEADER_FORMAT, code);
    let ghost r7 = region@;
    write_u32(region, HEADER_WIDTH, format.width);
    let ghost r8 = region@;
    write_u32(region, HEADER_HEIGHT, format.height);
    let ghost r9 = region@;
    write_u64(region, HEADER_PAYLOAD_CAPACITY, config.payload_capacity() as u64);
    let ghost r10 = region@;
    proof {
        lemma_auto_spec_u16_to_from_le_bytes();
        lemma_auto_spec_u32_to_from_le_bytes();
        lemma_auto_spec_u64_to_from_le_bytes();
        let w2 = spec_u16_to_le_bytes(LAYOUT_MAJOR);
        let w3 = spec_u16_to_le_bytes(LAYOUT_MINOR);
        let w4 = spec_u64_to_le_bytes(g.total_length() as u64);
        let w5 = spec_u64_to_le_bytes(g.slot_count as u64);
        let w6 = spec_u64_to_le_bytes(g.slot_stride() as u64);
        let w7 = spec_u32_to_le_bytes(code);
        let w8 = spec_u32_to_le_bytes(format.width);
        let w9 = spec_u32_to_le_bytes(format.height);
        let w10 = spec_u64_to_le_bytes(g.payload_capacity as u64);
        assert(MAGIC@.len() == 8);
        slots::lemma_patch_fields(r0, 0, MAGIC@);
        bytes::lemma_patch_here(r0, 0, MAGIC@);
        lemma_patch_in_header(g, r0, 0, MAGIC@);
        slots::lemma_patch_fields(r1, HEADER_MAJOR as int, w2);
        bytes::lemma_patch_here(r1, HEADER_MAJOR as int, w2);
        lemma_patch_in_header(g, r1, HEADER_MAJOR as int, w2);
        slots::lemma_patch_fields(r2, HEADER_MINOR as int, w3);
        bytes::lemma_patch_here(r2, HEADER_MINOR as int, w3);
        lemma_patch_in_header(g, r2, HEADER_MINOR as int, w3);
        slots::lemma_patch_fields(r3, HEADER_TOTAL_LENGTH as int, w4);
        bytes::lemma_patch_here(r3, HEADER_TOTAL_LENGTH as int, w4);
        lemma_patch_in_header(g, r3, HEADER_TOTAL_LENGTH as int, w4);
        slots::lemma_patch_fields(r4, HEADER_SLOT_COUNT as int, w5);
        bytes::lemma_patch_here(r4, HEADER_SLOT_COUNT as int, w5);
        lemma_patch_in_header(g, r4, HEADER_SLOT_COUNT as int, w5);
        slots::lemma_patch_fields(r5, HEADER_SLOT_STRIDE as int, w6);
        bytes::lemma_patch_here(r5, HEADER_SLOT_STRIDE as int, w6);
        lemma_patch_in_header(g, r5, HEADER_SLOT_STRIDE as int, w6);
        slots::lemma_patch_fields(r6, HEADER_FORMAT as int, w7);
        bytes::lemma_patch_here(r6, HEADER_FORMAT as int, w7);
        lemma_patch_in_header(g, r6, HEADER_FORMAT as int, w7);
        slots::lemma_patch_fields(r7, HEADER_WIDTH as int, w8);
        bytes::lemma_patch_here(r7, HEADER_WIDTH as int, w8);
        lemma_patch_in_header(g, r7, HEADER_WIDTH as int, w8);
        slots::lemma_patch_fields(r8, HEADER_HEIGHT as int, w9);
        bytes::lemma_patch_here(r8, HEADER_HEIGHT as int, w9);
        lemma_patch_in_header(g, r8, HEADER_HEIGHT as int, w9);
        slots::lemma_patch_fields(r9, HEADER_PAYLOAD_CAPACITY as int, w10);
        bytes::lemma_patch_here(r9, HEADER_PAYLOAD_CAPACITY as int, w10);
        lemma_patch_in_header(g, r9, HEADER_PAYLOAD_CAPACITY as int, w10);
        lemma_header_fields(r10);
        let header = header_of(r10.subrange(0, HEADER_DROPPED_COUNT as int));
        let expected = header_for(g, arbitrary());
        assert(header.magic == expected.magic);
        assert(header.major == expected.major);
        assert(header.minor == expected.minor);
        assert(header.total_length == expected.total_length);
        assert(header.slot_count == expected.slot_count);
        assert(header.slot_stride == expected.slot_stride);
        assert(header.format == expected.format);
        assert(header.width == expected.width);
        assert(header.height == expected.height);
        assert(header.payload_capacity == expected.payload_capacity);
    }
}

/// Writes the header that describes the mapping. The counters and the slots stay.
pub fn write_header(config: &RingConfig, region: &mut [u8], descriptor: &MappingDescriptor)
    requires
        old(region).len() == config@.total_length(),
        old(region).len() >= HEADER_BYTES,
    ensures
        final(region).len() == old(region).len(),
        header_of(final(region)@.subrange(0, HEADER_DROPPED_COUNT as int)) == header_for(
            config@,
            descriptor@,
        ),
        slots::ring_of(config@, final(region)@) == (RingView {
            header: final(region)@.subrange(0, HEADER_DROPPED_COUNT as int),
            ..slots::ring_of(config@, old(region)@)
        }),
{
    config.facts();
    store_geometry(config, region);
    let ghost r1 = region@;
    let identity = descriptor.mapping_identity().bytes();
    write_bytes(region, HEADER_IDENTITY, identity.as_slice());
    let ghost r2 = region@;
    let token_hash = descriptor.token().hash();
    write_bytes(region, HEADER_TOKEN_HASH, token_hash.as_slice());
    proof {
        let r3 = region@;
        assert(identity@.len() == 32 && token_hash@.len() == 32);
        slots::lemma_patch_fields(r1, HEADER_IDENTITY as int, identity@);
        bytes::lemma_patch_here(r1, HEADER_IDENTITY as int, identity@);
        lemma_patch_in_header(config@, r1, HEADER_IDENTITY as int, identity@);
        slots::lemma_patch_fields(r2, HEADER_TOKEN_HASH as int, token_hash@);
        bytes::lemma_patch_here(r2, HEADER_TOKEN_HASH as int, token_hash@);
        lemma_patch_in_header(config@, r2, HEADER_TOKEN_HASH as int, token_hash@);
        lemma_header_fields(r1);
        lemma_header_fields(r3);
        let before = header_of(r1.subrange(0, HEADER_DROPPED_COUNT as int));
        let after = header_of(r3.subrange(0, HEADER_DROPPED_COUNT as int));
        let expected = header_for(config@, descriptor@);
        assert(before.magic == expected.magic);
        assert(after.magic == expected.magic);
        assert(after.identity == expected.identity);
        assert(after.token_hash == expected.token_hash);
        assert(after =~= expected);
    }
}

} // verus!
