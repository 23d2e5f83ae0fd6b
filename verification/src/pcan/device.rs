//! Channels that the driver reports as attached.

use vstd::prelude::*;
use vstd::slice::*;
use vstd::string::*;

use crate::pcan::driver_error::{DriverError, DriverFault};
use crate::text;
use crate::text::trim;

verus! {

pub const FEATURE_FD_CAPABLE: u32 = 0x01;

/// The bits of the channel condition that say that a channel is available or in use.
pub const CONDITION_PRESENT: u32 = 0x03;

/// The size of one channel record of the driver in bytes.
pub const CHANNEL_INFORMATION_BYTES: u64 = 52;

/// The bus of a channel.
#[derive(Clone, Copy, Debug, PartialEq, Eq, Structural)]
pub enum BusType {
    Usb,
    Pci,
    Lan,
}

/// The bus and the index on it that a handle names.
pub open spec fn address_of(handle: u16) -> Option<(BusType, u32)> {
    if 0x51 <= handle <= 0x60 {
        Some((BusType::Usb, (handle - 0x51) as u32))
    } else if 0x41 <= handle <= 0x50 {
        Some((BusType::Pci, (handle - 0x41) as u32))
    } else if 0x801 <= handle <= 0x810 {
        Some((BusType::Lan, (handle - 0x801) as u32))
    } else {
        None
    }
}

/// The bus and the index on it that a handle names.
pub fn bus_and_index(handle: u16) -> (address: Option<(BusType, u32)>)
    ensures
        address == address_of(handle),
{
    if 0x51 <= handle && handle <= 0x60 {
        Some((BusType::Usb, (handle - 0x51) as u32))
    } else if 0x41 <= handle && handle <= 0x50 {
        Some((BusType::Pci, (handle - 0x41) as u32))
    } else if 0x801 <= handle && handle <= 0x810 {
        Some((BusType::Lan, (handle - 0x801) as u32))
    } else {
        None
    }
}

/// No two handles name the same place.
pub proof fn law_addresses_are_distinct(first: u16, second: u16)
    requires
        address_of(first) is Some,
        address_of(first) == address_of(second),
    ensures
        first == second,
{
}

/// A channel record as the driver fills it in.
#[derive(Clone, Debug, PartialEq, Eq)]
pub struct ChannelRecord {
    pub channel_handle: u16,
    pub device_type: u8,
    pub controller_number: u8,
    pub device_features: u32,
    pub device_name: Vec<u8>,
    pub device_id: u32,
    pub channel_condition: u32,
}

/// A channel that can be opened.
#[derive(Clone, Debug, PartialEq, Eq)]
pub struct DriverDevice {
    pub handle: u16,
    pub device_type: u8,
    pub controller_number: u8,
    pub device_name: Option<String>,
    pub device_id: Option<u32>,
    pub channel_condition: u32,
    pub fd_capable: bool,
}

/// The mathematical content of a [`DriverDevice`].
#[verifier::ext_equal]
pub struct DeviceView {
    pub handle: u16,
    pub device_type: u8,
    pub controller_number: u8,
    pub device_name: Option<Seq<char>>,
    pub device_id: Option<u32>,
    pub channel_condition: u32,
    pub fd_capable: bool,
}

impl View for DriverDevice {
    type V = DeviceView;

    open spec fn view(&self) -> DeviceView {
        DeviceView {
            handle: self.handle,
            device_type: self.device_type,
            controller_number: self.controller_number,
            device_name: text::optional_text(self.device_name),
            device_id: self.device_id,
            channel_condition: self.channel_condition,
            fd_capable: self.fd_capable,
        }
    }
}

/// The bytes before the first zero byte.
pub open spec fn before_zero(bytes: Seq<u8>) -> Seq<u8>
    decreases bytes.len(),
{
    if bytes.len() == 0 || bytes[0] == 0 {
        Seq::empty()
    } else {
        seq![bytes[0]] + before_zero(bytes.skip(1))
    }
}

proof fn lemma_before_zero(bytes: Seq<u8>, end: int)
    requires
        0 <= end <= bytes.len(),
        forall|i: int| 0 <= i < end ==> bytes[i] != 0,
        end < bytes.len() ==> bytes[end] == 0,
    ensures
        before_zero(bytes) == bytes.take(end),
    decreases bytes.len(),
{
    if end > 0 {
        assert forall|i: int| 0 <= i < end - 1 implies bytes.skip(1)[i] != 0 by {
            assert(bytes.skip(1)[i] == bytes[i + 1]);
        }
        lemma_before_zero(bytes.skip(1), end - 1);
        assert(bytes.take(end) =~= seq![bytes[0]] + bytes.skip(1).take(end - 1));
    } else {
        assert(bytes.take(end) =~= Seq::<u8>::empty());
    }
}

fn zero_position(bytes: &[u8]) -> (end: usize)
    ensures
        end <= bytes@.len(),
        before_zero(bytes@) == bytes@.take(end as int),
{
    let mut end: usize = 0;
    while end < bytes.len() && bytes[end] != 0
        invariant
            end <= bytes@.len(),
            forall|i: int| 0 <= i < end ==> bytes@[i] != 0,
        decreases bytes@.len() - end,
    {
        end += 1;
    }
    proof {
        lemma_before_zero(bytes@, end as int);
    }
    end
}

/// The text that `String::from_utf8_lossy` makes of bytes: their UTF-8 decoding, with a
/// replacement character for each maximal part that is not UTF-8.
pub uninterp spec fn lossy_text(bytes: Seq<u8>) -> Seq<char>;

/// `String::from_utf8_lossy`.
#[verifier::external_body]
fn decode_lossy(bytes: &[u8]) -> (decoded: String)
    ensures
        decoded@ == lossy_text(bytes@),
        vstd::utf8::valid_utf8(bytes@) ==> decoded@ == vstd::utf8::decode_utf8(bytes@),
{
    String::from_utf8_lossy(bytes).into_owned()
}

/// The message of the error that `String::from_utf8` gives for bytes that are not UTF-8.
pub uninterp spec fn utf8_error_text(bytes: Seq<u8>) -> Seq<char>;

/// `String::from_utf8` decodes UTF-8 and refuses all other bytes.
#[verifier::external_body]
fn decode_text(bytes: Vec<u8>) -> (decoded: Result<String, String>)
    ensures
        match decoded {
            Ok(text) => {
                &&& vstd::utf8::valid_utf8(bytes@)
                &&& text@ == vstd::utf8::decode_utf8(bytes@)
            },
            Err(message) => {
                &&& !vstd::utf8::valid_utf8(bytes@)
                &&& message@ == utf8_error_text(bytes@)
            },
        },
{
    String::from_utf8(bytes).map_err(|error| error.to_string())
}

/// The name in a zero-terminated buffer: none where the buffer is empty.
pub open spec fn name_in(bytes: Seq<u8>) -> Option<Seq<char>> {
    if before_zero(bytes).len() == 0 {
        None
    } else {
        Some(text::trimmed(lossy_text(before_zero(bytes))))
    }
}

/// The name in a zero-terminated buffer: none where the buffer is empty.
pub fn decode_name(bytes: &[u8]) -> (name: Option<String>)
    ensures
        text::optional_text(name) == name_in(bytes@),
{
    let end: usize = zero_position(bytes);
    if end == 0 {
        return None;
    }
    let decoded = decode_lossy(slice_subrange(bytes, 0, end));
    proof {
        assert(bytes@.subrange(0, end as int) =~= bytes@.take(end as int));
    }
    Some(trim(decoded.as_str()).to_owned())
}

/// The text in a zero-terminated buffer.
pub fn text_in_buffer(bytes: &[u8]) -> (result: Result<String, DriverError>)
    ensures
        match result {
            Ok(text) => {
                &&& vstd::utf8::valid_utf8(before_zero(bytes@))
                &&& text@ == vstd::utf8::decode_utf8(before_zero(bytes@))
            },
            Err(error) => {
                &&& !vstd::utf8::valid_utf8(before_zero(bytes@))
                &&& error@ == DriverFault::Platform(
                    "PCAN returned non-UTF-8 timing text: "@ + utf8_error_text(
                        before_zero(bytes@),
                    ),
                )
            },
        },
{
    let end: usize = zero_position(bytes);
    let kept = slice_to_vec(slice_subrange(bytes, 0, end));
    proof {
        assert(bytes@.subrange(0, end as int) =~= bytes@.take(end as int));
    }
    match decode_text(kept) {
        Ok(text) => Ok(text),
        Err(reason) => {
            let mut message = "PCAN returned non-UTF-8 timing text: ".to_owned();
            message.append(reason.as_str());
            Err(DriverError::Platform(message))
        },
    }
}

/// A channel that the adapter offers: on a supported bus, and available or in use.
pub open spec fn offered(record: ChannelRecord) -> bool {
    address_of(record.channel_handle) is Some && record.channel_condition & CONDITION_PRESENT != 0
}

/// The channel of a record.
pub open spec fn device_of(record: ChannelRecord) -> DeviceView {
    DeviceView {
        handle: record.channel_handle,
        device_type: record.device_type,
        controller_number: record.controller_number,
        device_name: name_in(record.device_name@),
        device_id: if record.device_id != 0 {
            Some(record.device_id)
        } else {
            None
        },
        channel_condition: record.channel_condition,
        fd_capable: record.device_features & FEATURE_FD_CAPABLE != 0,
    }
}

/// The channels of the offered records, in order.
pub open spec fn devices_of(records: Seq<ChannelRecord>) -> Seq<DeviceView>
    decreases records.len(),
{
    if records.len() == 0 {
        Seq::empty()
    } else if offered(records.last()) {
        devices_of(records.drop_last()).push(device_of(records.last()))
    } else {
        devices_of(records.drop_last())
    }
}

/// The contents of a list of channels.
pub open spec fn device_views(devices: Seq<DriverDevice>) -> Seq<DeviceView> {
    devices.map(|i: int, device: DriverDevice| device@)
}

/// The channels of the offered records, in order.
pub fn attached_channels(records: &Vec<ChannelRecord>) -> (devices: Vec<DriverDevice>)
    ensures
        device_views(devices@) == devices_of(records@),
{
    let mut devices: Vec<DriverDevice> = Vec::new();
    let mut index: usize = 0;
    proof {
        assert(device_views(devices@) =~= devices_of(records@.take(0)));
    }
    while index < records.len()
        invariant
            index <= records@.len(),
            device_views(devices@) == devices_of(records@.take(index as int)),
        decreases records@.len() - index,
    {
        let record = &records[index];
        let ghost before = devices@;
        proof {
            assert(records@.take(index + 1).drop_last() =~= records@.take(index as int));
        }
        if bus_and_index(record.channel_handle).is_some() && record.channel_condition
            & CONDITION_PRESENT != 0 {
            let device = DriverDevice {
                handle: record.channel_handle,
                device_type: record.device_type,
                controller_number: record.controller_number,
                device_name: decode_name(record.device_name.as_slice()),
                device_id: if record.device_id != 0 {
                    Some(record.device_id)
                } else {
                    None
                },
                channel_condition: record.channel_condition,
                fd_capable: record.device_features & FEATURE_FD_CAPABLE != 0,
            };
            devices.push(device);
            proof {
                assert(device_views(devices@) =~= device_views(before).push(device@));
            }
        }
        index += 1;
    }
    proof {
        assert(records@.take(index as int) =~= records@);
    }
    devices
}

/// The length in bytes of the buffer for `count` channel records.
pub fn discovery_buffer_length(count: u32) -> (result: Result<u32, DriverError>)
    ensures
        match result {
            Ok(length) => length == count * CHANNEL_INFORMATION_BYTES,
            Err(error) => {
                &&& count * CHANNEL_INFORMATION_BYTES > u32::MAX
                &&& error@ == DriverFault::Platform("PCAN discovery buffer length overflowed"@)
            },
        },
{
    let length: u64 = count as u64 * CHANNEL_INFORMATION_BYTES;
    if length > u32::MAX as u64 {
        return Err(DriverError::Platform("PCAN discovery buffer length overflowed".to_owned()));
    }
    Ok(length as u32)
}

/// The text in a buffer ends before its first zero byte, or with the buffer.
pub proof fn law_texts_end_at_the_first_zero(bytes: Seq<u8>)
    ensures
        ({
            let kept = before_zero(bytes);
            &&& kept.len() <= bytes.len()
            &&& forall|i: int|
                0 <= i < kept.len() ==> (#[trigger] kept[i]) == bytes[i] && kept[i] != 0
            &&& kept.len() < bytes.len() ==> bytes[kept.len() as int] == 0
        }),
    decreases bytes.len(),
{
    if bytes.len() > 0 && bytes[0] != 0 {
        let rest = bytes.skip(1);
        law_texts_end_at_the_first_zero(rest);
        let kept = before_zero(bytes);
        assert forall|i: int| 0 <= i < kept.len() implies (#[trigger] kept[i]) == bytes[i] && kept[i]
            != 0 by {
            if i > 0 {
                assert(before_zero(rest)[i - 1] == rest[i - 1]);
            }
        }
        if kept.len() < bytes.len() {
            assert(rest[kept.len() - 1] == bytes[kept.len() as int]);
        }
    }
}

/// The handles name sixteen places each on the USB, the PCI and the network bus, counted from zero.
pub proof fn law_handles_name_places(handle: u16)
    ensures
        address_of(handle) matches Some((bus, index)) ==> {
            &&& index < 16
            &&& bus == BusType::Usb ==> handle == 0x51 + index
            &&& bus == BusType::Pci ==> handle == 0x41 + index
            &&& bus == BusType::Lan ==> handle == 0x801 + index
        },
        0x41 <= handle <= 0x60 || 0x801 <= handle <= 0x810 ==> address_of(handle) is Some,
{
}

/// A channel is what its record says: the handle, the type, the controller and the condition as they
/// are, the vendor's identifier where it is not zero, and CAN FD by the first feature bit.
pub proof fn law_channels_are_as_recorded(record: ChannelRecord)
    ensures
        ({
            let device = device_of(record);
            &&& device.handle == record.channel_handle
            &&& device.device_type == record.device_type
            &&& device.controller_number == record.controller_number
            &&& device.channel_condition == record.channel_condition
            &&& device.device_id is Some <==> record.device_id != 0
            &&& device.device_id is Some ==> device.device_id->0 == record.device_id
            &&& device.fd_capable <==> record.device_features & 0x01 != 0
        }),
        offered(record) <==> address_of(record.channel_handle) is Some && record.channel_condition
            & 0x03 != 0,
{
}

/// A channel comes from a record of a channel that is there on a known bus.
pub open spec fn is_recorded(records: Seq<ChannelRecord>, device: DeviceView) -> bool {
    exists|i: int|
        {
            &&& 0 <= i < records.len()
            &&& device == device_of(#[trigger] records[i])
            &&& address_of(records[i].channel_handle) is Some
            &&& records[i].channel_condition & 0x03 != 0
        }
}

/// Every record of a channel that is there on a known bus becomes a channel, and no other does.
pub proof fn law_present_records_become_channels(records: Seq<ChannelRecord>)
    ensures
        forall|i: int|
            0 <= i < records.len() && address_of((#[trigger] records[i]).channel_handle) is Some
                && records[i].channel_condition & 0x03 != 0 ==> devices_of(records).contains(
                device_of(records[i]),
            ),
        forall|k: int|
            0 <= k < devices_of(records).len() ==> is_recorded(
                records,
                #[trigger] devices_of(records)[k],
            ),
    decreases records.len(),
{
    if records.len() > 0 {
        let front = records.drop_last();
        let before = devices_of(front);
        let found = devices_of(records);
        law_present_records_become_channels(front);
        assert forall|i: int|
            0 <= i < records.len() && address_of((#[trigger] records[i]).channel_handle) is Some
                && records[i].channel_condition & 0x03 != 0 implies found.contains(
            device_of(records[i]),
        ) by {
            if i < front.len() {
                assert(front[i] == records[i]);
                let k = choose|k: int| 0 <= k < before.len() && before[k] == device_of(front[i]);
                assert(found[k] == device_of(records[i]));
            } else {
                assert(found[before.len() as int] == device_of(records[i]));
            }
        }
        assert forall|k: int| 0 <= k < found.len() implies is_recorded(
            records,
            #[trigger] found[k],
        ) by {
            if k < before.len() {
                assert(found[k] == before[k]);
                assert(is_recorded(front, before[k]));
                let i = choose|i: int|
                    {
                        &&& 0 <= i < front.len()
                        &&& before[k] == device_of(#[trigger] front[i])
                        &&& address_of(front[i].channel_handle) is Some
                        &&& front[i].channel_condition & 0x03 != 0
                    };
                assert(records[i] == front[i]);
            } else {
                assert(found[k] == device_of(records[records.len() - 1]));
            }
        }
    }
}

/// The content of a channel is what its fields hold.
pub proof fn law_channels_are_what_they_hold(device: DriverDevice)
    ensures
        device@.handle == device.handle,
        device@.device_type == device.device_type,
        device@.controller_number == device.controller_number,
        device@.device_name == text::optional_text(device.device_name),
        device@.device_id == device.device_id,
        device@.channel_condition == device.channel_condition,
        device@.fd_capable == device.fd_capable,
{
}

} // verus!
