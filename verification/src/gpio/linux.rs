//! Lines of the Linux GPIO character devices.

use vstd::prelude::*;
use vstd::string::*;

use crate::error::{ErrorCategory, HalError, HalErrorView, HalResult};
use crate::gpio::session;
use crate::gpio::session::{
    check_lines, check_write, ensure_open, invalid, platform_error, unsupported, GpioBackend,
    GpioDirection, GpioEdge, GpioEdgeEvent, GpioEdgeRequest, GpioEdgeSet, GpioLineConfig,
};
use crate::resource::{
    Capability, DescriptorView, IdentityQuality, ResourceDescriptor, ResourceId,
    ResourceProperties, TransportKind,
};
use crate::text;
use crate::text::{decimal, encode};

verus! {

/// What is known about a chip.
#[derive(Clone, Debug, PartialEq, Eq)]
pub struct GpioChipMetadata {
    pub path: String,
    pub kernel_name: String,
    pub label: Option<String>,
    pub line_count: usize,
}

/// The identity of a chip.
#[derive(Clone, Debug, PartialEq, Eq)]
pub struct GpioIdentity {
    pub id: ResourceId,
    pub quality: IdentityQuality,
}

/// The text of a chip's identity.
pub open spec fn identity_text(kernel_name: Seq<char>) -> Seq<char> {
    "gpio:chip:"@ + text::encoded_name(kernel_name)
}

/// The identity of a chip: the name that the kernel gives it, wherever its device node is.
pub fn identity_from_metadata(metadata: &GpioChipMetadata) -> (result: HalResult<GpioIdentity>)
    ensures
        result is Ok,
        result->Ok_0.id@ == identity_text(metadata.kernel_name@),
        result->Ok_0.quality == IdentityQuality::Strong,
{
    let mut id = "gpio:chip:".to_owned();
    id.append(encode(metadata.kernel_name.as_str()).as_str());
    Ok(GpioIdentity { id: ResourceId::new(id), quality: IdentityQuality::Strong })
}

/// The adapter.
#[derive(Clone, Copy, Debug)]
pub struct LinuxGpioAdapter;

impl LinuxGpioAdapter {
    /// The adapter.
    pub fn new() -> (adapter: Self)
        ensures
            adapter == LinuxGpioAdapter,
    {
        LinuxGpioAdapter
    }

    /// The name of the adapter.
    pub fn adapter_name(&self) -> (name: &'static str)
        ensures
            name@ == "linux-gpio"@,
    {
        "linux-gpio"
    }
}

/// The error of a system without the devices.
pub fn unavailable(operation: &'static str) -> (error: HalError)
    ensures
        error@ == HalErrorView::new(
            "runtime.adapter.unavailable"@,
            ErrorCategory::Unavailable,
            operation@,
            false,
            "native Linux GPIO session support is not yet available"@,
        ),
{
    HalError::fixed(
        "runtime.adapter.unavailable",
        ErrorCategory::Unavailable,
        operation,
        false,
        "native Linux GPIO session support is not yet available",
    )
}

/// The name of a chip's device node: it starts with `gpiochip`.
pub open spec fn chip_name(name: Seq<char>) -> bool {
    name.len() >= 8 && name.take(8) == "gpiochip"@
}

/// Whether a name in the device directory is that of a chip.
pub fn is_chip_name(name: &str) -> (is_chip: bool)
    ensures
        is_chip == chip_name(name@),
{
    if name.unicode_len() < 8 {
        return false;
    }
    let start = name.substring_char(0, 8);
    proof {
        assert(name@.subrange(0, 8) =~= name@.take(8));
    }
    text::same_text(start, "gpiochip")
}

/// The descriptor of a chip.
pub open spec fn descriptor_of(
    path: Seq<char>,
    kernel_name: Seq<char>,
    label: Option<Seq<char>>,
    line_count: nat,
) -> DescriptorView {
    let always = Map::<Seq<char>, Seq<char>>::empty().insert("adapter"@, "linux-gpio"@).insert(
        "endpoint"@,
        path,
    ).insert("gpio.chip_name"@, kernel_name).insert(
        "gpio.line_count"@,
        text::decimal_digits(line_count),
    );
    DescriptorView {
        id: identity_text(kernel_name),
        endpoint: path,
        quality: IdentityQuality::Strong,
        transport: TransportKind::Gpio,
        properties: match label {
            Some(label) => always.insert("gpio.label"@, label),
            None => always,
        },
        capabilities: seq![Capability::GpioLines, Capability::GpioEdges],
    }
}

/// The descriptor of a chip.
pub fn descriptor_from_metadata(metadata: &GpioChipMetadata) -> (result: HalResult<
    ResourceDescriptor,
>)
    ensures
        result is Ok,
        result->Ok_0@ == descriptor_of(
            metadata.path@,
            metadata.kernel_name@,
            text::optional_text(metadata.label),
            metadata.line_count as nat,
        ),
{
    let identity = identity_from_metadata(metadata)?;
    let mut properties = ResourceProperties::new();
    properties.insert_text("adapter", "linux-gpio");
    properties.insert_text("endpoint", metadata.path.as_str());
    properties.insert_text("gpio.chip_name", metadata.kernel_name.as_str());
    properties.insert("gpio.line_count", decimal(metadata.line_count as u64));
    if let Some(label) = &metadata.label {
        properties.insert_text("gpio.label", label.as_str());
    }
    let mut capabilities: Vec<Capability> = Vec::new();
    capabilities.push(Capability::GpioLines);
    capabilities.push(Capability::GpioEdges);
    proof {
        assert(capabilities@ =~= seq![Capability::GpioLines, Capability::GpioEdges]);
    }
    Ok(
        ResourceDescriptor {
            id: identity.id,
            endpoint: metadata.path.clone(),
            quality: identity.quality,
            transport: TransportKind::Gpio,
            properties,
            capabilities,
        },
    )
}

/// The edges that a device is told to report.
#[derive(Clone, Copy, Debug, PartialEq, Eq, Structural)]
pub enum EdgeDetection {
    Rising,
    Falling,
    Both,
}

/// How lines are set up to report edges: as inputs with monotonic times.
#[derive(Clone, Copy, Debug, PartialEq, Eq, Structural)]
pub struct EdgeSettings {
    pub active_low: bool,
    pub detection: EdgeDetection,
    pub capacity: usize,
}

/// The edges that a device is told to report, if any are waited for.
pub open spec fn detection_of(edges: GpioEdgeSet) -> Option<EdgeDetection> {
    match (edges.rising, edges.falling) {
        (true, true) => Some(EdgeDetection::Both),
        (true, false) => Some(EdgeDetection::Rising),
        (false, true) => Some(EdgeDetection::Falling),
        (false, false) => None,
    }
}

/// How a wait for an edge is set up, or why it cannot be.
pub open spec fn edge_settings_of(
    closed: bool,
    config: GpioLineConfig,
    request: GpioEdgeRequest,
) -> Result<EdgeSettings, HalErrorView> {
    if closed {
        Err(session::closed_error("gpio.next_edge"@))
    } else if config.direction != GpioDirection::Input {
        Err(session::unsupported_error("gpio.next_edge"@, "GPIO edges require input lines"@))
    } else {
        match detection_of(request.edges) {
            None => Err(session::invalid_error("gpio.next_edge"@, "no edge selected"@)),
            Some(detection) => Ok(
                EdgeSettings {
                    active_low: config.active_low,
                    detection,
                    capacity: request.capacity,
                },
            ),
        }
    }
}

/// An edge as the device reports it. The number of a time in nanoseconds has up to 128 bits.
#[derive(Clone, Copy, Debug, PartialEq, Eq, Structural)]
pub struct RawEdge {
    pub rising: bool,
    pub timestamp_ns: u128,
    pub sequence: u64,
}

/// The event of an edge; a time beyond the largest number is the largest number.
pub open spec fn event_of(edge: RawEdge) -> GpioEdgeEvent {
    GpioEdgeEvent {
        edge: if edge.rising {
            GpioEdge::Rising
        } else {
            GpioEdge::Falling
        },
        timestamp_ns: if edge.timestamp_ns > u64::MAX {
            u64::MAX
        } else {
            edge.timestamp_ns as u64
        },
        sequence: edge.sequence,
    }
}

/// The value of a line in a reading.
pub open spec fn value_of(values: Seq<(u32, bool)>, line: u32) -> Option<bool>
    decreases values.len(),
{
    if values.len() == 0 {
        None
    } else if values[0].0 == line {
        Some(values[0].1)
    } else {
        value_of(values.skip(1), line)
    }
}

fn find_value(values: &Vec<(u32, bool)>, line: u32) -> (value: Option<bool>)
    ensures
        value == value_of(values@, line),
{
    let mut index: usize = 0;
    proof {
        assert(values@.skip(0) =~= values@);
    }
    while index < values.len()
        invariant
            index <= values@.len(),
            value_of(values@, line) == value_of(values@.skip(index as int), line),
        decreases values@.len() - index,
    {
        proof {
            assert(values@.skip(index as int).skip(1) =~= values@.skip(index + 1));
        }
        if values[index].0 == line {
            return Some(values[index].1);
        }
        index += 1;
    }
    None
}

/// A session on lines of a chip.
pub struct LinuxGpioSession {
    lines: Vec<u32>,
    config: GpioLineConfig,
    closed: bool,
}

/// The mathematical content of a [`LinuxGpioSession`].
#[verifier::ext_equal]
pub struct SessionView {
    pub lines: Seq<u32>,
    pub config: GpioLineConfig,
    pub closed: bool,
}

impl View for LinuxGpioSession {
    type V = SessionView;

    closed spec fn view(&self) -> SessionView {
        SessionView { lines: self.lines@, config: self.config, closed: self.closed }
    }
}

/// The values of the lines in the order of the lines, where the reading has all of them.
pub open spec fn has_all(lines: Seq<u32>, values: Seq<(u32, bool)>) -> bool {
    forall|i: int| 0 <= i < lines.len() ==> value_of(values, #[trigger] lines[i]) is Some
}

impl LinuxGpioSession {
    /// A session on lines that were requested.
    pub fn open(lines: Vec<u32>, config: GpioLineConfig) -> (result: HalResult<LinuxGpioSession>)
        ensures
            match result {
                Ok(session) => {
                    &&& lines@.len() > 0
                    &&& session@ == (SessionView { lines: lines@, config, closed: false })
                },
                Err(error) => {
                    &&& lines@.len() == 0
                    &&& error@ == session::invalid_error(
                        "gpio.open"@,
                        "at least one GPIO line is required"@,
                    )
                },
            },
    {
        check_lines(&lines)?;
        Ok(LinuxGpioSession { lines, config, closed: false })
    }

    /// The requested lines.
    pub fn lines(&self) -> (lines: &Vec<u32>)
        ensures
            lines@ == self@.lines,
    {
        &self.lines
    }

    /// How the lines were requested.
    pub fn config(&self) -> (config: GpioLineConfig)
        ensures
            config == self@.config,
    {
        self.config
    }

    /// Refuses a reading on a closed session.
    pub fn check_read(&self) -> (result: HalResult<()>)
        ensures
            match result {
                Ok(()) => !self@.closed,
                Err(error) => self@.closed && error@ == session::closed_error("gpio.read"@),
            },
    {
        ensure_open(self.closed, "gpio.read")
    }

    /// The values of the lines, in the order in which the lines were requested.
    pub fn read(&self, values: &Vec<(u32, bool)>) -> (result: HalResult<Vec<bool>>)
        ensures
            match result {
                Ok(read) => {
                    &&& !self@.closed
                    &&& has_all(self@.lines, values@)
                    &&& read@ == self@.lines.map(|i: int, line: u32| value_of(values@, line)->0)
                },
                Err(error) => if self@.closed {
                    error@ == session::closed_error("gpio.read"@)
                } else {
                    &&& !has_all(self@.lines, values@)
                    &&& error@ == session::invalid_error(
                        "gpio.read"@,
                        "requested GPIO line disappeared"@,
                    )
                },
            },
    {
        ensure_open(self.closed, "gpio.read")?;
        let mut read: Vec<bool> = Vec::new();
        let mut index: usize = 0;
        while index < self.lines.len()
            invariant
                !self@.closed,
                index <= self.lines@.len(),
                read@.len() == index,
                forall|i: int|
                    0 <= i < index ==> value_of(values@, #[trigger] self.lines@[i]) == Some(
                        read@[i],
                    ),
            decreases self.lines@.len() - index,
        {
            match find_value(values, self.lines[index]) {
                Some(value) => read.push(value),
                None => {
                    proof {
                        assert(value_of(values@, self.lines@[index as int]) is None);
                    }
                    return Err(invalid("gpio.read", "requested GPIO line disappeared"));
                },
            }
            index += 1;
        }
        proof {
            assert(read@ =~= self@.lines.map(|i: int, line: u32| value_of(values@, line)->0));
        }
        Ok(read)
    }

    /// Checks that values can be written to the lines.
    pub fn check_write(&self, values: usize) -> (result: HalResult<()>)
        ensures
            ({
                let refusal = session::write_refusal(
                    self@.closed,
                    self@.config,
                    self@.lines.len(),
                    values as nat,
                );
                match result {
                    Ok(()) => refusal is None,
                    Err(error) => refusal == Some(error@),
                }
            }),
    {
        check_write(self.closed, &self.config, self.lines.len(), values)
    }

    /// How a wait for an edge is set up.
    pub fn edge_settings(&self, request: &GpioEdgeRequest) -> (result: HalResult<EdgeSettings>)
        ensures
            match result {
                Ok(settings) => edge_settings_of(self@.closed, self@.config, *request) == Ok::<
                    EdgeSettings,
                    HalErrorView,
                >(settings),
                Err(error) => edge_settings_of(self@.closed, self@.config, *request) == Err::<
                    EdgeSettings,
                    HalErrorView,
                >(error@),
            },
    {
        ensure_open(self.closed, "gpio.next_edge")?;
        if self.config.direction != GpioDirection::Input {
            return Err(unsupported("gpio.next_edge", "GPIO edges require input lines"));
        }
        let detection = match (request.edges.rising, request.edges.falling) {
            (true, true) => EdgeDetection::Both,
            (true, false) => EdgeDetection::Rising,
            (false, true) => EdgeDetection::Falling,
            (false, false) => {
                return Err(invalid("gpio.next_edge", "no edge selected"));
            },
        };
        Ok(
            EdgeSettings {
                active_low: self.config.active_low,
                detection,
                capacity: request.capacity,
            },
        )
    }

    /// What a wait for an edge gives: nothing where none came in time. A device that wakes the
    /// waiter has to have an edge.
    pub fn next_edge(&self, woken: bool, edge: Option<RawEdge>) -> (result: HalResult<
        Option<GpioEdgeEvent>,
    >)
        ensures
            if !woken {
                result == HalResult::<Option<GpioEdgeEvent>>::Ok(None)
            } else {
                match edge {
                    Some(edge) => result == HalResult::<Option<GpioEdgeEvent>>::Ok(
                        Some(event_of(edge)),
                    ),
                    None => result is Err && result->Err_0@ == session::platform_failure(
                        GpioBackend::Linux,
                        "gpio.next_edge"@,
                        "edge wakeup without event"@,
                    ),
                }
            },
    {
        if !woken {
            return Ok(None);
        }
        match edge {
            Some(edge) => {
                let kind = if edge.rising {
                    GpioEdge::Rising
                } else {
                    GpioEdge::Falling
                };
                let timestamp_ns: u64 = if edge.timestamp_ns > u64::MAX as u128 {
                    u64::MAX
                } else {
                    edge.timestamp_ns as u64
                };
                Ok(Some(GpioEdgeEvent { edge: kind, timestamp_ns, sequence: edge.sequence }))
            },
            None => Err(
                platform_error(GpioBackend::Linux, "gpio.next_edge", "edge wakeup without event"),
            ),
        }
    }

    /// Closes the session; closing it again changes nothing.
    pub fn close(&mut self) -> (result: HalResult<()>)
        ensures
            result is Ok,
            final(self)@ == (SessionView { closed: true, ..old(self)@ }),
    {
        self.closed = true;
        Ok(())
    }
}

/// The identity of a chip does not depend on where its device node is.
pub proof fn law_identity_is_independent_of_the_path(
    first_path: Seq<char>,
    second_path: Seq<char>,
    kernel_name: Seq<char>,
    label: Option<Seq<char>>,
    line_count: nat,
)
    ensures
        descriptor_of(first_path, kernel_name, label, line_count).id == descriptor_of(
            second_path,
            kernel_name,
            label,
            line_count,
        ).id,
{
}

/// The value of a line is the first that the reading has for that very line, and there is none only
/// where the reading does not name the line.
pub proof fn law_values_belong_to_their_lines(values: Seq<(u32, bool)>, line: u32)
    ensures
        value_of(values, line) matches Some(value) ==> exists|i: int|
            {
                &&& 0 <= i < values.len()
                &&& (#[trigger] values[i]) == (line, value)
                &&& forall|j: int| 0 <= j < i ==> (#[trigger] values[j]).0 != line
            },
        value_of(values, line) is None <==> forall|i: int|
            0 <= i < values.len() ==> (#[trigger] values[i]).0 != line,
    decreases values.len(),
{
    if values.len() > 0 {
        if values[0].0 == line {
            assert(values[0] == (line, values[0].1));
        } else {
            let rest = values.skip(1);
            law_values_belong_to_their_lines(rest, line);
            if let Some(value) = value_of(values, line) {
                let i = choose|i: int|
                    {
                        &&& 0 <= i < rest.len()
                        &&& (#[trigger] rest[i]) == (line, value)
                        &&& forall|j: int| 0 <= j < i ==> (#[trigger] rest[j]).0 != line
                    };
                assert(values[i + 1] == (line, value));
                assert forall|j: int| 0 <= j < i + 1 implies (#[trigger] values[j]).0 != line by {
                    if j > 0 {
                        assert(rest[j - 1] == values[j]);
                    }
                }
            } else {
                assert forall|i: int| 0 <= i < values.len() implies (#[trigger] values[i]).0
                    != line by {
                    if i > 0 {
                        assert(rest[i - 1] == values[i]);
                    }
                }
            }
            if forall|i: int| 0 <= i < values.len() ==> (#[trigger] values[i]).0 != line {
                assert forall|i: int| 0 <= i < rest.len() implies (#[trigger] rest[i]).0 != line by {
                    assert(rest[i] == values[i + 1]);
                }
            }
        }
    }
}

/// An edge is told as it was: rising or falling, with its number and its time, where the time fits.
pub proof fn law_edges_are_told_as_they_were(edge: RawEdge)
    ensures
        event_of(edge).edge == GpioEdge::Rising <==> edge.rising,
        event_of(edge).edge == GpioEdge::Falling <==> !edge.rising,
        event_of(edge).sequence == edge.sequence,
        edge.timestamp_ns <= u64::MAX ==> event_of(edge).timestamp_ns == edge.timestamp_ns,
        edge.timestamp_ns > u64::MAX ==> event_of(edge).timestamp_ns == u64::MAX,
{
}

/// A wait for edges is set up exactly on the inputs of an open session, for the edges that are asked
/// for, with the capacity that is asked for and the polarity of the lines.
pub proof fn law_waits_are_set_up_as_asked(
    closed: bool,
    config: GpioLineConfig,
    request: GpioEdgeRequest,
)
    ensures
        edge_settings_of(closed, config, request) is Ok <==> !closed && config.direction
            == GpioDirection::Input && (request.edges.rising || request.edges.falling),
        edge_settings_of(closed, config, request) matches Ok(settings) ==> {
            &&& settings.active_low == config.active_low
            &&& settings.capacity == request.capacity
            &&& request.edges.rising <==> settings.detection == EdgeDetection::Rising
                || settings.detection == EdgeDetection::Both
            &&& request.edges.falling <==> settings.detection == EdgeDetection::Falling
                || settings.detection == EdgeDetection::Both
        },
{
}

/// A chip is offered under the name that the kernel gives it, at its device node, with its number of
/// lines and its label where it has one, for values and edges.
pub proof fn law_chip_is_offered_as_it_is(
    path: Seq<char>,
    kernel_name: Seq<char>,
    label: Option<Seq<char>>,
    line_count: nat,
)
    ensures
        ({
            let offered = descriptor_of(path, kernel_name, label, line_count);
            &&& offered.id == "gpio:chip:"@ + text::encoded_name(kernel_name)
            &&& offered.quality == IdentityQuality::Strong
            &&& offered.endpoint == path
            &&& offered.transport == TransportKind::Gpio
            &&& offered.capabilities.contains(Capability::GpioLines)
            &&& offered.capabilities.contains(Capability::GpioEdges)
            &&& offered.properties["adapter"@] == "linux-gpio"@
            &&& offered.properties["endpoint"@] == path
            &&& offered.properties["gpio.chip_name"@] == kernel_name
            &&& offered.properties["gpio.line_count"@] == text::decimal_digits(line_count)
            &&& offered.properties.dom().contains("gpio.label"@) <==> label is Some
            &&& label is Some ==> offered.properties["gpio.label"@] == label->0
        }),
{
    reveal_strlit("adapter");
    reveal_strlit("endpoint");
    reveal_strlit("gpio.chip_name");
    reveal_strlit("gpio.line_count");
    reveal_strlit("gpio.label");
    assert("adapter"@.len() == 7);
    assert("endpoint"@.len() == 8);
    assert("gpio.chip_name"@.len() == 14);
    assert("gpio.line_count"@.len() == 15);
    assert("gpio.label"@.len() == 10);
    let offered = descriptor_of(path, kernel_name, label, line_count).capabilities;
    assert(offered[0] == Capability::GpioLines);
    assert(offered[1] == Capability::GpioEdges);
}

} // verus!
