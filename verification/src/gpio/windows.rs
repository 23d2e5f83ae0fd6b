//! Lines of the default controller of a Windows system.

use vstd::prelude::*;
use vstd::string::*;

use crate::error::{ErrorCategory, HalError, HalErrorView, HalResult};
use crate::gpio::linux::SessionView;
use crate::gpio::session;
use crate::gpio::session::{
    check_lines, check_write, ensure_open, invalid, platform_error, unsupported, GpioBackend,
    GpioEdgeEvent, GpioLineConfig,
};
use crate::resource;
use crate::resource::{
    resolve_resource, Capability, DescriptorView, IdentityQuality, ResourceDescriptor, ResourceId,
    ResourceProperties, TransportKind,
};
use crate::text;
use crate::text::signed_decimal;

verus! {

/// The adapter.
#[derive(Clone, Copy, Debug)]
pub struct WindowsGpioAdapter;

/// The descriptor of the default controller. The system has no lasting evidence of which
/// controller it is and no monotonic times of edges, so the identity is weak and edges are not
/// offered.
pub open spec fn descriptor_of(line_count: i32) -> DescriptorView {
    DescriptorView {
        id: "gpio:windows:default"@,
        endpoint: "winrt://default"@,
        quality: IdentityQuality::Weak,
        transport: TransportKind::Gpio,
        properties: Map::<Seq<char>, Seq<char>>::empty().insert(
            "adapter"@,
            "windows-gpio"@,
        ).insert("endpoint"@, "winrt://default"@).insert(
            "gpio.line_count"@,
            text::signed_digits(line_count as int),
        ).insert("gpio.identity_scope"@, "default-controller"@),
        capabilities: seq![Capability::GpioLines],
    }
}

/// The error of a system without a controller.
pub open spec fn unavailable_error(operation: Seq<char>) -> HalErrorView {
    HalErrorView::new(
        "runtime.adapter.unavailable"@,
        ErrorCategory::Unavailable,
        operation,
        false,
        "Windows GPIO is unavailable on this platform or controller"@,
    )
}

/// The error of a system without a controller.
pub fn unavailable(operation: &'static str) -> (error: HalError)
    ensures
        error@ == unavailable_error(operation@),
{
    HalError::fixed(
        "runtime.adapter.unavailable",
        ErrorCategory::Unavailable,
        operation,
        false,
        "Windows GPIO is unavailable on this platform or controller",
    )
}

impl WindowsGpioAdapter {
    /// The adapter.
    pub fn new() -> (adapter: Self)
        ensures
            adapter == WindowsGpioAdapter,
    {
        WindowsGpioAdapter
    }

    /// The name of the adapter.
    pub fn adapter_name(&self) -> (name: &'static str)
        ensures
            name@ == "windows-gpio"@,
    {
        "windows-gpio"
    }

    /// The default controller, given its number of lines or why it has none to tell. Without a
    /// Windows system there is no answer, and nothing is discovered.
    pub fn enumerate(&self, line_count: Option<Result<i32, String>>) -> (result: HalResult<
        Vec<ResourceDescriptor>,
    >)
        ensures
            match line_count {
                Some(Ok(count)) => {
                    &&& result is Ok
                    &&& result->Ok_0@.len() == 1
                    &&& result->Ok_0@[0]@ == descriptor_of(count)
                },
                Some(Err(reason)) => result is Err && result->Err_0@ == session::platform_failure(
                    GpioBackend::Windows,
                    "gpio.enumerate"@,
                    reason@,
                ),
                None => result is Err && result->Err_0@ == unavailable_error("gpio.enumerate"@),
            },
    {
        let count: i32 = match line_count {
            None => {
                return Err(unavailable("gpio.enumerate"));
            },
            Some(Err(reason)) => {
                return Err(
                    platform_error(GpioBackend::Windows, "gpio.enumerate", reason.as_str()),
                );
            },
            Some(Ok(count)) => count,
        };
        let mut properties = ResourceProperties::new();
        properties.insert_text("adapter", "windows-gpio");
        properties.insert_text("endpoint", "winrt://default");
        properties.insert("gpio.line_count", signed_decimal(count));
        properties.insert_text("gpio.identity_scope", "default-controller");
        let mut capabilities: Vec<Capability> = Vec::new();
        capabilities.push(Capability::GpioLines);
        proof {
            assert(capabilities@ =~= seq![Capability::GpioLines]);
        }
        let mut descriptors: Vec<ResourceDescriptor> = Vec::new();
        descriptors.push(
            ResourceDescriptor {
                id: ResourceId::new("gpio:windows:default".to_owned()),
                endpoint: "winrt://default".to_owned(),
                quality: IdentityQuality::Weak,
                transport: TransportKind::Gpio,
                properties,
                capabilities,
            },
        );
        Ok(descriptors)
    }

    /// Begins to open lines of the selected controller, given what enumerating it told. Without a
    /// Windows system there is no answer, and nothing is opened. The next step is to get the
    /// controller.
    pub fn open(
        &self,
        id: &ResourceId,
        lines: Vec<u32>,
        config: GpioLineConfig,
        line_count: Option<Result<i32, String>>,
    ) -> (result: HalResult<WindowsGpioOpening>)
        ensures
            match result {
                Ok(opening) => {
                    &&& open_refusal(id@, lines@, line_count) is None
                    &&& opening@ == (OpeningView {
                        descriptor: descriptor_of(line_count->0->Ok_0),
                        lines: lines@,
                        config,
                        opened: None,
                    })
                },
                Err(error) => open_refusal(id@, lines@, line_count) == Some(error@),
            },
    {
        if line_count.is_none() {
            return Err(unavailable("gpio.open").with_resource_id(id.copy()));
        }
        check_lines(&lines)?;
        let mut descriptors = self.enumerate(line_count)?;
        proof {
            let descriptor = descriptors@[0]@;
            assert(descriptor.capabilities[0] == Capability::GpioLines);
        }
        let position: usize = resolve_resource(
            &descriptors,
            id,
            Capability::GpioLines,
            "gpio.open",
        )?;
        let descriptor = descriptors.remove(position);
        Ok(WindowsGpioOpening { descriptor, lines, config, opened: None })
    }
}

/// Why lines cannot be opened: the first reason in order.
pub open spec fn open_refusal(
    id: Seq<char>,
    lines: Seq<u32>,
    line_count: Option<Result<i32, String>>,
) -> Option<HalErrorView> {
    match line_count {
        None => Some(unavailable_error("gpio.open"@).about(id)),
        Some(answer) => if lines.len() == 0 {
            Some(
                session::invalid_error("gpio.open"@, "at least one GPIO line is required"@),
            )
        } else {
            match answer {
                Err(reason) => Some(
                    session::platform_failure(GpioBackend::Windows, "gpio.enumerate"@, reason@),
                ),
                Ok(count) => if id != descriptor_of(count).id {
                    Some(resource::not_found_error("gpio.open"@, id))
                } else {
                    None
                },
            }
        },
    }
}

/// Lines that are being opened, one pin after the other.
pub struct WindowsGpioOpening {
    descriptor: ResourceDescriptor,
    lines: Vec<u32>,
    config: GpioLineConfig,
    opened: Option<usize>,
}

/// The mathematical content of a [`WindowsGpioOpening`].
#[verifier::ext_equal]
pub struct OpeningView {
    pub descriptor: DescriptorView,
    pub lines: Seq<u32>,
    pub config: GpioLineConfig,
    /// How many pins were open before the one that is being opened; none while the controller is
    /// still to be had.
    pub opened: Option<nat>,
}

impl OpeningView {
    /// How many pins are open once the step has succeeded.
    pub open spec fn open_after(self) -> nat {
        match self.opened {
            None => 0,
            Some(opened) => opened + 1,
        }
    }
}

impl View for WindowsGpioOpening {
    type V = OpeningView;

    closed spec fn view(&self) -> OpeningView {
        OpeningView {
            descriptor: self.descriptor@,
            lines: self.lines@,
            config: self.config,
            opened: match self.opened {
                None => None,
                Some(opened) => Some(opened as nat),
            },
        }
    }
}

/// What opening lines asks for next.
pub enum OpenStep {
    /// Open the pin with the number, and give it the direction and the first value of the
    /// configuration.
    Pin(WindowsGpioOpening, i32),
    /// Every line has its pin.
    Complete(ResourceDescriptor, WindowsGpioSession),
    /// Close the pins that are open and report the error.
    Refused(HalError),
}

impl WindowsGpioOpening {
    /// The pin that is being opened is that of a line.
    #[verifier::type_invariant]
    closed spec fn opens_a_line(self) -> bool {
        &&& self.lines@.len() > 0
        &&& self.opened is Some ==> self.opened->0 < self.lines@.len()
    }

    /// How the lines are opened.
    pub fn config(&self) -> (config: GpioLineConfig)
        ensures
            config == self@.config,
    {
        self.config
    }

    /// Takes how getting the controller or opening a pin ended. The number of a line is looked at
    /// when its turn has come.
    pub fn advance(self, outcome: Result<(), String>) -> (step: OpenStep)
        ensures
            match outcome {
                Err(reason) => step is Refused && step->Refused_0@ == session::platform_failure(
                    GpioBackend::Windows,
                    "gpio.open"@,
                    reason@,
                ),
                Ok(()) => {
                    let opened = self@.open_after();
                    if opened >= self@.lines.len() {
                        &&& step is Complete
                        &&& step->Complete_0@ == self@.descriptor
                        &&& step->Complete_1@ == (SessionView {
                            lines: self@.lines,
                            config: self@.config,
                            closed: false,
                        })
                    } else if self@.lines[opened as int] > i32::MAX {
                        &&& step is Refused
                        &&& step->Refused_0@ == session::invalid_error(
                            "gpio.open"@,
                            "GPIO line number exceeds i32"@,
                        )
                    } else {
                        &&& step is Pin
                        &&& step->Pin_0@ == (OpeningView { opened: Some(opened), ..self@ })
                        &&& step->Pin_1 == self@.lines[opened as int]
                    }
                },
            },
    {
        proof {
            use_type_invariant(&self);
        }
        if let Err(reason) = outcome {
            return OpenStep::Refused(
                platform_error(GpioBackend::Windows, "gpio.open", reason.as_str()),
            );
        }
        let count: usize = self.lines.len();
        let opened: usize = match self.opened {
            None => 0,
            Some(opened) => opened + 1,
        };
        if opened >= count {
            return OpenStep::Complete(
                self.descriptor,
                WindowsGpioSession::open(self.lines, self.config),
            );
        }
        let line: u32 = self.lines[opened];
        if line > i32::MAX as u32 {
            return OpenStep::Refused(invalid("gpio.open", "GPIO line number exceeds i32"));
        }
        OpenStep::Pin(
            WindowsGpioOpening {
                descriptor: self.descriptor,
                lines: self.lines,
                config: self.config,
                opened: Some(opened),
            },
            line as i32,
        )
    }
}

/// A session on lines of the default controller.
pub struct WindowsGpioSession {
    lines: Vec<u32>,
    config: GpioLineConfig,
    closed: bool,
}

impl View for WindowsGpioSession {
    type V = SessionView;

    closed spec fn view(&self) -> SessionView {
        SessionView {
            lines: self.lines@,
            config: self.config,
            closed: self.closed,
        }
    }
}

impl WindowsGpioSession {
    /// A session on lines whose pins are open.
    pub fn open(lines: Vec<u32>, config: GpioLineConfig) -> (session: WindowsGpioSession)
        ensures
            session@.lines == lines@,
            session@.config == config,
            !session@.closed,
    {
        WindowsGpioSession { lines, config, closed: false }
    }

    /// The opened lines.
    pub fn lines(&self) -> (lines: &Vec<u32>)
        ensures
            lines@ == self@.lines,
    {
        &self.lines
    }

    /// How the lines were opened.
    pub fn config(&self) -> (config: GpioLineConfig)
        ensures
            config == self@.config,
    {
        self.config
    }

    /// Refuses a reading on a closed session.
    pub fn check_read(&self) -> (result: HalResult<()>)
        ensures
            match result {
                Ok(()) => !self@.closed,
                Err(error) => self@.closed && error@ == session::closed_error("gpio.read"@),
            },
    {
        ensure_open(self.closed, "gpio.read")
    }

    /// Checks that values can be written to the lines.
    pub fn check_write(&self, values: usize) -> (result: HalResult<()>)
        ensures
            ({
                let refusal = session::write_refusal(
                    self@.closed,
                    self@.config,
                    self@.lines.len(),
                    values as nat,
                );
                match result {
                    Ok(()) => refusal is None,
                    Err(error) => refusal == Some(error@),
                }
            }),
    {
        check_write(self.closed, &self.config, self.lines.len(), values)
    }

    /// Refuses to wait for an edge: there are no monotonic times to report.
    pub fn next_edge(&self) -> (result: HalResult<Option<GpioEdgeEvent>>)
        ensures
            result is Err,
            result->Err_0@ == if self@.closed {
                session::closed_error("gpio.next_edge"@)
            } else {
                session::unsupported_error(
                    "gpio.next_edge"@,
                    "WinRT GPIO does not provide monotonic edge timestamps"@,
                )
            },
    {
        ensure_open(self.closed, "gpio.next_edge")?;
        Err(
            unsupported("gpio.next_edge", "WinRT GPIO does not provide monotonic edge timestamps"),
        )
    }

    /// Closes the session, whatever closing the pins gives.
    pub fn close(&mut self, pins: Result<(), String>) -> (result: HalResult<()>)
        ensures
            final(self)@ == (SessionView { closed: true, ..old(self)@ }),
            match pins {
                Ok(()) => result is Ok,
                Err(reason) => result is Err && result->Err_0@ == session::platform_failure(
                    GpioBackend::Windows,
                    "gpio.close"@,
                    reason@,
                ),
            },
    {
        self.closed = true;
        match pins {
            Ok(()) => Ok(()),
            Err(reason) => Err(
                platform_error(GpioBackend::Windows, "gpio.close", reason.as_str()),
            ),
        }
    }
}

/// The default controller is offered for values and not for edges, under a weak identity of its own.
/// Lines are opened exactly where some are named, the controller answers and it is the selected one.
pub proof fn law_only_the_default_controller_is_opened(
    id: Seq<char>,
    lines: Seq<u32>,
    line_count: Option<Result<i32, String>>,
    count: i32,
)
    ensures
        descriptor_of(count).id == "gpio:windows:default"@,
        descriptor_of(count).endpoint == "winrt://default"@,
        descriptor_of(count).quality == IdentityQuality::Weak,
        descriptor_of(count).transport == TransportKind::Gpio,
        descriptor_of(count).capabilities.contains(Capability::GpioLines),
        !descriptor_of(count).capabilities.contains(Capability::GpioEdges),
        descriptor_of(count).properties["gpio.line_count"@] == text::signed_digits(count as int),
        open_refusal(id, lines, line_count) is None <==> lines.len() > 0 && line_count is Some
            && line_count->0 is Ok && id == "gpio:windows:default"@,
{
    reveal_strlit("gpio.line_count");
    reveal_strlit("gpio.identity_scope");
    assert("gpio.line_count"@.len() == 15);
    assert("gpio.identity_scope"@.len() == 19);
    assert(descriptor_of(count).capabilities[0] == Capability::GpioLines);
}

} // verus!
