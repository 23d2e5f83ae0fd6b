//! Structured errors and the plain outcome of an operating-system call.

use vstd::prelude::*;

use crate::resource::ResourceId;

verus! {

/// What a caller can do about an error.
#[derive(Clone, Copy, Debug, PartialEq, Eq, Structural)]
pub enum ErrorCategory {
    InvalidArgument,
    NotFound,
    Conflict,
    Unavailable,
    Internal,
}

/// A structured error: a stable name, a category, the operation that failed, whether a retry can
/// help, a diagnostic message and optional evidence.
#[derive(Clone, Debug, PartialEq, Eq)]
pub struct HalError {
    name: &'static str,
    category: ErrorCategory,
    operation: &'static str,
    retryable: bool,
    message: String,
    resource_id: Option<ResourceId>,
    platform_code: Option<String>,
    vendor_code: Option<String>,
    context: Vec<(&'static str, &'static str)>,
}

/// The result of a fallible operation.
pub type HalResult<T> = Result<T, HalError>;

/// The mathematical content of a [`HalError`].
#[verifier::ext_equal]
pub struct HalErrorView {
    pub name: Seq<char>,
    pub category: ErrorCategory,
    pub operation: Seq<char>,
    pub retryable: bool,
    pub message: Seq<char>,
    pub resource_id: Option<Seq<char>>,
    pub platform_code: Option<Seq<char>>,
    pub vendor_code: Option<Seq<char>>,
    pub context: Seq<(Seq<char>, Seq<char>)>,
}

impl HalErrorView {
    /// An error without evidence.
    pub open spec fn new(
        name: Seq<char>,
        category: ErrorCategory,
        operation: Seq<char>,
        retryable: bool,
        message: Seq<char>,
    ) -> Self {
        HalErrorView {
            name,
            category,
            operation,
            retryable,
            message,
            resource_id: None,
            platform_code: None,
            vendor_code: None,
            context: Seq::empty(),
        }
    }

    /// The same error about a resource.
    pub open spec fn about(self, resource_id: Seq<char>) -> Self {
        HalErrorView { resource_id: Some(resource_id), ..self }
    }
}

impl View for HalError {
    type V = HalErrorView;

    closed spec fn view(&self) -> HalErrorView {
        HalErrorView {
            name: self.name@,
            category: self.category,
            operation: self.operation@,
            retryable: self.retryable,
            message: self.message@,
            resource_id: match self.resource_id {
                Some(id) => Some(id@),
                None => None,
            },
            platform_code: match self.platform_code {
                Some(code) => Some(code@),
                None => None,
            },
            vendor_code: match self.vendor_code {
                Some(code) => Some(code@),
                None => None,
            },
            context: Seq::new(
                self.context@.len(),
                |i: int| (self.context@[i].0@, self.context@[i].1@),
            ),
        }
    }
}

impl HalError {
    /// An error without evidence.
    pub fn new(
        name: &'static str,
        category: ErrorCategory,
        operation: &'static str,
        retryable: bool,
        message: String,
    ) -> (error: HalError)
        ensures
            error@ == HalErrorView::new(name@, category, operation@, retryable, message@),
    {
        let error = HalError {
            name,
            category,
            operation,
            retryable,
            message,
            resource_id: None,
            platform_code: None,
            vendor_code: None,
            context: Vec::new(),
        };
        proof {
            assert(error@.context =~= Seq::empty());
        }
        error
    }

    /// An error without evidence whose message is fixed.
    pub fn fixed(
        name: &'static str,
        category: ErrorCategory,
        operation: &'static str,
        retryable: bool,
        message: &str,
    ) -> (error: HalError)
        ensures
            error@ == HalErrorView::new(name@, category, operation@, retryable, message@),
    {
        HalError::new(name, category, operation, retryable, message.to_owned())
    }

    /// The same error about a resource.
    pub fn with_resource_id(self, resource_id: ResourceId) -> (error: HalError)
        ensures
            error@ == self@.about(resource_id@),
    {
        let mut error = self;
        error.resource_id = Some(resource_id);
        error
    }

    /// The same error with the operating system's code.
    pub fn with_platform_code(self, code: String) -> (error: HalError)
        ensures
            error@ == (HalErrorView { platform_code: Some(code@), ..self@ }),
    {
        let mut error = self;
        error.platform_code = Some(code);
        error
    }

    /// The same error with the vendor's code.
    pub fn with_vendor_code(self, code: String) -> (error: HalError)
        ensures
            error@ == (HalErrorView { vendor_code: Some(code@), ..self@ }),
    {
        let mut error = self;
        error.vendor_code = Some(code);
        error
    }

    /// The same error with one more entry of context.
    pub fn with_context(self, key: &'static str, value: &'static str) -> (error: HalError)
        ensures
            error@ == (HalErrorView { context: self@.context.push((key@, value@)), ..self@ }),
    {
        let mut error = self;
        error.context.push((key, value));
        proof {
            assert(error@.context =~= self@.context.push((key@, value@)));
        }
        error
    }

    /// The stable name.
    pub fn name(&self) -> (name: &'static str)
        ensures
            name@ == self@.name,
    {
        self.name
    }

    /// The category.
    pub fn category(&self) -> (category: ErrorCategory)
        ensures
            category == self@.category,
    {
        self.category
    }

    /// The operation that failed.
    pub fn operation(&self) -> (operation: &'static str)
        ensures
            operation@ == self@.operation,
    {
        self.operation
    }

    /// Whether a retry can help.
    pub fn retryable(&self) -> (retryable: bool)
        ensures
            retryable == self@.retryable,
    {
        self.retryable
    }

    /// The diagnostic message.
    pub fn debug_message(&self) -> (message: &str)
        ensures
            message@ == self@.message,
    {
        self.message.as_str()
    }

    /// The resource that the error is about.
    pub fn resource_id(&self) -> (id: Option<&ResourceId>)
        ensures
            match id {
                Some(id) => self@.resource_id == Some(id@),
                None => self@.resource_id is None,
            },
    {
        match &self.resource_id {
            Some(id) => Some(id),
            None => None,
        }
    }

    /// The operating system's code.
    pub fn platform_code(&self) -> (code: Option<&str>)
        ensures
            match code {
                Some(code) => self@.platform_code == Some(code@),
                None => self@.platform_code is None,
            },
    {
        match &self.platform_code {
            Some(code) => Some(code.as_str()),
            None => None,
        }
    }

    /// The vendor's code.
    pub fn vendor_code(&self) -> (code: Option<&str>)
        ensures
            match code {
                Some(code) => self@.vendor_code == Some(code@),
                None => self@.vendor_code is None,
            },
    {
        match &self.vendor_code {
            Some(code) => Some(code.as_str()),
            None => None,
        }
    }

    /// The entries of context.
    pub fn context(&self) -> (context: &Vec<(&'static str, &'static str)>)
        ensures
            context@.len() == self@.context.len(),
            forall|i: int|
                0 <= i < context@.len() ==> (#[trigger] context@[i].0@, context@[i].1@)
                    == self@.context[i],
    {
        &self.context
    }
}

/// The contents of a result.
pub open spec fn outcome<T>(result: HalResult<T>) -> Result<T, HalErrorView> {
    match result {
        Ok(value) => Ok(value),
        Err(error) => Err(error@),
    }
}

/// A result whose error is about a resource.
pub open spec fn scoped<T>(result: Result<T, HalErrorView>, id: Seq<char>) -> Result<
    T,
    HalErrorView,
> {
    match result {
        Ok(value) => Ok(value),
        Err(error) => Err(error.about(id)),
    }
}

/// The kind of an input/output failure.
#[derive(Clone, Copy, Debug, PartialEq, Eq, Structural)]
pub enum IoErrorKind {
    NotFound,
    PermissionDenied,
    ConnectionReset,
    ConnectionAborted,
    NotConnected,
    AddrInUse,
    AlreadyExists,
    WouldBlock,
    InvalidInput,
    InvalidData,
    TimedOut,
    Interrupted,
    BrokenPipe,
    UnexpectedEof,
    Unsupported,
    OutOfMemory,
    Other,
}

/// An input/output failure as plain values.
#[derive(Clone, Debug, PartialEq, Eq)]
pub struct IoError {
    pub kind: IoErrorKind,
    pub raw_os_error: Option<i32>,
    pub message: String,
}

impl IoError {
    /// A failure that the library itself found.
    pub fn new(kind: IoErrorKind, message: &str) -> (error: IoError)
        ensures
            error.kind == kind,
            error.raw_os_error is None,
            error.message@ == message@,
    {
        IoError { kind, raw_os_error: None, message: message.to_owned() }
    }

    /// The kind of the failure.
    pub fn kind(&self) -> (kind: IoErrorKind)
        ensures
            kind == self.kind,
    {
        self.kind
    }

    /// Whether this is the failure of `kind` with `message` that the library itself found.
    pub open spec fn is_found(self, kind: IoErrorKind, message: Seq<char>) -> bool {
        &&& self.kind == kind
        &&& self.raw_os_error is None
        &&& self.message@ == message
    }
}

/// A new error says what it was given and nothing else, and an error about a resource is otherwise the
/// same.
pub proof fn law_errors_say_what_they_were_given(
    name: Seq<char>,
    category: ErrorCategory,
    operation: Seq<char>,
    retryable: bool,
    message: Seq<char>,
    id: Seq<char>,
)
    ensures
        ({
            let error = HalErrorView::new(name, category, operation, retryable, message);
            &&& error.name == name
            &&& error.category == category
            &&& error.operation == operation
            &&& error.retryable == retryable
            &&& error.message == message
            &&& error.resource_id is None
            &&& error.platform_code is None
            &&& error.vendor_code is None
            &&& error.context.len() == 0
            &&& error.about(id).resource_id == Some(id)
            &&& error.about(id) == (HalErrorView { resource_id: Some(id), ..error })
        }),
{
}

/// A result that is given the resource that it is about keeps its value, or its error's name, kind and
/// message.
pub proof fn law_scoped_results_are_kept<T>(result: Result<T, HalErrorView>, id: Seq<char>)
    ensures
        result is Ok <==> scoped(result, id) is Ok,
        result matches Ok(value) ==> scoped(result, id) == Ok::<T, HalErrorView>(value),
        result matches Err(error) ==> scoped(result, id)->Err_0.resource_id == Some(id)
            && scoped(result, id)->Err_0.name == error.name && scoped(result, id)->Err_0.category
            == error.category && scoped(result, id)->Err_0.message == error.message,
{
}

/// A failure is the library's own exactly where it has the kind and the message and no code of the
/// system.
pub proof fn law_own_failures_have_no_system_code(
    error: IoError,
    kind: IoErrorKind,
    message: Seq<char>,
)
    ensures
        error.is_found(kind, message) <==> error.kind == kind && error.raw_os_error is None
            && error.message@ == message,
{
}

} // verus!
