//! Failure values on the native side and their hand-over to the host.
//!
//! A native operation fails with a [`NativeError`]: a message and, where the
//! failing code declared one, a category. The host never sees that value. At
//! the boundary it is turned into a [`HostException`], which keeps the message
//! and carries a category from the closed set; a failure that declared no
//! category is handed over as [`ErrorCategory::OperationFailed`].

use vstd::prelude::*;

verus! {

/// The closed set of failure categories that the host can observe.
#[derive(Clone, Copy, Debug, PartialEq, Eq, Structural)]
pub enum ErrorCategory {
    /// A constructor, mutator or function was given an input it rejects.
    InvalidArgument,
    /// A field was read that the active variant does not have.
    AttributeMissing,
    /// Any other failure on the native side.
    OperationFailed,
}

/// The exception class that the host raises for a failure.
#[derive(Clone, Copy, Debug, PartialEq, Eq, Structural)]
pub enum ExceptionClass {
    ValueError,
    AttributeError,
    OsError,
}

impl ErrorCategory {
    /// The exception class of a category. Distinct categories have distinct
    /// classes (see [`lemma_class_identifies_category`]).
    pub open spec fn class_of(self) -> ExceptionClass {
        match self {
            ErrorCategory::InvalidArgument => ExceptionClass::ValueError,
            ErrorCategory::AttributeMissing => ExceptionClass::AttributeError,
            ErrorCategory::OperationFailed => ExceptionClass::OsError,
        }
    }

    /// The exception class that the host raises for this category.
    pub fn exception_class(&self) -> (class: ExceptionClass)
        ensures
            class == self.class_of(),
    {
        match self {
            ErrorCategory::InvalidArgument => ExceptionClass::ValueError,
            ErrorCategory::AttributeMissing => ExceptionClass::AttributeError,
            ErrorCategory::OperationFailed => ExceptionClass::OsError,
        }
    }
}

impl ExceptionClass {
    /// The category that a class stands for.
    pub open spec fn category_of(self) -> ErrorCategory {
        match self {
            ExceptionClass::ValueError => ErrorCategory::InvalidArgument,
            ExceptionClass::AttributeError => ErrorCategory::AttributeMissing,
            ExceptionClass::OsError => ErrorCategory::OperationFailed,
        }
    }

    /// The category that this class stands for.
    pub fn category(&self) -> (category: ErrorCategory)
        ensures
            category == self.category_of(),
    {
        match self {
            ExceptionClass::ValueError => ErrorCategory::InvalidArgument,
            ExceptionClass::AttributeError => ErrorCategory::AttributeMissing,
            ExceptionClass::OsError => ErrorCategory::OperationFailed,
        }
    }
}

/// The category under which a failure is handed over: the declared one, or
/// `OperationFailed` where none was declared.
pub open spec fn effective_category(declared: Option<ErrorCategory>) -> ErrorCategory {
    match declared {
        Some(category) => category,
        None => ErrorCategory::OperationFailed,
    }
}

/// What a [`NativeError`] holds.
pub struct NativeErrorView {
    pub declared: Option<ErrorCategory>,
    pub message: Seq<char>,
}

/// A failure raised on the native side.
#[derive(Debug, PartialEq, Eq)]
pub struct NativeError {
    declared: Option<ErrorCategory>,
    message: String,
}

impl View for NativeError {
    type V = NativeErrorView;

    closed spec fn view(&self) -> NativeErrorView {
        NativeErrorView { declared: self.declared, message: self.message@ }
    }
}

impl NativeError {
    /// A failure of the given category.
    pub fn new(category: ErrorCategory, message: &str) -> (error: NativeError)
        ensures
            error@.declared == Some(category),
            error@.message == message@,
    {
        NativeError { declared: Some(category), message: String::from_str(message) }
    }

    /// A failure whose source declared no category.
    pub fn uncategorized(message: &str) -> (error: NativeError)
        ensures
            error@.declared == None::<ErrorCategory>,
            error@.message == message@,
    {
        NativeError { declared: None, message: String::from_str(message) }
    }

    /// The category that the failing code declared, if it declared one.
    pub fn declared_category(&self) -> (declared: Option<ErrorCategory>)
        ensures
            declared == self@.declared,
    {
        self.declared
    }

    /// The category under which the host will see this failure.
    pub fn category(&self) -> (category: ErrorCategory)
        ensures
            category == effective_category(self@.declared),
    {
        match self.declared {
            Some(category) => category,
            None => ErrorCategory::OperationFailed,
        }
    }

    /// The human-readable message.
    pub fn message(&self) -> (message: &str)
        ensures
            message@ == self@.message,
    {
        self.message.as_str()
    }

    /// The exception that the host sees for this failure.
    pub closed spec fn translated(self) -> HostException {
        HostException { category: effective_category(self.declared), message: self.message }
    }

    /// Hands the failure over to the host: the message is kept, and the
    /// category is the declared one, or `OperationFailed` where none was
    /// declared.
    pub fn translate(&self) -> (exception: HostException)
        ensures
            exception == self.translated(),
            exception@.message == self@.message,
            exception@.category == effective_category(self@.declared),
    {
        HostException { category: self.category(), message: self.message.clone() }
    }
}

/// A native failure type that declares no category of its own.
#[derive(Clone, Copy, Debug, PartialEq, Eq, Structural)]
pub struct CustomError;

/// The text that a [`CustomError`] is rendered as.
pub open spec fn custom_error_text() -> Seq<char> {
    "some error has occured"@
}

impl CustomError {
    /// The text of this failure.
    pub fn to_string(&self) -> (text: String)
        ensures
            text@ == custom_error_text(),
    {
        String::from_str("some error has occured")
    }
}

impl From<CustomError> for NativeError {
    /// A `CustomError` declares no category and keeps its text.
    fn from(error: CustomError) -> (native: NativeError)
        ensures
            native@.declared == None::<ErrorCategory>,
            native@.message == custom_error_text(),
    {
        NativeError { declared: None, message: error.to_string() }
    }
}

/// The conversion is stated on `from` itself, over the view: two strings of
/// the same characters are not known to be one value, so no image is fixed.
impl vstd::std_specs::convert::FromSpecImpl<CustomError> for NativeError {
    open spec fn obeys_from_spec() -> bool {
        false
    }

    open spec fn from_spec(error: CustomError) -> NativeError {
        arbitrary()
    }
}

/// What a [`HostException`] holds.
pub struct HostExceptionView {
    pub category: ErrorCategory,
    pub message: Seq<char>,
}

/// A failure as the host sees it: a message and a category tag.
#[derive(Debug, PartialEq, Eq)]
pub struct HostException {
    category: ErrorCategory,
    message: String,
}

impl View for HostException {
    type V = HostExceptionView;

    closed spec fn view(&self) -> HostExceptionView {
        HostExceptionView { category: self.category, message: self.message@ }
    }
}

impl HostException {
    /// The category tag.
    pub fn category(&self) -> (category: ErrorCategory)
        ensures
            category == self@.category,
    {
        self.category
    }

    /// The exception class to raise, fixed by the category.
    pub fn exception_class(&self) -> (class: ExceptionClass)
        ensures
            class == self@.category.class_of(),
    {
        self.category.exception_class()
    }

    /// The message, unchanged from the native failure.
    pub fn message(&self) -> (message: &str)
        ensures
            message@ == self@.message,
    {
        self.message.as_str()
    }
}

impl From<NativeError> for HostException {
    /// The hand-over at the boundary, as [`NativeError::translate`] does it.
    fn from(error: NativeError) -> (exception: HostException)
        ensures
            exception@.message == error@.message,
            exception@.category == effective_category(error@.declared),
    {
        error.translate()
    }
}

impl vstd::std_specs::convert::FromSpecImpl<NativeError> for HostException {
    open spec fn obeys_from_spec() -> bool {
        true
    }

    open spec fn from_spec(error: NativeError) -> HostException {
        error.translated()
    }
}

/// The mapping between categories and exception classes is one to one: a
/// class tells which category it was raised for, and two categories never
/// share a class.
pub proof fn lemma_class_identifies_category(a: ErrorCategory, b: ErrorCategory)
    ensures
        a.class_of().category_of() == a,
        a.class_of() == b.class_of() <==> a == b,
{
}

/// Every exception class is the class of exactly the category it stands for.
pub proof fn lemma_category_identifies_class(class: ExceptionClass)
    ensures
        class.category_of().class_of() == class,
{
}

} // verus!
