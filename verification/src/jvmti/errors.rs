//! The errors of the tool interface, as a caller of the library sees them.
use vstd::prelude::*;
use crate::jvmti::jvmti_sys::jvmtiError;

verus! {

pub type JvmtiResult<T> = Result<T, JvmtiError>;

/// A failed call into the tool interface: every result code but the one
/// for success.
#[derive(Clone, Copy, Debug, PartialEq, Eq, Structural)]
pub enum JvmtiError {
    InvalidThread,
    InvalidThreadGroup,
    InvalidPriority,
    ThreadNotSuspended,
    ThreadSuspended,
    ThreadNotAlive,
    InvalidObject,
    InvalidClass,
    ClassNotPrepared,
    InvalidMethodid,
    InvalidLocation,
    InvalidFieldid,
    NoMoreFrames,
    OpaqueFrame,
    TypeMismatch,
    InvalidSlot,
    Duplicate,
    NotFound,
    InvalidMonitor,
    NotMonitorOwner,
    Interrupt,
    InvalidClassFormat,
    CircularClassDefinition,
    FailsVerification,
    UnsupportedRedefinitionMethodAdded,
    UnsupportedRedefinitionSchemaChanged,
    InvalidTypestate,
    UnsupportedRedefinitionHierarchyChanged,
    UnsupportedRedefinitionMethodDeleted,
    UnsupportedVersion,
    NamesDontMatch,
    UnsupportedRedefinitionClassModifiersChanged,
    UnsupportedRedefinitionMethodModifiersChanged,
    UnmodifiableClass,
    NotAvailable,
    MustPossessCapability,
    NullPointer,
    AbsentInformation,
    InvalidEventType,
    IllegalArgument,
    NativeMethod,
    ClassLoaderUnsupported,
    OutOfMemory,
    AccessDenied,
    WrongPhase,
    Internal,
    UnattachedThread,
    InvalidEnvironment,
}

impl JvmtiError {
    /// The result code that this error stands for.
    pub open spec fn spec_code(self) -> u32 {
        match self {
            JvmtiError::InvalidThread => 10,
            JvmtiError::InvalidThreadGroup => 11,
            JvmtiError::InvalidPriority => 12,
            JvmtiError::ThreadNotSuspended => 13,
            JvmtiError::ThreadSuspended => 14,
            JvmtiError::ThreadNotAlive => 15,
            JvmtiError::InvalidObject => 20,
            JvmtiError::InvalidClass => 21,
            JvmtiError::ClassNotPrepared => 22,
            JvmtiError::InvalidMethodid => 23,
            JvmtiError::InvalidLocation => 24,
            JvmtiError::InvalidFieldid => 25,
            JvmtiError::NoMoreFrames => 31,
            JvmtiError::OpaqueFrame => 32,
            JvmtiError::TypeMismatch => 34,
            JvmtiError::InvalidSlot => 35,
            JvmtiError::Duplicate => 40,
            JvmtiError::NotFound => 41,
            JvmtiError::InvalidMonitor => 50,
            JvmtiError::NotMonitorOwner => 51,
            JvmtiError::Interrupt => 52,
            JvmtiError::InvalidClassFormat => 60,
            JvmtiError::CircularClassDefinition => 61,
            JvmtiError::FailsVerification => 62,
            JvmtiError::UnsupportedRedefinitionMethodAdded => 63,
            JvmtiError::UnsupportedRedefinitionSchemaChanged => 64,
            JvmtiError::InvalidTypestate => 65,
            JvmtiError::UnsupportedRedefinitionHierarchyChanged => 66,
            JvmtiError::UnsupportedRedefinitionMethodDeleted => 67,
            JvmtiError::UnsupportedVersion => 68,
            JvmtiError::NamesDontMatch => 69,
            JvmtiError::UnsupportedRedefinitionClassModifiersChanged => 70,
            JvmtiError::UnsupportedRedefinitionMethodModifiersChanged => 71,
            JvmtiError::UnmodifiableClass => 79,
            JvmtiError::NotAvailable => 98,
            JvmtiError::MustPossessCapability => 99,
            JvmtiError::NullPointer => 100,
            JvmtiError::AbsentInformation => 101,
            JvmtiError::InvalidEventType => 102,
            JvmtiError::IllegalArgument => 103,
            JvmtiError::NativeMethod => 104,
            JvmtiError::ClassLoaderUnsupported => 106,
            JvmtiError::OutOfMemory => 110,
            JvmtiError::AccessDenied => 111,
            JvmtiError::WrongPhase => 112,
            JvmtiError::Internal => 113,
            JvmtiError::UnattachedThread => 115,
            JvmtiError::InvalidEnvironment => 116,
        }
    }

    /// The result code that this error stands for.
    pub fn code(self) -> (c: u32)
        ensures
            c == self.spec_code(),
    {
        match self {
            JvmtiError::InvalidThread => 10,
            JvmtiError::InvalidThreadGroup => 11,
            JvmtiError::InvalidPriority => 12,
            JvmtiError::ThreadNotSuspended => 13,
            JvmtiError::ThreadSuspended => 14,
            JvmtiError::ThreadNotAlive => 15,
            JvmtiError::InvalidObject => 20,
            JvmtiError::InvalidClass => 21,
            JvmtiError::ClassNotPrepared => 22,
            JvmtiError::InvalidMethodid => 23,
            JvmtiError::InvalidLocation => 24,
            JvmtiError::InvalidFieldid => 25,
            JvmtiError::NoMoreFrames => 31,
            JvmtiError::OpaqueFrame => 32,
            JvmtiError::TypeMismatch => 34,
            JvmtiError::InvalidSlot => 35,
            JvmtiError::Duplicate => 40,
            JvmtiError::NotFound => 41,
            JvmtiError::InvalidMonitor => 50,
            JvmtiError::NotMonitorOwner => 51,
            JvmtiError::Interrupt => 52,
            JvmtiError::InvalidClassFormat => 60,
            JvmtiError::CircularClassDefinition => 61,
            JvmtiError::FailsVerification => 62,
            JvmtiError::UnsupportedRedefinitionMethodAdded => 63,
            JvmtiError::UnsupportedRedefinitionSchemaChanged => 64,
            JvmtiError::InvalidTypestate => 65,
            JvmtiError::UnsupportedRedefinitionHierarchyChanged => 66,
            JvmtiError::UnsupportedRedefinitionMethodDeleted => 67,
            JvmtiError::UnsupportedVersion => 68,
            JvmtiError::NamesDontMatch => 69,
            JvmtiError::UnsupportedRedefinitionClassModifiersChanged => 70,
            JvmtiError::UnsupportedRedefinitionMethodModifiersChanged => 71,
            JvmtiError::UnmodifiableClass => 79,
            JvmtiError::NotAvailable => 98,
            JvmtiError::MustPossessCapability => 99,
            JvmtiError::NullPointer => 100,
            JvmtiError::AbsentInformation => 101,
            JvmtiError::InvalidEventType => 102,
            JvmtiError::IllegalArgument => 103,
            JvmtiError::NativeMethod => 104,
            JvmtiError::ClassLoaderUnsupported => 106,
            JvmtiError::OutOfMemory => 110,
            JvmtiError::AccessDenied => 111,
            JvmtiError::WrongPhase => 112,
            JvmtiError::Internal => 113,
            JvmtiError::UnattachedThread => 115,
            JvmtiError::InvalidEnvironment => 116,
        }
    }

    /// The words that describe this error.
    pub open spec fn message(self) -> Seq<char> {
        match self {
            JvmtiError::InvalidThread => "Invalid Thread"@,
            JvmtiError::InvalidThreadGroup => "Invalid Thread Group"@,
            JvmtiError::InvalidPriority => "Invalid Priority"@,
            JvmtiError::ThreadNotSuspended => "Thread Not Suspended"@,
            JvmtiError::ThreadSuspended => "Thread Suspended"@,
            JvmtiError::ThreadNotAlive => "Thread Not Alive"@,
            JvmtiError::InvalidObject => "Invalid Object"@,
            JvmtiError::InvalidClass => "Invalid Class"@,
            JvmtiError::ClassNotPrepared => "Class Not Prepared"@,
            JvmtiError::InvalidMethodid => "Invalid Methodid"@,
            JvmtiError::InvalidLocation => "Invalid Location"@,
            JvmtiError::InvalidFieldid => "Invalid Fieldid"@,
            JvmtiError::NoMoreFrames => "No More Frames"@,
            JvmtiError::OpaqueFrame => "Opaque Frame"@,
            JvmtiError::TypeMismatch => "Type Mismatch"@,
            JvmtiError::InvalidSlot => "Invalid Slot"@,
            JvmtiError::Duplicate => "Duplicate"@,
            JvmtiError::NotFound => "Not Found"@,
            JvmtiError::InvalidMonitor => "Invalid Monitor"@,
            JvmtiError::NotMonitorOwner => "Not Monitor Owner"@,
            JvmtiError::Interrupt => "Interrupt"@,
            JvmtiError::InvalidClassFormat => "Invalid Class Format"@,
            JvmtiError::CircularClassDefinition => "Circular Class Definition"@,
            JvmtiError::FailsVerification => "Fails Verification"@,
            JvmtiError::UnsupportedRedefinitionMethodAdded => "Unsupported Redefinition Method Added"@,
            JvmtiError::UnsupportedRedefinitionSchemaChanged => "Unsupported Redefinition Schema Changed"@,
            JvmtiError::InvalidTypestate => "Invalid Typestate"@,
            JvmtiError::UnsupportedRedefinitionHierarchyChanged => "Unsupported Redefinition Hierarchy Changed"@,
            JvmtiError::UnsupportedRedefinitionMethodDeleted => "Unsupported Redefinition Method Deleted"@,
            JvmtiError::UnsupportedVersion => "Unsupported Version"@,
            JvmtiError::NamesDontMatch => "Names Dont Match"@,
            JvmtiError::UnsupportedRedefinitionClassModifiersChanged => "Unsupported Redefinition Class Modifiers Changed"@,
            JvmtiError::UnsupportedRedefinitionMethodModifiersChanged => "Unsupported Redefinition Method Modifiers Changed"@,
            JvmtiError::UnmodifiableClass => "Unmodifiable Class"@,
            JvmtiError::NotAvailable => "Not Available"@,
            JvmtiError::MustPossessCapability => "Must Possess Capability"@,
            JvmtiError::NullPointer => "Null Pointer"@,
            JvmtiError::AbsentInformation => "Absent Information"@,
            JvmtiError::InvalidEventType => "Invalid Event Type"@,
            JvmtiError::IllegalArgument => "Illegal Argument"@,
            JvmtiError::NativeMethod => "Native Method"@,
            JvmtiError::ClassLoaderUnsupported => "Class Loader Unsupported"@,
            JvmtiError::OutOfMemory => "Out Of Memory"@,
            JvmtiError::AccessDenied => "Access Denied"@,
            JvmtiError::WrongPhase => "Wrong Phase"@,
            JvmtiError::Internal => "Internal"@,
            JvmtiError::UnattachedThread => "Unattached Thread"@,
            JvmtiError::InvalidEnvironment => "Invalid Environment"@,
        }
    }

    /// The words that describe this error, as a string.
    pub fn to_string(&self) -> (s: String)
        ensures
            s@ == self.message(),
    {
        let words: &str = match self {
            JvmtiError::InvalidThread => "Invalid Thread",
            JvmtiError::InvalidThreadGroup => "Invalid Thread Group",
            JvmtiError::InvalidPriority => "Invalid Priority",
            JvmtiError::ThreadNotSuspended => "Thread Not Suspended",
            JvmtiError::ThreadSuspended => "Thread Suspended",
            JvmtiError::ThreadNotAlive => "Thread Not Alive",
            JvmtiError::InvalidObject => "Invalid Object",
            JvmtiError::InvalidClass => "Invalid Class",
            JvmtiError::ClassNotPrepared => "Class Not Prepared",
            JvmtiError::InvalidMethodid => "Invalid Methodid",
            JvmtiError::InvalidLocation => "Invalid Location",
            JvmtiError::InvalidFieldid => "Invalid Fieldid",
            JvmtiError::NoMoreFrames => "No More Frames",
            JvmtiError::OpaqueFrame => "Opaque Frame",
            JvmtiError::TypeMismatch => "Type Mismatch",
            JvmtiError::InvalidSlot => "Invalid Slot",
            JvmtiError::Duplicate => "Duplicate",
            JvmtiError::NotFound => "Not Found",
            JvmtiError::InvalidMonitor => "Invalid Monitor",
            JvmtiError::NotMonitorOwner => "Not Monitor Owner",
            JvmtiError::Interrupt => "Interrupt",
            JvmtiError::InvalidClassFormat => "Invalid Class Format",
            JvmtiError::CircularClassDefinition => "Circular Class Definition",
            JvmtiError::FailsVerification => "Fails Verification",
            JvmtiError::UnsupportedRedefinitionMethodAdded => "Unsupported Redefinition Method Added",
            JvmtiError::UnsupportedRedefinitionSchemaChanged => "Unsupported Redefinition Schema Changed",
            JvmtiError::InvalidTypestate => "Invalid Typestate",
            JvmtiError::UnsupportedRedefinitionHierarchyChanged => "Unsupported Redefinition Hierarchy Changed",
            JvmtiError::UnsupportedRedefinitionMethodDeleted => "Unsupported Redefinition Method Deleted",
            JvmtiError::UnsupportedVersion => "Unsupported Version",
            JvmtiError::NamesDontMatch => "Names Dont Match",
            JvmtiError::UnsupportedRedefinitionClassModifiersChanged => "Unsupported Redefinition Class Modifiers Changed",
            JvmtiError::UnsupportedRedefinitionMethodModifiersChanged => "Unsupported Redefinition Method Modifiers Changed",
            JvmtiError::UnmodifiableClass => "Unmodifiable Class",
            JvmtiError::NotAvailable => "Not Available",
            JvmtiError::MustPossessCapability => "Must Possess Capability",
            JvmtiError::NullPointer => "Null Pointer",
            JvmtiError::AbsentInformation => "Absent Information",
            JvmtiError::InvalidEventType => "Invalid Event Type",
            JvmtiError::IllegalArgument => "Illegal Argument",
            JvmtiError::NativeMethod => "Native Method",
            JvmtiError::ClassLoaderUnsupported => "Class Loader Unsupported",
            JvmtiError::OutOfMemory => "Out Of Memory",
            JvmtiError::AccessDenied => "Access Denied",
            JvmtiError::WrongPhase => "Wrong Phase",
            JvmtiError::Internal => "Internal",
            JvmtiError::UnattachedThread => "Unattached Thread",
            JvmtiError::InvalidEnvironment => "Invalid Environment",
        };
        words.to_owned()
    }

    /// The error for a result code other than success: the one with the
    /// same number.
    pub fn from(error: &jvmtiError) -> (r: JvmtiError)
        requires
            *error != jvmtiError::JVMTI_ERROR_NONE,
        ensures
            r.spec_code() == error.spec_code(),
    {
        match error {
            jvmtiError::JVMTI_ERROR_NONE => vstd::pervasive::unreached(),
            jvmtiError::JVMTI_ERROR_INVALID_THREAD => JvmtiError::InvalidThread,
            jvmtiError::JVMTI_ERROR_INVALID_THREAD_GROUP => JvmtiError::InvalidThreadGroup,
            jvmtiError::JVMTI_ERROR_INVALID_PRIORITY => JvmtiError::InvalidPriority,
            jvmtiError::JVMTI_ERROR_THREAD_NOT_SUSPENDED => JvmtiError::ThreadNotSuspended,
            jvmtiError::JVMTI_ERROR_THREAD_SUSPENDED => JvmtiError::ThreadSuspended,
            jvmtiError::JVMTI_ERROR_THREAD_NOT_ALIVE => JvmtiError::ThreadNotAlive,
            jvmtiError::JVMTI_ERROR_INVALID_OBJECT => JvmtiError::InvalidObject,
            jvmtiError::JVMTI_ERROR_INVALID_CLASS => JvmtiError::InvalidClass,
            jvmtiError::JVMTI_ERROR_CLASS_NOT_PREPARED => JvmtiError::ClassNotPrepared,
            jvmtiError::JVMTI_ERROR_INVALID_METHODID => JvmtiError::InvalidMethodid,
            jvmtiError::JVMTI_ERROR_INVALID_LOCATION => JvmtiError::InvalidLocation,
            jvmtiError::JVMTI_ERROR_INVALID_FIELDID => JvmtiError::InvalidFieldid,
            jvmtiError::JVMTI_ERROR_NO_MORE_FRAMES => JvmtiError::NoMoreFrames,
            jvmtiError::JVMTI_ERROR_OPAQUE_FRAME => JvmtiError::OpaqueFrame,
            jvmtiError::JVMTI_ERROR_TYPE_MISMATCH => JvmtiError::TypeMismatch,
            jvmtiError::JVMTI_ERROR_INVALID_SLOT => JvmtiError::InvalidSlot,
            jvmtiError::JVMTI_ERROR_DUPLICATE => JvmtiError::Duplicate,
            jvmtiError::JVMTI_ERROR_NOT_FOUND => JvmtiError::NotFound,
            jvmtiError::JVMTI_ERROR_INVALID_MONITOR => JvmtiError::InvalidMonitor,
            jvmtiError::JVMTI_ERROR_NOT_MONITOR_OWNER => JvmtiError::NotMonitorOwner,
            jvmtiError::JVMTI_ERROR_INTERRUPT => JvmtiError::Interrupt,
            jvmtiError::JVMTI_ERROR_INVALID_CLASS_FORMAT => JvmtiError::InvalidClassFormat,
            jvmtiError::JVMTI_ERROR_CIRCULAR_CLASS_DEFINITION => JvmtiError::CircularClassDefinition,
            jvmtiError::JVMTI_ERROR_FAILS_VERIFICATION => JvmtiError::FailsVerification,
            jvmtiError::JVMTI_ERROR_UNSUPPORTED_REDEFINITION_METHOD_ADDED => JvmtiError::UnsupportedRedefinitionMethodAdded,
            jvmtiError::JVMTI_ERROR_UNSUPPORTED_REDEFINITION_SCHEMA_CHANGED => JvmtiError::UnsupportedRedefinitionSchemaChanged,
            jvmtiError::JVMTI_ERROR_INVALID_TYPESTATE => JvmtiError::InvalidTypestate,
            jvmtiError::JVMTI_ERROR_UNSUPPORTED_REDEFINITION_HIERARCHY_CHANGED => JvmtiError::UnsupportedRedefinitionHierarchyChanged,
            jvmtiError::JVMTI_ERROR_UNSUPPORTED_REDEFINITION_METHOD_DELETED => JvmtiError::UnsupportedRedefinitionMethodDeleted,
            jvmtiError::JVMTI_ERROR_UNSUPPORTED_VERSION => JvmtiError::UnsupportedVersion,
            jvmtiError::JVMTI_ERROR_NAMES_DONT_MATCH => JvmtiError::NamesDontMatch,
            jvmtiError::JVMTI_ERROR_UNSUPPORTED_REDEFINITION_CLASS_MODIFIERS_CHANGED => JvmtiError::UnsupportedRedefinitionClassModifiersChanged,
            jvmtiError::JVMTI_ERROR_UNSUPPORTED_REDEFINITION_METHOD_MODIFIERS_CHANGED => JvmtiError::UnsupportedRedefinitionMethodModifiersChanged,
            jvmtiError::JVMTI_ERROR_UNMODIFIABLE_CLASS => JvmtiError::UnmodifiableClass,
            jvmtiError::JVMTI_ERROR_NOT_AVAILABLE => JvmtiError::NotAvailable,
            jvmtiError::JVMTI_ERROR_MUST_POSSESS_CAPABILITY => JvmtiError::MustPossessCapability,
            jvmtiError::JVMTI_ERROR_NULL_POINTER => JvmtiError::NullPointer,
            jvmtiError::JVMTI_ERROR_ABSENT_INFORMATION => JvmtiError::AbsentInformation,
            jvmtiError::JVMTI_ERROR_INVALID_EVENT_TYPE => JvmtiError::InvalidEventType,
            jvmtiError::JVMTI_ERROR_ILLEGAL_ARGUMENT => JvmtiError::IllegalArgument,
            jvmtiError::JVMTI_ERROR_NATIVE_METHOD => JvmtiError::NativeMethod,
            jvmtiError::JVMTI_ERROR_CLASS_LOADER_UNSUPPORTED => JvmtiError::ClassLoaderUnsupported,
            jvmtiError::JVMTI_ERROR_OUT_OF_MEMORY => JvmtiError::OutOfMemory,
            jvmtiError::JVMTI_ERROR_ACCESS_DENIED => JvmtiError::AccessDenied,
            jvmtiError::JVMTI_ERROR_WRONG_PHASE => JvmtiError::WrongPhase,
            jvmtiError::JVMTI_ERROR_INTERNAL => JvmtiError::Internal,
            jvmtiError::JVMTI_ERROR_UNATTACHED_THREAD => JvmtiError::UnattachedThread,
            jvmtiError::JVMTI_ERROR_INVALID_ENVIRONMENT => JvmtiError::InvalidEnvironment,
        }
    }
}

impl jvmtiError {
    /// On success, what `value` computes; on every other code, the error
    /// that the code stands for, and `value` is not called.
    pub fn value<T, F: FnOnce() -> T>(&self, value: F) -> (r: JvmtiResult<T>)
        requires
            *self == jvmtiError::JVMTI_ERROR_NONE ==> value.requires(()),
        ensures
            match r {
                Ok(v) => *self == jvmtiError::JVMTI_ERROR_NONE && value.ensures((), v),
                Err(e) => *self != jvmtiError::JVMTI_ERROR_NONE && e.spec_code()
                    == self.spec_code(),
            },
    {
        match self {
            jvmtiError::JVMTI_ERROR_NONE => Ok(value()),
            _ => Err(JvmtiError::from(self)),
        }
    }
}

/// No two errors share a result code, so the code tells the error.
pub proof fn lemma_error_code_tells_error(a: JvmtiError, b: JvmtiError)
    requires
        a.spec_code() == b.spec_code(),
    ensures
        a == b,
{
}

} // verus!
