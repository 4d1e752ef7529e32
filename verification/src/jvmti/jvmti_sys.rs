//! The enumerations of the virtual machine's tool interface, each with the
//! number that stands for it on the wire.
use vstd::prelude::*;

verus! {

pub const JVMTI_VERSION_1: u32 = 805371904;

pub const JVMTI_VERSION_1_0: u32 = 805371904;

pub const JVMTI_VERSION_1_1: u32 = 805372160;

pub const JVMTI_VERSION_1_2: u32 = 805372416;

pub const JVMTI_VERSION_9: u32 = 805896192;

pub const JVMTI_VERSION_11: u32 = 806027264;

pub const JVMTI_VERSION: i32 = 806420480;

pub const JVMTI_THREAD_STATE_ALIVE: u32 = 1;

pub const JVMTI_THREAD_STATE_TERMINATED: u32 = 2;

pub const JVMTI_THREAD_STATE_RUNNABLE: u32 = 4;

pub const JVMTI_THREAD_STATE_BLOCKED_ON_MONITOR_ENTER: u32 = 1024;

pub const JVMTI_THREAD_STATE_WAITING: u32 = 128;

pub const JVMTI_THREAD_STATE_WAITING_INDEFINITELY: u32 = 16;

pub const JVMTI_THREAD_STATE_WAITING_WITH_TIMEOUT: u32 = 32;

pub const JVMTI_THREAD_STATE_SLEEPING: u32 = 64;

pub const JVMTI_THREAD_STATE_IN_OBJECT_WAIT: u32 = 256;

pub const JVMTI_THREAD_STATE_PARKED: u32 = 512;

pub const JVMTI_THREAD_STATE_SUSPENDED: u32 = 1048576;

pub const JVMTI_THREAD_STATE_INTERRUPTED: u32 = 2097152;

pub const JVMTI_THREAD_STATE_IN_NATIVE: u32 = 4194304;

pub const JVMTI_THREAD_STATE_VENDOR_1: u32 = 268435456;

pub const JVMTI_THREAD_STATE_VENDOR_2: u32 = 536870912;

pub const JVMTI_THREAD_STATE_VENDOR_3: u32 = 1073741824;

pub const JVMTI_JAVA_LANG_THREAD_STATE_MASK: u32 = 1207;

pub const JVMTI_JAVA_LANG_THREAD_STATE_NEW: u32 = 0;

pub const JVMTI_JAVA_LANG_THREAD_STATE_TERMINATED: u32 = 2;

pub const JVMTI_JAVA_LANG_THREAD_STATE_RUNNABLE: u32 = 5;

pub const JVMTI_JAVA_LANG_THREAD_STATE_BLOCKED: u32 = 1025;

pub const JVMTI_JAVA_LANG_THREAD_STATE_WAITING: u32 = 145;

pub const JVMTI_JAVA_LANG_THREAD_STATE_TIMED_WAITING: u32 = 161;

pub const JVMTI_THREAD_MIN_PRIORITY: u32 = 1;

pub const JVMTI_THREAD_NORM_PRIORITY: u32 = 5;

pub const JVMTI_THREAD_MAX_PRIORITY: u32 = 10;

pub const JVMTI_HEAP_FILTER_TAGGED: u32 = 4;

pub const JVMTI_HEAP_FILTER_UNTAGGED: u32 = 8;

pub const JVMTI_HEAP_FILTER_CLASS_TAGGED: u32 = 16;

pub const JVMTI_HEAP_FILTER_CLASS_UNTAGGED: u32 = 32;

pub const JVMTI_VISIT_OBJECTS: u32 = 256;

pub const JVMTI_VISIT_ABORT: u32 = 32768;

pub const JVMTI_CLASS_STATUS_VERIFIED: u32 = 1;

pub const JVMTI_CLASS_STATUS_PREPARED: u32 = 2;

pub const JVMTI_CLASS_STATUS_INITIALIZED: u32 = 4;

pub const JVMTI_CLASS_STATUS_ERROR: u32 = 8;

pub const JVMTI_CLASS_STATUS_ARRAY: u32 = 16;

pub const JVMTI_CLASS_STATUS_PRIMITIVE: u32 = 32;

pub const JVMTI_VERSION_INTERFACE_JNI: u32 = 0;

pub const JVMTI_VERSION_INTERFACE_JVMTI: u32 = 805306368;

pub const JVMTI_VERSION_MASK_INTERFACE_TYPE: u32 = 1879048192;

pub const JVMTI_VERSION_MASK_MAJOR: u32 = 268369920;

pub const JVMTI_VERSION_MASK_MINOR: u32 = 65280;

pub const JVMTI_VERSION_MASK_MICRO: u32 = 255;

pub const JVMTI_VERSION_SHIFT_MAJOR: u32 = 16;

pub const JVMTI_VERSION_SHIFT_MINOR: u32 = 8;

pub const JVMTI_VERSION_SHIFT_MICRO: u32 = 0;

pub const JVMTI_RESOURCE_EXHAUSTED_OOM_ERROR: u32 = 1;

pub const JVMTI_RESOURCE_EXHAUSTED_JAVA_HEAP: u32 = 2;

pub const JVMTI_RESOURCE_EXHAUSTED_THREADS: u32 = 4;

pub const JVMTI_ERROR_MAX: u32 = 116;

pub const JVMTI_MIN_EVENT_TYPE_VAL: u32 = 50;

pub const JVMTI_MAX_EVENT_TYPE_VAL: u32 = 86;

/// The kind of reference that a heap walk reports.
#[derive(Clone, Copy, Debug, PartialEq, Eq, Structural)]
pub enum jvmtiHeapReferenceKind {
    JVMTI_HEAP_REFERENCE_CLASS,
    JVMTI_HEAP_REFERENCE_FIELD,
    JVMTI_HEAP_REFERENCE_ARRAY_ELEMENT,
    JVMTI_HEAP_REFERENCE_CLASS_LOADER,
    JVMTI_HEAP_REFERENCE_SIGNERS,
    JVMTI_HEAP_REFERENCE_PROTECTION_DOMAIN,
    JVMTI_HEAP_REFERENCE_INTERFACE,
    JVMTI_HEAP_REFERENCE_STATIC_FIELD,
    JVMTI_HEAP_REFERENCE_CONSTANT_POOL,
    JVMTI_HEAP_REFERENCE_SUPERCLASS,
    JVMTI_HEAP_REFERENCE_JNI_GLOBAL,
    JVMTI_HEAP_REFERENCE_SYSTEM_CLASS,
    JVMTI_HEAP_REFERENCE_MONITOR,
    JVMTI_HEAP_REFERENCE_STACK_LOCAL,
    JVMTI_HEAP_REFERENCE_JNI_LOCAL,
    JVMTI_HEAP_REFERENCE_THREAD,
    JVMTI_HEAP_REFERENCE_OTHER,
}

impl jvmtiHeapReferenceKind {
    /// The number that the interface uses for this value.
    pub open spec fn spec_code(self) -> u32 {
        match self {
            jvmtiHeapReferenceKind::JVMTI_HEAP_REFERENCE_CLASS => 1,
            jvmtiHeapReferenceKind::JVMTI_HEAP_REFERENCE_FIELD => 2,
            jvmtiHeapReferenceKind::JVMTI_HEAP_REFERENCE_ARRAY_ELEMENT => 3,
            jvmtiHeapReferenceKind::JVMTI_HEAP_REFERENCE_CLASS_LOADER => 4,
            jvmtiHeapReferenceKind::JVMTI_HEAP_REFERENCE_SIGNERS => 5,
            jvmtiHeapReferenceKind::JVMTI_HEAP_REFERENCE_PROTECTION_DOMAIN => 6,
            jvmtiHeapReferenceKind::JVMTI_HEAP_REFERENCE_INTERFACE => 7,
            jvmtiHeapReferenceKind::JVMTI_HEAP_REFERENCE_STATIC_FIELD => 8,
            jvmtiHeapReferenceKind::JVMTI_HEAP_REFERENCE_CONSTANT_POOL => 9,
            jvmtiHeapReferenceKind::JVMTI_HEAP_REFERENCE_SUPERCLASS => 10,
            jvmtiHeapReferenceKind::JVMTI_HEAP_REFERENCE_JNI_GLOBAL => 21,
            jvmtiHeapReferenceKind::JVMTI_HEAP_REFERENCE_SYSTEM_CLASS => 22,
            jvmtiHeapReferenceKind::JVMTI_HEAP_REFERENCE_MONITOR => 23,
            jvmtiHeapReferenceKind::JVMTI_HEAP_REFERENCE_STACK_LOCAL => 24,
            jvmtiHeapReferenceKind::JVMTI_HEAP_REFERENCE_JNI_LOCAL => 25,
            jvmtiHeapReferenceKind::JVMTI_HEAP_REFERENCE_THREAD => 26,
            jvmtiHeapReferenceKind::JVMTI_HEAP_REFERENCE_OTHER => 27,
        }
    }

    /// The number that the interface uses for this value.
    pub fn code(self) -> (c: u32)
        ensures
            c == self.spec_code(),
    {
        match self {
            jvmtiHeapReferenceKind::JVMTI_HEAP_REFERENCE_CLASS => 1,
            jvmtiHeapReferenceKind::JVMTI_HEAP_REFERENCE_FIELD => 2,
            jvmtiHeapReferenceKind::JVMTI_HEAP_REFERENCE_ARRAY_ELEMENT => 3,
            jvmtiHeapReferenceKind::JVMTI_HEAP_REFERENCE_CLASS_LOADER => 4,
            jvmtiHeapReferenceKind::JVMTI_HEAP_REFERENCE_SIGNERS => 5,
            jvmtiHeapReferenceKind::JVMTI_HEAP_REFERENCE_PROTECTION_DOMAIN => 6,
            jvmtiHeapReferenceKind::JVMTI_HEAP_REFERENCE_INTERFACE => 7,
            jvmtiHeapReferenceKind::JVMTI_HEAP_REFERENCE_STATIC_FIELD => 8,
            jvmtiHeapReferenceKind::JVMTI_HEAP_REFERENCE_CONSTANT_POOL => 9,
            jvmtiHeapReferenceKind::JVMTI_HEAP_REFERENCE_SUPERCLASS => 10,
            jvmtiHeapReferenceKind::JVMTI_HEAP_REFERENCE_JNI_GLOBAL => 21,
            jvmtiHeapReferenceKind::JVMTI_HEAP_REFERENCE_SYSTEM_CLASS => 22,
            jvmtiHeapReferenceKind::JVMTI_HEAP_REFERENCE_MONITOR => 23,
            jvmtiHeapReferenceKind::JVMTI_HEAP_REFERENCE_STACK_LOCAL => 24,
            jvmtiHeapReferenceKind::JVMTI_HEAP_REFERENCE_JNI_LOCAL => 25,
            jvmtiHeapReferenceKind::JVMTI_HEAP_REFERENCE_THREAD => 26,
            jvmtiHeapReferenceKind::JVMTI_HEAP_REFERENCE_OTHER => 27,
        }
    }

    /// The value that a number stands for, if it stands for one.
    pub fn from_code(code: u32) -> (r: Option<Self>)
        ensures
            match r {
                Some(v) => v.spec_code() == code,
                None => forall|v: jvmtiHeapReferenceKind| #[trigger] v.spec_code() != code,
            },
    {
        if code == 1 {
            Some(jvmtiHeapReferenceKind::JVMTI_HEAP_REFERENCE_CLASS)
        } else if code == 2 {
            Some(jvmtiHeapReferenceKind::JVMTI_HEAP_REFERENCE_FIELD)
        } else if code == 3 {
            Some(jvmtiHeapReferenceKind::JVMTI_HEAP_REFERENCE_ARRAY_ELEMENT)
        } else if code == 4 {
            Some(jvmtiHeapReferenceKind::JVMTI_HEAP_REFERENCE_CLASS_LOADER)
        } else if code == 5 {
            Some(jvmtiHeapReferenceKind::JVMTI_HEAP_REFERENCE_SIGNERS)
        } else if code == 6 {
            Some(jvmtiHeapReferenceKind::JVMTI_HEAP_REFERENCE_PROTECTION_DOMAIN)
        } else if code == 7 {
            Some(jvmtiHeapReferenceKind::JVMTI_HEAP_REFERENCE_INTERFACE)
        } else if code == 8 {
            Some(jvmtiHeapReferenceKind::JVMTI_HEAP_REFERENCE_STATIC_FIELD)
        } else if code == 9 {
            Some(jvmtiHeapReferenceKind::JVMTI_HEAP_REFERENCE_CONSTANT_POOL)
        } else if code == 10 {
            Some(jvmtiHeapReferenceKind::JVMTI_HEAP_REFERENCE_SUPERCLASS)
        } else if code == 21 {
            Some(jvmtiHeapReferenceKind::JVMTI_HEAP_REFERENCE_JNI_GLOBAL)
        } else if code == 22 {
            Some(jvmtiHeapReferenceKind::JVMTI_HEAP_REFERENCE_SYSTEM_CLASS)
        } else if code == 23 {
            Some(jvmtiHeapReferenceKind::JVMTI_HEAP_REFERENCE_MONITOR)
        } else if code == 24 {
            Some(jvmtiHeapReferenceKind::JVMTI_HEAP_REFERENCE_STACK_LOCAL)
        } else if code == 25 {
            Some(jvmtiHeapReferenceKind::JVMTI_HEAP_REFERENCE_JNI_LOCAL)
        } else if code == 26 {
            Some(jvmtiHeapReferenceKind::JVMTI_HEAP_REFERENCE_THREAD)
        } else if code == 27 {
            Some(jvmtiHeapReferenceKind::JVMTI_HEAP_REFERENCE_OTHER)
        } else {
            None
        }
    }
}

/// The primitive type of a field or array value, by its signature character.
#[derive(Clone, Copy, Debug, PartialEq, Eq, Structural)]
pub enum jvmtiPrimitiveType {
    JVMTI_PRIMITIVE_TYPE_BOOLEAN,
    JVMTI_PRIMITIVE_TYPE_BYTE,
    JVMTI_PRIMITIVE_TYPE_CHAR,
    JVMTI_PRIMITIVE_TYPE_SHORT,
    JVMTI_PRIMITIVE_TYPE_INT,
    JVMTI_PRIMITIVE_TYPE_LONG,
    JVMTI_PRIMITIVE_TYPE_FLOAT,
    JVMTI_PRIMITIVE_TYPE_DOUBLE,
}

impl jvmtiPrimitiveType {
    /// The number that the interface uses for this value.
    pub open spec fn spec_code(self) -> u32 {
        match self {
            jvmtiPrimitiveType::JVMTI_PRIMITIVE_TYPE_BOOLEAN => 90,
            jvmtiPrimitiveType::JVMTI_PRIMITIVE_TYPE_BYTE => 66,
            jvmtiPrimitiveType::JVMTI_PRIMITIVE_TYPE_CHAR => 67,
            jvmtiPrimitiveType::JVMTI_PRIMITIVE_TYPE_SHORT => 83,
            jvmtiPrimitiveType::JVMTI_PRIMITIVE_TYPE_INT => 73,
            jvmtiPrimitiveType::JVMTI_PRIMITIVE_TYPE_LONG => 74,
            jvmtiPrimitiveType::JVMTI_PRIMITIVE_TYPE_FLOAT => 70,
            jvmtiPrimitiveType::JVMTI_PRIMITIVE_TYPE_DOUBLE => 68,
        }
    }

    /// The number that the interface uses for this value.
    pub fn code(self) -> (c: u32)
        ensures
            c == self.spec_code(),
    {
        match self {
            jvmtiPrimitiveType::JVMTI_PRIMITIVE_TYPE_BOOLEAN => 90,
            jvmtiPrimitiveType::JVMTI_PRIMITIVE_TYPE_BYTE => 66,
            jvmtiPrimitiveType::JVMTI_PRIMITIVE_TYPE_CHAR => 67,
            jvmtiPrimitiveType::JVMTI_PRIMITIVE_TYPE_SHORT => 83,
            jvmtiPrimitiveType::JVMTI_PRIMITIVE_TYPE_INT => 73,
            jvmtiPrimitiveType::JVMTI_PRIMITIVE_TYPE_LONG => 74,
            jvmtiPrimitiveType::JVMTI_PRIMITIVE_TYPE_FLOAT => 70,
            jvmtiPrimitiveType::JVMTI_PRIMITIVE_TYPE_DOUBLE => 68,
        }
    }

    /// The value that a number stands for, if it stands for one.
    pub fn from_code(code: u32) -> (r: Option<Self>)
        ensures
            match r {
                Some(v) => v.spec_code() == code,
                None => forall|v: jvmtiPrimitiveType| #[trigger] v.spec_code() != code,
            },
    {
        if code == 90 {
            Some(jvmtiPrimitiveType::JVMTI_PRIMITIVE_TYPE_BOOLEAN)
        } else if code == 66 {
            Some(jvmtiPrimitiveType::JVMTI_PRIMITIVE_TYPE_BYTE)
        } else if code == 67 {
            Some(jvmtiPrimitiveType::JVMTI_PRIMITIVE_TYPE_CHAR)
        } else if code == 83 {
            Some(jvmtiPrimitiveType::JVMTI_PRIMITIVE_TYPE_SHORT)
        } else if code == 73 {
            Some(jvmtiPrimitiveType::JVMTI_PRIMITIVE_TYPE_INT)
        } else if code == 74 {
            Some(jvmtiPrimitiveType::JVMTI_PRIMITIVE_TYPE_LONG)
        } else if code == 70 {
            Some(jvmtiPrimitiveType::JVMTI_PRIMITIVE_TYPE_FLOAT)
        } else if code == 68 {
            Some(jvmtiPrimitiveType::JVMTI_PRIMITIVE_TYPE_DOUBLE)
        } else {
            None
        }
    }
}

/// Which objects a heap iteration visits, by whether they are tagged.
#[derive(Clone, Copy, Debug, PartialEq, Eq, Structural)]
pub enum jvmtiHeapObjectFilter {
    JVMTI_HEAP_OBJECT_TAGGED,
    JVMTI_HEAP_OBJECT_UNTAGGED,
    JVMTI_HEAP_OBJECT_EITHER,
}

impl jvmtiHeapObjectFilter {
    /// The number that the interface uses for this value.
    pub open spec fn spec_code(self) -> u32 {
        match self {
            jvmtiHeapObjectFilter::JVMTI_HEAP_OBJECT_TAGGED => 1,
            jvmtiHeapObjectFilter::JVMTI_HEAP_OBJECT_UNTAGGED => 2,
            jvmtiHeapObjectFilter::JVMTI_HEAP_OBJECT_EITHER => 3,
        }
    }

    /// The number that the interface uses for this value.
    pub fn code(self) -> (c: u32)
        ensures
            c == self.spec_code(),
    {
        match self {
            jvmtiHeapObjectFilter::JVMTI_HEAP_OBJECT_TAGGED => 1,
            jvmtiHeapObjectFilter::JVMTI_HEAP_OBJECT_UNTAGGED => 2,
            jvmtiHeapObjectFilter::JVMTI_HEAP_OBJECT_EITHER => 3,
        }
    }

    /// The value that a number stands for, if it stands for one.
    pub fn from_code(code: u32) -> (r: Option<Self>)
        ensures
            match r {
                Some(v) => v.spec_code() == code,
                None => forall|v: jvmtiHeapObjectFilter| #[trigger] v.spec_code() != code,
            },
    {
        if code == 1 {
            Some(jvmtiHeapObjectFilter::JVMTI_HEAP_OBJECT_TAGGED)
        } else if code == 2 {
            Some(jvmtiHeapObjectFilter::JVMTI_HEAP_OBJECT_UNTAGGED)
        } else if code == 3 {
            Some(jvmtiHeapObjectFilter::JVMTI_HEAP_OBJECT_EITHER)
        } else {
            None
        }
    }
}

/// The kind of heap root that a heap walk reports.
#[derive(Clone, Copy, Debug, PartialEq, Eq, Structural)]
pub enum jvmtiHeapRootKind {
    JVMTI_HEAP_ROOT_JNI_GLOBAL,
    JVMTI_HEAP_ROOT_SYSTEM_CLASS,
    JVMTI_HEAP_ROOT_MONITOR,
    JVMTI_HEAP_ROOT_STACK_LOCAL,
    JVMTI_HEAP_ROOT_JNI_LOCAL,
    JVMTI_HEAP_ROOT_THREAD,
    JVMTI_HEAP_ROOT_OTHER,
}

impl jvmtiHeapRootKind {
    /// The number that the interface uses for this value.
    pub open spec fn spec_code(self) -> u32 {
        match self {
            jvmtiHeapRootKind::JVMTI_HEAP_ROOT_JNI_GLOBAL => 1,
            jvmtiHeapRootKind::JVMTI_HEAP_ROOT_SYSTEM_CLASS => 2,
            jvmtiHeapRootKind::JVMTI_HEAP_ROOT_MONITOR => 3,
            jvmtiHeapRootKind::JVMTI_HEAP_ROOT_STACK_LOCAL => 4,
            jvmtiHeapRootKind::JVMTI_HEAP_ROOT_JNI_LOCAL => 5,
            jvmtiHeapRootKind::JVMTI_HEAP_ROOT_THREAD => 6,
            jvmtiHeapRootKind::JVMTI_HEAP_ROOT_OTHER => 7,
        }
    }

    /// The number that the interface uses for this value.
    pub fn code(self) -> (c: u32)
        ensures
            c == self.spec_code(),
    {
        match self {
            jvmtiHeapRootKind::JVMTI_HEAP_ROOT_JNI_GLOBAL => 1,
            jvmtiHeapRootKind::JVMTI_HEAP_ROOT_SYSTEM_CLASS => 2,
            jvmtiHeapRootKind::JVMTI_HEAP_ROOT_MONITOR => 3,
            jvmtiHeapRootKind::JVMTI_HEAP_ROOT_STACK_LOCAL => 4,
            jvmtiHeapRootKind::JVMTI_HEAP_ROOT_JNI_LOCAL => 5,
            jvmtiHeapRootKind::JVMTI_HEAP_ROOT_THREAD => 6,
            jvmtiHeapRootKind::JVMTI_HEAP_ROOT_OTHER => 7,
        }
    }

    /// The value that a number stands for, if it stands for one.
    pub fn from_code(code: u32) -> (r: Option<Self>)
        ensures
            match r {
                Some(v) => v.spec_code() == code,
                None => forall|v: jvmtiHeapRootKind| #[trigger] v.spec_code() != code,
            },
    {
        if code == 1 {
            Some(jvmtiHeapRootKind::JVMTI_HEAP_ROOT_JNI_GLOBAL)
        } else if code == 2 {
            Some(jvmtiHeapRootKind::JVMTI_HEAP_ROOT_SYSTEM_CLASS)
        } else if code == 3 {
            Some(jvmtiHeapRootKind::JVMTI_HEAP_ROOT_MONITOR)
        } else if code == 4 {
            Some(jvmtiHeapRootKind::JVMTI_HEAP_ROOT_STACK_LOCAL)
        } else if code == 5 {
            Some(jvmtiHeapRootKind::JVMTI_HEAP_ROOT_JNI_LOCAL)
        } else if code == 6 {
            Some(jvmtiHeapRootKind::JVMTI_HEAP_ROOT_THREAD)
        } else if code == 7 {
            Some(jvmtiHeapRootKind::JVMTI_HEAP_ROOT_OTHER)
        } else {
            None
        }
    }
}

/// The kind of reference between two objects.
#[derive(Clone, Copy, Debug, PartialEq, Eq, Structural)]
pub enum jvmtiObjectReferenceKind {
    JVMTI_REFERENCE_CLASS,
    JVMTI_REFERENCE_FIELD,
    JVMTI_REFERENCE_ARRAY_ELEMENT,
    JVMTI_REFERENCE_CLASS_LOADER,
    JVMTI_REFERENCE_SIGNERS,
    JVMTI_REFERENCE_PROTECTION_DOMAIN,
    JVMTI_REFERENCE_INTERFACE,
    JVMTI_REFERENCE_STATIC_FIELD,
    JVMTI_REFERENCE_CONSTANT_POOL,
}

impl jvmtiObjectReferenceKind {
    /// The number that the interface uses for this value.
    pub open spec fn spec_code(self) -> u32 {
        match self {
            jvmtiObjectReferenceKind::JVMTI_REFERENCE_CLASS => 1,
            jvmtiObjectReferenceKind::JVMTI_REFERENCE_FIELD => 2,
            jvmtiObjectReferenceKind::JVMTI_REFERENCE_ARRAY_ELEMENT => 3,
            jvmtiObjectReferenceKind::JVMTI_REFERENCE_CLASS_LOADER => 4,
            jvmtiObjectReferenceKind::JVMTI_REFERENCE_SIGNERS => 5,
            jvmtiObjectReferenceKind::JVMTI_REFERENCE_PROTECTION_DOMAIN => 6,
            jvmtiObjectReferenceKind::JVMTI_REFERENCE_INTERFACE => 7,
            jvmtiObjectReferenceKind::JVMTI_REFERENCE_STATIC_FIELD => 8,
            jvmtiObjectReferenceKind::JVMTI_REFERENCE_CONSTANT_POOL => 9,
        }
    }

    /// The number that the interface uses for this value.
    pub fn code(self) -> (c: u32)
        ensures
            c == self.spec_code(),
    {
        match self {
            jvmtiObjectReferenceKind::JVMTI_REFERENCE_CLASS => 1,
            jvmtiObjectReferenceKind::JVMTI_REFERENCE_FIELD => 2,
            jvmtiObjectReferenceKind::JVMTI_REFERENCE_ARRAY_ELEMENT => 3,
            jvmtiObjectReferenceKind::JVMTI_REFERENCE_CLASS_LOADER => 4,
            jvmtiObjectReferenceKind::JVMTI_REFERENCE_SIGNERS => 5,
            jvmtiObjectReferenceKind::JVMTI_REFERENCE_PROTECTION_DOMAIN => 6,
            jvmtiObjectReferenceKind::JVMTI_REFERENCE_INTERFACE => 7,
            jvmtiObjectReferenceKind::JVMTI_REFERENCE_STATIC_FIELD => 8,
            jvmtiObjectReferenceKind::JVMTI_REFERENCE_CONSTANT_POOL => 9,
        }
    }

    /// The value that a number stands for, if it stands for one.
    pub fn from_code(code: u32) -> (r: Option<Self>)
        ensures
            match r {
                Some(v) => v.spec_code() == code,
                None => forall|v: jvmtiObjectReferenceKind| #[trigger] v.spec_code() != code,
            },
    {
        if code == 1 {
            Some(jvmtiObjectReferenceKind::JVMTI_REFERENCE_CLASS)
        } else if code == 2 {
            Some(jvmtiObjectReferenceKind::JVMTI_REFERENCE_FIELD)
        } else if code == 3 {
            Some(jvmtiObjectReferenceKind::JVMTI_REFERENCE_ARRAY_ELEMENT)
        } else if code == 4 {
            Some(jvmtiObjectReferenceKind::JVMTI_REFERENCE_CLASS_LOADER)
        } else if code == 5 {
            Some(jvmtiObjectReferenceKind::JVMTI_REFERENCE_SIGNERS)
        } else if code == 6 {
            Some(jvmtiObjectReferenceKind::JVMTI_REFERENCE_PROTECTION_DOMAIN)
        } else if code == 7 {
            Some(jvmtiObjectReferenceKind::JVMTI_REFERENCE_INTERFACE)
        } else if code == 8 {
            Some(jvmtiObjectReferenceKind::JVMTI_REFERENCE_STATIC_FIELD)
        } else if code == 9 {
            Some(jvmtiObjectReferenceKind::JVMTI_REFERENCE_CONSTANT_POOL)
        } else {
            None
        }
    }
}

/// What a heap callback tells the iteration to do next.
#[derive(Clone, Copy, Debug, PartialEq, Eq, Structural)]
pub enum jvmtiIterationControl {
    JVMTI_ITERATION_CONTINUE,
    JVMTI_ITERATION_IGNORE,
    JVMTI_ITERATION_ABORT,
}

impl jvmtiIterationControl {
    /// The number that the interface uses for this value.
    pub open spec fn spec_code(self) -> u32 {
        match self {
            jvmtiIterationControl::JVMTI_ITERATION_CONTINUE => 1,
            jvmtiIterationControl::JVMTI_ITERATION_IGNORE => 2,
            jvmtiIterationControl::JVMTI_ITERATION_ABORT => 0,
        }
    }

    /// The number that the interface uses for this value.
    pub fn code(self) -> (c: u32)
        ensures
            c == self.spec_code(),
    {
        match self {
            jvmtiIterationControl::JVMTI_ITERATION_CONTINUE => 1,
            jvmtiIterationControl::JVMTI_ITERATION_IGNORE => 2,
            jvmtiIterationControl::JVMTI_ITERATION_ABORT => 0,
        }
    }

    /// The value that a number stands for, if it stands for one.
    pub fn from_code(code: u32) -> (r: Option<Self>)
        ensures
            match r {
                Some(v) => v.spec_code() == code,
                None => forall|v: jvmtiIterationControl| #[trigger] v.spec_code() != code,
            },
    {
        if code == 1 {
            Some(jvmtiIterationControl::JVMTI_ITERATION_CONTINUE)
        } else if code == 2 {
            Some(jvmtiIterationControl::JVMTI_ITERATION_IGNORE)
        } else if code == 0 {
            Some(jvmtiIterationControl::JVMTI_ITERATION_ABORT)
        } else {
            None
        }
    }
}

/// Whether an event is switched on or off.
#[derive(Clone, Copy, Debug, PartialEq, Eq, Structural)]
pub enum jvmtiEventMode {
    JVMTI_ENABLE,
    JVMTI_DISABLE,
}

impl jvmtiEventMode {
    /// The number that the interface uses for this value.
    pub open spec fn spec_code(self) -> u32 {
        match self {
            jvmtiEventMode::JVMTI_ENABLE => 1,
            jvmtiEventMode::JVMTI_DISABLE => 0,
        }
    }

    /// The number that the interface uses for this value.
    pub fn code(self) -> (c: u32)
        ensures
            c == self.spec_code(),
    {
        match self {
            jvmtiEventMode::JVMTI_ENABLE => 1,
            jvmtiEventMode::JVMTI_DISABLE => 0,
        }
    }

    /// The value that a number stands for, if it stands for one.
    pub fn from_code(code: u32) -> (r: Option<Self>)
        ensures
            match r {
                Some(v) => v.spec_code() == code,
                None => forall|v: jvmtiEventMode| #[trigger] v.spec_code() != code,
            },
    {
        if code == 1 {
            Some(jvmtiEventMode::JVMTI_ENABLE)
        } else if code == 0 {
            Some(jvmtiEventMode::JVMTI_DISABLE)
        } else {
            None
        }
    }
}

/// The type of a parameter of an extension function or event.
#[derive(Clone, Copy, Debug, PartialEq, Eq, Structural)]
pub enum jvmtiParamTypes {
    JVMTI_TYPE_JBYTE,
    JVMTI_TYPE_JCHAR,
    JVMTI_TYPE_JSHORT,
    JVMTI_TYPE_JINT,
    JVMTI_TYPE_JLONG,
    JVMTI_TYPE_JFLOAT,
    JVMTI_TYPE_JDOUBLE,
    JVMTI_TYPE_JBOOLEAN,
    JVMTI_TYPE_JOBJECT,
    JVMTI_TYPE_JTHREAD,
    JVMTI_TYPE_JCLASS,
    JVMTI_TYPE_JVALUE,
    JVMTI_TYPE_JFIELDID,
    JVMTI_TYPE_JMETHODID,
    JVMTI_TYPE_CCHAR,
    JVMTI_TYPE_CVOID,
    JVMTI_TYPE_JNIENV,
}

impl jvmtiParamTypes {
    /// The number that the interface uses for this value.
    pub open spec fn spec_code(self) -> u32 {
        match self {
            jvmtiParamTypes::JVMTI_TYPE_JBYTE => 101,
            jvmtiParamTypes::JVMTI_TYPE_JCHAR => 102,
            jvmtiParamTypes::JVMTI_TYPE_JSHORT => 103,
            jvmtiParamTypes::JVMTI_TYPE_JINT => 104,
            jvmtiParamTypes::JVMTI_TYPE_JLONG => 105,
            jvmtiParamTypes::JVMTI_TYPE_JFLOAT => 106,
            jvmtiParamTypes::JVMTI_TYPE_JDOUBLE => 107,
            jvmtiParamTypes::JVMTI_TYPE_JBOOLEAN => 108,
            jvmtiParamTypes::JVMTI_TYPE_JOBJECT => 109,
            jvmtiParamTypes::JVMTI_TYPE_JTHREAD => 110,
            jvmtiParamTypes::JVMTI_TYPE_JCLASS => 111,
            jvmtiParamTypes::JVMTI_TYPE_JVALUE => 112,
            jvmtiParamTypes::JVMTI_TYPE_JFIELDID => 113,
            jvmtiParamTypes::JVMTI_TYPE_JMETHODID => 114,
            jvmtiParamTypes::JVMTI_TYPE_CCHAR => 115,
            jvmtiParamTypes::JVMTI_TYPE_CVOID => 116,
            jvmtiParamTypes::JVMTI_TYPE_JNIENV => 117,
        }
    }

    /// The number that the interface uses for this value.
    pub fn code(self) -> (c: u32)
        ensures
            c == self.spec_code(),
    {
        match self {
            jvmtiParamTypes::JVMTI_TYPE_JBYTE => 101,
            jvmtiParamTypes::JVMTI_TYPE_JCHAR => 102,
            jvmtiParamTypes::JVMTI_TYPE_JSHORT => 103,
            jvmtiParamTypes::JVMTI_TYPE_JINT => 104,
            jvmtiParamTypes::JVMTI_TYPE_JLONG => 105,
            jvmtiParamTypes::JVMTI_TYPE_JFLOAT => 106,
            jvmtiParamTypes::JVMTI_TYPE_JDOUBLE => 107,
            jvmtiParamTypes::JVMTI_TYPE_JBOOLEAN => 108,
            jvmtiParamTypes::JVMTI_TYPE_JOBJECT => 109,
            jvmtiParamTypes::JVMTI_TYPE_JTHREAD => 110,
            jvmtiParamTypes::JVMTI_TYPE_JCLASS => 111,
            jvmtiParamTypes::JVMTI_TYPE_JVALUE => 112,
            jvmtiParamTypes::JVMTI_TYPE_JFIELDID => 113,
            jvmtiParamTypes::JVMTI_TYPE_JMETHODID => 114,
            jvmtiParamTypes::JVMTI_TYPE_CCHAR => 115,
            jvmtiParamTypes::JVMTI_TYPE_CVOID => 116,
            jvmtiParamTypes::JVMTI_TYPE_JNIENV => 117,
        }
    }

    /// The value that a number stands for, if it stands for one.
    pub fn from_code(code: u32) -> (r: Option<Self>)
        ensures
            match r {
                Some(v) => v.spec_code() == code,
                None => forall|v: jvmtiParamTypes| #[trigger] v.spec_code() != code,
            },
    {
        if code == 101 {
            Some(jvmtiParamTypes::JVMTI_TYPE_JBYTE)
        } else if code == 102 {
            Some(jvmtiParamTypes::JVMTI_TYPE_JCHAR)
        } else if code == 103 {
            Some(jvmtiParamTypes::JVMTI_TYPE_JSHORT)
        } else if code == 104 {
            Some(jvmtiParamTypes::JVMTI_TYPE_JINT)
        } else if code == 105 {
            Some(jvmtiParamTypes::JVMTI_TYPE_JLONG)
        } else if code == 106 {
            Some(jvmtiParamTypes::JVMTI_TYPE_JFLOAT)
        } else if code == 107 {
            Some(jvmtiParamTypes::JVMTI_TYPE_JDOUBLE)
        } else if code == 108 {
            Some(jvmtiParamTypes::JVMTI_TYPE_JBOOLEAN)
        } else if code == 109 {
            Some(jvmtiParamTypes::JVMTI_TYPE_JOBJECT)
        } else if code == 110 {
            Some(jvmtiParamTypes::JVMTI_TYPE_JTHREAD)
        } else if code == 111 {
            Some(jvmtiParamTypes::JVMTI_TYPE_JCLASS)
        } else if code == 112 {
            Some(jvmtiParamTypes::JVMTI_TYPE_JVALUE)
        } else if code == 113 {
            Some(jvmtiParamTypes::JVMTI_TYPE_JFIELDID)
        } else if code == 114 {
            Some(jvmtiParamTypes::JVMTI_TYPE_JMETHODID)
        } else if code == 115 {
            Some(jvmtiParamTypes::JVMTI_TYPE_CCHAR)
        } else if code == 116 {
            Some(jvmtiParamTypes::JVMTI_TYPE_CVOID)
        } else if code == 117 {
            Some(jvmtiParamTypes::JVMTI_TYPE_JNIENV)
        } else {
            None
        }
    }
}

/// How a parameter of an extension function or event is passed.
#[derive(Clone, Copy, Debug, PartialEq, Eq, Structural)]
pub enum jvmtiParamKind {
    JVMTI_KIND_IN,
    JVMTI_KIND_IN_PTR,
    JVMTI_KIND_IN_BUF,
    JVMTI_KIND_ALLOC_BUF,
    JVMTI_KIND_ALLOC_ALLOC_BUF,
    JVMTI_KIND_OUT,
    JVMTI_KIND_OUT_BUF,
}

impl jvmtiParamKind {
    /// The number that the interface uses for this value.
    pub open spec fn spec_code(self) -> u32 {
        match self {
            jvmtiParamKind::JVMTI_KIND_IN => 91,
            jvmtiParamKind::JVMTI_KIND_IN_PTR => 92,
            jvmtiParamKind::JVMTI_KIND_IN_BUF => 93,
            jvmtiParamKind::JVMTI_KIND_ALLOC_BUF => 94,
            jvmtiParamKind::JVMTI_KIND_ALLOC_ALLOC_BUF => 95,
            jvmtiParamKind::JVMTI_KIND_OUT => 96,
            jvmtiParamKind::JVMTI_KIND_OUT_BUF => 97,
        }
    }

    /// The number that the interface uses for this value.
    pub fn code(self) -> (c: u32)
        ensures
            c == self.spec_code(),
    {
        match self {
            jvmtiParamKind::JVMTI_KIND_IN => 91,
            jvmtiParamKind::JVMTI_KIND_IN_PTR => 92,
            jvmtiParamKind::JVMTI_KIND_IN_BUF => 93,
            jvmtiParamKind::JVMTI_KIND_ALLOC_BUF => 94,
            jvmtiParamKind::JVMTI_KIND_ALLOC_ALLOC_BUF => 95,
            jvmtiParamKind::JVMTI_KIND_OUT => 96,
            jvmtiParamKind::JVMTI_KIND_OUT_BUF => 97,
        }
    }

    /// The value that a number stands for, if it stands for one.
    pub fn from_code(code: u32) -> (r: Option<Self>)
        ensures
            match r {
                Some(v) => v.spec_code() == code,
                None => forall|v: jvmtiParamKind| #[trigger] v.spec_code() != code,
            },
    {
        if code == 91 {
            Some(jvmtiParamKind::JVMTI_KIND_IN)
        } else if code == 92 {
            Some(jvmtiParamKind::JVMTI_KIND_IN_PTR)
        } else if code == 93 {
            Some(jvmtiParamKind::JVMTI_KIND_IN_BUF)
        } else if code == 94 {
            Some(jvmtiParamKind::JVMTI_KIND_ALLOC_BUF)
        } else if code == 95 {
            Some(jvmtiParamKind::JVMTI_KIND_ALLOC_ALLOC_BUF)
        } else if code == 96 {
            Some(jvmtiParamKind::JVMTI_KIND_OUT)
        } else if code == 97 {
            Some(jvmtiParamKind::JVMTI_KIND_OUT_BUF)
        } else {
            None
        }
    }
}

/// What a timer measures.
#[derive(Clone, Copy, Debug, PartialEq, Eq, Structural)]
pub enum jvmtiTimerKind {
    JVMTI_TIMER_USER_CPU,
    JVMTI_TIMER_TOTAL_CPU,
    JVMTI_TIMER_ELAPSED,
}

impl jvmtiTimerKind {
    /// The number that the interface uses for this value.
    pub open spec fn spec_code(self) -> u32 {
        match self {
            jvmtiTimerKind::JVMTI_TIMER_USER_CPU => 30,
            jvmtiTimerKind::JVMTI_TIMER_TOTAL_CPU => 31,
            jvmtiTimerKind::JVMTI_TIMER_ELAPSED => 32,
        }
    }

    /// The number that the interface uses for this value.
    pub fn code(self) -> (c: u32)
        ensures
            c == self.spec_code(),
    {
        match self {
            jvmtiTimerKind::JVMTI_TIMER_USER_CPU => 30,
            jvmtiTimerKind::JVMTI_TIMER_TOTAL_CPU => 31,
            jvmtiTimerKind::JVMTI_TIMER_ELAPSED => 32,
        }
    }

    /// The value that a number stands for, if it stands for one.
    pub fn from_code(code: u32) -> (r: Option<Self>)
        ensures
            match r {
                Some(v) => v.spec_code() == code,
                None => forall|v: jvmtiTimerKind| #[trigger] v.spec_code() != code,
            },
    {
        if code == 30 {
            Some(jvmtiTimerKind::JVMTI_TIMER_USER_CPU)
        } else if code == 31 {
            Some(jvmtiTimerKind::JVMTI_TIMER_TOTAL_CPU)
        } else if code == 32 {
            Some(jvmtiTimerKind::JVMTI_TIMER_ELAPSED)
        } else {
            None
        }
    }
}

/// The phase of the virtual machine's life.
#[derive(Clone, Copy, Debug, PartialEq, Eq, Structural)]
pub enum jvmtiPhase {
    JVMTI_PHASE_ONLOAD,
    JVMTI_PHASE_PRIMORDIAL,
    JVMTI_PHASE_START,
    JVMTI_PHASE_LIVE,
    JVMTI_PHASE_DEAD,
}

impl jvmtiPhase {
    /// The number that the interface uses for this value.
    pub open spec fn spec_code(self) -> u32 {
        match self {
            jvmtiPhase::JVMTI_PHASE_ONLOAD => 1,
            jvmtiPhase::JVMTI_PHASE_PRIMORDIAL => 2,
            jvmtiPhase::JVMTI_PHASE_START => 6,
            jvmtiPhase::JVMTI_PHASE_LIVE => 4,
            jvmtiPhase::JVMTI_PHASE_DEAD => 8,
        }
    }

    /// The number that the interface uses for this value.
    pub fn code(self) -> (c: u32)
        ensures
            c == self.spec_code(),
    {
        match self {
            jvmtiPhase::JVMTI_PHASE_ONLOAD => 1,
            jvmtiPhase::JVMTI_PHASE_PRIMORDIAL => 2,
            jvmtiPhase::JVMTI_PHASE_START => 6,
            jvmtiPhase::JVMTI_PHASE_LIVE => 4,
            jvmtiPhase::JVMTI_PHASE_DEAD => 8,
        }
    }

    /// The value that a number stands for, if it stands for one.
    pub fn from_code(code: u32) -> (r: Option<Self>)
        ensures
            match r {
                Some(v) => v.spec_code() == code,
                None => forall|v: jvmtiPhase| #[trigger] v.spec_code() != code,
            },
    {
        if code == 1 {
            Some(jvmtiPhase::JVMTI_PHASE_ONLOAD)
        } else if code == 2 {
            Some(jvmtiPhase::JVMTI_PHASE_PRIMORDIAL)
        } else if code == 6 {
            Some(jvmtiPhase::JVMTI_PHASE_START)
        } else if code == 4 {
            Some(jvmtiPhase::JVMTI_PHASE_LIVE)
        } else if code == 8 {
            Some(jvmtiPhase::JVMTI_PHASE_DEAD)
        } else {
            None
        }
    }
}

/// A kind of verbose output.
#[derive(Clone, Copy, Debug, PartialEq, Eq, Structural)]
pub enum jvmtiVerboseFlag {
    JVMTI_VERBOSE_OTHER,
    JVMTI_VERBOSE_GC,
    JVMTI_VERBOSE_CLASS,
    JVMTI_VERBOSE_JNI,
}

impl jvmtiVerboseFlag {
    /// The number that the interface uses for this value.
    pub open spec fn spec_code(self) -> u32 {
        match self {
            jvmtiVerboseFlag::JVMTI_VERBOSE_OTHER => 0,
            jvmtiVerboseFlag::JVMTI_VERBOSE_GC => 1,
            jvmtiVerboseFlag::JVMTI_VERBOSE_CLASS => 2,
            jvmtiVerboseFlag::JVMTI_VERBOSE_JNI => 4,
        }
    }

    /// The number that the interface uses for this value.
    pub fn code(self) -> (c: u32)
        ensures
            c == self.spec_code(),
    {
        match self {
            jvmtiVerboseFlag::JVMTI_VERBOSE_OTHER => 0,
            jvmtiVerboseFlag::JVMTI_VERBOSE_GC => 1,
            jvmtiVerboseFlag::JVMTI_VERBOSE_CLASS => 2,
            jvmtiVerboseFlag::JVMTI_VERBOSE_JNI => 4,
        }
    }

    /// The value that a number stands for, if it stands for one.
    pub fn from_code(code: u32) -> (r: Option<Self>)
        ensures
            match r {
                Some(v) => v.spec_code() == code,
                None => forall|v: jvmtiVerboseFlag| #[trigger] v.spec_code() != code,
            },
    {
        if code == 0 {
            Some(jvmtiVerboseFlag::JVMTI_VERBOSE_OTHER)
        } else if code == 1 {
            Some(jvmtiVerboseFlag::JVMTI_VERBOSE_GC)
        } else if code == 2 {
            Some(jvmtiVerboseFlag::JVMTI_VERBOSE_CLASS)
        } else if code == 4 {
            Some(jvmtiVerboseFlag::JVMTI_VERBOSE_JNI)
        } else {
            None
        }
    }
}

/// How a location within a method is to be read.
#[derive(Clone, Copy, Debug, PartialEq, Eq, Structural)]
pub enum jvmtiJlocationFormat {
    JVMTI_JLOCATION_JVMBCI,
    JVMTI_JLOCATION_MACHINEPC,
    JVMTI_JLOCATION_OTHER,
}

impl jvmtiJlocationFormat {
    /// The number that the interface uses for this value.
    pub open spec fn spec_code(self) -> u32 {
        match self {
            jvmtiJlocationFormat::JVMTI_JLOCATION_JVMBCI => 1,
            jvmtiJlocationFormat::JVMTI_JLOCATION_MACHINEPC => 2,
            jvmtiJlocationFormat::JVMTI_JLOCATION_OTHER => 0,
        }
    }

    /// The number that the interface uses for this value.
    pub fn code(self) -> (c: u32)
        ensures
            c == self.spec_code(),
    {
        match self {
            jvmtiJlocationFormat::JVMTI_JLOCATION_JVMBCI => 1,
            jvmtiJlocationFormat::JVMTI_JLOCATION_MACHINEPC => 2,
            jvmtiJlocationFormat::JVMTI_JLOCATION_OTHER => 0,
        }
    }

    /// The value that a number stands for, if it stands for one.
    pub fn from_code(code: u32) -> (r: Option<Self>)
        ensures
            match r {
                Some(v) => v.spec_code() == code,
                None => forall|v: jvmtiJlocationFormat| #[trigger] v.spec_code() != code,
            },
    {
        if code == 1 {
            Some(jvmtiJlocationFormat::JVMTI_JLOCATION_JVMBCI)
        } else if code == 2 {
            Some(jvmtiJlocationFormat::JVMTI_JLOCATION_MACHINEPC)
        } else if code == 0 {
            Some(jvmtiJlocationFormat::JVMTI_JLOCATION_OTHER)
        } else {
            None
        }
    }
}

/// The result code of a call into the tool interface.
#[derive(Clone, Copy, Debug, PartialEq, Eq, Structural)]
pub enum jvmtiError {
    JVMTI_ERROR_NONE,
    JVMTI_ERROR_INVALID_THREAD,
    JVMTI_ERROR_INVALID_THREAD_GROUP,
    JVMTI_ERROR_INVALID_PRIORITY,
    JVMTI_ERROR_THREAD_NOT_SUSPENDED,
    JVMTI_ERROR_THREAD_SUSPENDED,
    JVMTI_ERROR_THREAD_NOT_ALIVE,
    JVMTI_ERROR_INVALID_OBJECT,
    JVMTI_ERROR_INVALID_CLASS,
    JVMTI_ERROR_CLASS_NOT_PREPARED,
    JVMTI_ERROR_INVALID_METHODID,
    JVMTI_ERROR_INVALID_LOCATION,
    JVMTI_ERROR_INVALID_FIELDID,
    JVMTI_ERROR_NO_MORE_FRAMES,
    JVMTI_ERROR_OPAQUE_FRAME,
    JVMTI_ERROR_TYPE_MISMATCH,
    JVMTI_ERROR_INVALID_SLOT,
    JVMTI_ERROR_DUPLICATE,
    JVMTI_ERROR_NOT_FOUND,
    JVMTI_ERROR_INVALID_MONITOR,
    JVMTI_ERROR_NOT_MONITOR_OWNER,
    JVMTI_ERROR_INTERRUPT,
    JVMTI_ERROR_INVALID_CLASS_FORMAT,
    JVMTI_ERROR_CIRCULAR_CLASS_DEFINITION,
    JVMTI_ERROR_FAILS_VERIFICATION,
    JVMTI_ERROR_UNSUPPORTED_REDEFINITION_METHOD_ADDED,
    JVMTI_ERROR_UNSUPPORTED_REDEFINITION_SCHEMA_CHANGED,
    JVMTI_ERROR_INVALID_TYPESTATE,
    JVMTI_ERROR_UNSUPPORTED_REDEFINITION_HIERARCHY_CHANGED,
    JVMTI_ERROR_UNSUPPORTED_REDEFINITION_METHOD_DELETED,
    JVMTI_ERROR_UNSUPPORTED_VERSION,
    JVMTI_ERROR_NAMES_DONT_MATCH,
    JVMTI_ERROR_UNSUPPORTED_REDEFINITION_CLASS_MODIFIERS_CHANGED,
    JVMTI_ERROR_UNSUPPORTED_REDEFINITION_METHOD_MODIFIERS_CHANGED,
    JVMTI_ERROR_UNMODIFIABLE_CLASS,
    JVMTI_ERROR_NOT_AVAILABLE,
    JVMTI_ERROR_MUST_POSSESS_CAPABILITY,
    JVMTI_ERROR_NULL_POINTER,
    JVMTI_ERROR_ABSENT_INFORMATION,
    JVMTI_ERROR_INVALID_EVENT_TYPE,
    JVMTI_ERROR_ILLEGAL_ARGUMENT,
    JVMTI_ERROR_NATIVE_METHOD,
    JVMTI_ERROR_CLASS_LOADER_UNSUPPORTED,
    JVMTI_ERROR_OUT_OF_MEMORY,
    JVMTI_ERROR_ACCESS_DENIED,
    JVMTI_ERROR_WRONG_PHASE,
    JVMTI_ERROR_INTERNAL,
    JVMTI_ERROR_UNATTACHED_THREAD,
    JVMTI_ERROR_INVALID_ENVIRONMENT,
}

impl jvmtiError {
    /// The number that the interface uses for this value.
    pub open spec fn spec_code(self) -> u32 {
        match self {
            jvmtiError::JVMTI_ERROR_NONE => 0,
            jvmtiError::JVMTI_ERROR_INVALID_THREAD => 10,
            jvmtiError::JVMTI_ERROR_INVALID_THREAD_GROUP => 11,
            jvmtiError::JVMTI_ERROR_INVALID_PRIORITY => 12,
            jvmtiError::JVMTI_ERROR_THREAD_NOT_SUSPENDED => 13,
            jvmtiError::JVMTI_ERROR_THREAD_SUSPENDED => 14,
            jvmtiError::JVMTI_ERROR_THREAD_NOT_ALIVE => 15,
            jvmtiError::JVMTI_ERROR_INVALID_OBJECT => 20,
            jvmtiError::JVMTI_ERROR_INVALID_CLASS => 21,
            jvmtiError::JVMTI_ERROR_CLASS_NOT_PREPARED => 22,
            jvmtiError::JVMTI_ERROR_INVALID_METHODID => 23,
            jvmtiError::JVMTI_ERROR_INVALID_LOCATION => 24,
            jvmtiError::JVMTI_ERROR_INVALID_FIELDID => 25,
            jvmtiError::JVMTI_ERROR_NO_MORE_FRAMES => 31,
            jvmtiError::JVMTI_ERROR_OPAQUE_FRAME => 32,
            jvmtiError::JVMTI_ERROR_TYPE_MISMATCH => 34,
            jvmtiError::JVMTI_ERROR_INVALID_SLOT => 35,
            jvmtiError::JVMTI_ERROR_DUPLICATE => 40,
            jvmtiError::JVMTI_ERROR_NOT_FOUND => 41,
            jvmtiError::JVMTI_ERROR_INVALID_MONITOR => 50,
            jvmtiError::JVMTI_ERROR_NOT_MONITOR_OWNER => 51,
            jvmtiError::JVMTI_ERROR_INTERRUPT => 52,
            jvmtiError::JVMTI_ERROR_INVALID_CLASS_FORMAT => 60,
            jvmtiError::JVMTI_ERROR_CIRCULAR_CLASS_DEFINITION => 61,
            jvmtiError::JVMTI_ERROR_FAILS_VERIFICATION => 62,
            jvmtiError::JVMTI_ERROR_UNSUPPORTED_REDEFINITION_METHOD_ADDED => 63,
            jvmtiError::JVMTI_ERROR_UNSUPPORTED_REDEFINITION_SCHEMA_CHANGED => 64,
            jvmtiError::JVMTI_ERROR_INVALID_TYPESTATE => 65,
            jvmtiError::JVMTI_ERROR_UNSUPPORTED_REDEFINITION_HIERARCHY_CHANGED => 66,
            jvmtiError::JVMTI_ERROR_UNSUPPORTED_REDEFINITION_METHOD_DELETED => 67,
            jvmtiError::JVMTI_ERROR_UNSUPPORTED_VERSION => 68,
            jvmtiError::JVMTI_ERROR_NAMES_DONT_MATCH => 69,
            jvmtiError::JVMTI_ERROR_UNSUPPORTED_REDEFINITION_CLASS_MODIFIERS_CHANGED => 70,
            jvmtiError::JVMTI_ERROR_UNSUPPORTED_REDEFINITION_METHOD_MODIFIERS_CHANGED => 71,
            jvmtiError::JVMTI_ERROR_UNMODIFIABLE_CLASS => 79,
            jvmtiError::JVMTI_ERROR_NOT_AVAILABLE => 98,
            jvmtiError::JVMTI_ERROR_MUST_POSSESS_CAPABILITY => 99,
            jvmtiError::JVMTI_ERROR_NULL_POINTER => 100,
            jvmtiError::JVMTI_ERROR_ABSENT_INFORMATION => 101,
            jvmtiError::JVMTI_ERROR_INVALID_EVENT_TYPE => 102,
            jvmtiError::JVMTI_ERROR_ILLEGAL_ARGUMENT => 103,
            jvmtiError::JVMTI_ERROR_NATIVE_METHOD => 104,
            jvmtiError::JVMTI_ERROR_CLASS_LOADER_UNSUPPORTED => 106,
            jvmtiError::JVMTI_ERROR_OUT_OF_MEMORY => 110,
            jvmtiError::JVMTI_ERROR_ACCESS_DENIED => 111,
            jvmtiError::JVMTI_ERROR_WRONG_PHASE => 112,
            jvmtiError::JVMTI_ERROR_INTERNAL => 113,
            jvmtiError::JVMTI_ERROR_UNATTACHED_THREAD => 115,
            jvmtiError::JVMTI_ERROR_INVALID_ENVIRONMENT => 116,
        }
    }

    /// The number that the interface uses for this value.
    pub fn code(self) -> (c: u32)
        ensures
            c == self.spec_code(),
    {
        match self {
            jvmtiError::JVMTI_ERROR_NONE => 0,
            jvmtiError::JVMTI_ERROR_INVALID_THREAD => 10,
            jvmtiError::JVMTI_ERROR_INVALID_THREAD_GROUP => 11,
            jvmtiError::JVMTI_ERROR_INVALID_PRIORITY => 12,
            jvmtiError::JVMTI_ERROR_THREAD_NOT_SUSPENDED => 13,
            jvmtiError::JVMTI_ERROR_THREAD_SUSPENDED => 14,
            jvmtiError::JVMTI_ERROR_THREAD_NOT_ALIVE => 15,
            jvmtiError::JVMTI_ERROR_INVALID_OBJECT => 20,
            jvmtiError::JVMTI_ERROR_INVALID_CLASS => 21,
            jvmtiError::JVMTI_ERROR_CLASS_NOT_PREPARED => 22,
            jvmtiError::JVMTI_ERROR_INVALID_METHODID => 23,
            jvmtiError::JVMTI_ERROR_INVALID_LOCATION => 24,
            jvmtiError::JVMTI_ERROR_INVALID_FIELDID => 25,
            jvmtiError::JVMTI_ERROR_NO_MORE_FRAMES => 31,
            jvmtiError::JVMTI_ERROR_OPAQUE_FRAME => 32,
            jvmtiError::JVMTI_ERROR_TYPE_MISMATCH => 34,
            jvmtiError::JVMTI_ERROR_INVALID_SLOT => 35,
            jvmtiError::JVMTI_ERROR_DUPLICATE => 40,
            jvmtiError::JVMTI_ERROR_NOT_FOUND => 41,
            jvmtiError::JVMTI_ERROR_INVALID_MONITOR => 50,
            jvmtiError::JVMTI_ERROR_NOT_MONITOR_OWNER => 51,
            jvmtiError::JVMTI_ERROR_INTERRUPT => 52,
            jvmtiError::JVMTI_ERROR_INVALID_CLASS_FORMAT => 60,
            jvmtiError::JVMTI_ERROR_CIRCULAR_CLASS_DEFINITION => 61,
            jvmtiError::JVMTI_ERROR_FAILS_VERIFICATION => 62,
            jvmtiError::JVMTI_ERROR_UNSUPPORTED_REDEFINITION_METHOD_ADDED => 63,
            jvmtiError::JVMTI_ERROR_UNSUPPORTED_REDEFINITION_SCHEMA_CHANGED => 64,
            jvmtiError::JVMTI_ERROR_INVALID_TYPESTATE => 65,
            jvmtiError::JVMTI_ERROR_UNSUPPORTED_REDEFINITION_HIERARCHY_CHANGED => 66,
            jvmtiError::JVMTI_ERROR_UNSUPPORTED_REDEFINITION_METHOD_DELETED => 67,
            jvmtiError::JVMTI_ERROR_UNSUPPORTED_VERSION => 68,
            jvmtiError::JVMTI_ERROR_NAMES_DONT_MATCH => 69,
            jvmtiError::JVMTI_ERROR_UNSUPPORTED_REDEFINITION_CLASS_MODIFIERS_CHANGED => 70,
            jvmtiError::JVMTI_ERROR_UNSUPPORTED_REDEFINITION_METHOD_MODIFIERS_CHANGED => 71,
            jvmtiError::JVMTI_ERROR_UNMODIFIABLE_CLASS => 79,
            jvmtiError::JVMTI_ERROR_NOT_AVAILABLE => 98,
            jvmtiError::JVMTI_ERROR_MUST_POSSESS_CAPABILITY => 99,
            jvmtiError::JVMTI_ERROR_NULL_POINTER => 100,
            jvmtiError::JVMTI_ERROR_ABSENT_INFORMATION => 101,
            jvmtiError::JVMTI_ERROR_INVALID_EVENT_TYPE => 102,
            jvmtiError::JVMTI_ERROR_ILLEGAL_ARGUMENT => 103,
            jvmtiError::JVMTI_ERROR_NATIVE_METHOD => 104,
            jvmtiError::JVMTI_ERROR_CLASS_LOADER_UNSUPPORTED => 106,
            jvmtiError::JVMTI_ERROR_OUT_OF_MEMORY => 110,
            jvmtiError::JVMTI_ERROR_ACCESS_DENIED => 111,
            jvmtiError::JVMTI_ERROR_WRONG_PHASE => 112,
            jvmtiError::JVMTI_ERROR_INTERNAL => 113,
            jvmtiError::JVMTI_ERROR_UNATTACHED_THREAD => 115,
            jvmtiError::JVMTI_ERROR_INVALID_ENVIRONMENT => 116,
        }
    }

    /// The value that a number stands for, if it stands for one.
    pub fn from_code(code: u32) -> (r: Option<Self>)
        ensures
            match r {
                Some(v) => v.spec_code() == code,
                None => forall|v: jvmtiError| #[trigger] v.spec_code() != code,
            },
    {
        if code == 0 {
            Some(jvmtiError::JVMTI_ERROR_NONE)
        } else if code == 10 {
            Some(jvmtiError::JVMTI_ERROR_INVALID_THREAD)
        } else if code == 11 {
            Some(jvmtiError::JVMTI_ERROR_INVALID_THREAD_GROUP)
        } else if code == 12 {
            Some(jvmtiError::JVMTI_ERROR_INVALID_PRIORITY)
        } else if code == 13 {
            Some(jvmtiError::JVMTI_ERROR_THREAD_NOT_SUSPENDED)
        } else if code == 14 {
            Some(jvmtiError::JVMTI_ERROR_THREAD_SUSPENDED)
        } else if code == 15 {
            Some(jvmtiError::JVMTI_ERROR_THREAD_NOT_ALIVE)
        } else if code == 20 {
            Some(jvmtiError::JVMTI_ERROR_INVALID_OBJECT)
        } else if code == 21 {
            Some(jvmtiError::JVMTI_ERROR_INVALID_CLASS)
        } else if code == 22 {
            Some(jvmtiError::JVMTI_ERROR_CLASS_NOT_PREPARED)
        } else if code == 23 {
            Some(jvmtiError::JVMTI_ERROR_INVALID_METHODID)
        } else if code == 24 {
            Some(jvmtiError::JVMTI_ERROR_INVALID_LOCATION)
        } else if code == 25 {
            Some(jvmtiError::JVMTI_ERROR_INVALID_FIELDID)
        } else if code == 31 {
            Some(jvmtiError::JVMTI_ERROR_NO_MORE_FRAMES)
        } else if code == 32 {
            Some(jvmtiError::JVMTI_ERROR_OPAQUE_FRAME)
        } else if code == 34 {
            Some(jvmtiError::JVMTI_ERROR_TYPE_MISMATCH)
        } else if code == 35 {
            Some(jvmtiError::JVMTI_ERROR_INVALID_SLOT)
        } else if code == 40 {
            Some(jvmtiError::JVMTI_ERROR_DUPLICATE)
        } else if code == 41 {
            Some(jvmtiError::JVMTI_ERROR_NOT_FOUND)
        } else if code == 50 {
            Some(jvmtiError::JVMTI_ERROR_INVALID_MONITOR)
        } else if code == 51 {
            Some(jvmtiError::JVMTI_ERROR_NOT_MONITOR_OWNER)
        } else if code == 52 {
            Some(jvmtiError::JVMTI_ERROR_INTERRUPT)
        } else if code == 60 {
            Some(jvmtiError::JVMTI_ERROR_INVALID_CLASS_FORMAT)
        } else if code == 61 {
            Some(jvmtiError::JVMTI_ERROR_CIRCULAR_CLASS_DEFINITION)
        } else if code == 62 {
            Some(jvmtiError::JVMTI_ERROR_FAILS_VERIFICATION)
        } else if code == 63 {
            Some(jvmtiError::JVMTI_ERROR_UNSUPPORTED_REDEFINITION_METHOD_ADDED)
        } else if code == 64 {
            Some(jvmtiError::JVMTI_ERROR_UNSUPPORTED_REDEFINITION_SCHEMA_CHANGED)
        } else if code == 65 {
            Some(jvmtiError::JVMTI_ERROR_INVALID_TYPESTATE)
        } else if code == 66 {
            Some(jvmtiError::JVMTI_ERROR_UNSUPPORTED_REDEFINITION_HIERARCHY_CHANGED)
        } else if code == 67 {
            Some(jvmtiError::JVMTI_ERROR_UNSUPPORTED_REDEFINITION_METHOD_DELETED)
        } else if code == 68 {
            Some(jvmtiError::JVMTI_ERROR_UNSUPPORTED_VERSION)
        } else if code == 69 {
            Some(jvmtiError::JVMTI_ERROR_NAMES_DONT_MATCH)
        } else if code == 70 {
            Some(jvmtiError::JVMTI_ERROR_UNSUPPORTED_REDEFINITION_CLASS_MODIFIERS_CHANGED)
        } else if code == 71 {
            Some(jvmtiError::JVMTI_ERROR_UNSUPPORTED_REDEFINITION_METHOD_MODIFIERS_CHANGED)
        } else if code == 79 {
            Some(jvmtiError::JVMTI_ERROR_UNMODIFIABLE_CLASS)
        } else if code == 98 {
            Some(jvmtiError::JVMTI_ERROR_NOT_AVAILABLE)
        } else if code == 99 {
            Some(jvmtiError::JVMTI_ERROR_MUST_POSSESS_CAPABILITY)
        } else if code == 100 {
            Some(jvmtiError::JVMTI_ERROR_NULL_POINTER)
        } else if code == 101 {
            Some(jvmtiError::JVMTI_ERROR_ABSENT_INFORMATION)
        } else if code == 102 {
            Some(jvmtiError::JVMTI_ERROR_INVALID_EVENT_TYPE)
        } else if code == 103 {
            Some(jvmtiError::JVMTI_ERROR_ILLEGAL_ARGUMENT)
        } else if code == 104 {
            Some(jvmtiError::JVMTI_ERROR_NATIVE_METHOD)
        } else if code == 106 {
            Some(jvmtiError::JVMTI_ERROR_CLASS_LOADER_UNSUPPORTED)
        } else if code == 110 {
            Some(jvmtiError::JVMTI_ERROR_OUT_OF_MEMORY)
        } else if code == 111 {
            Some(jvmtiError::JVMTI_ERROR_ACCESS_DENIED)
        } else if code == 112 {
            Some(jvmtiError::JVMTI_ERROR_WRONG_PHASE)
        } else if code == 113 {
            Some(jvmtiError::JVMTI_ERROR_INTERNAL)
        } else if code == 115 {
            Some(jvmtiError::JVMTI_ERROR_UNATTACHED_THREAD)
        } else if code == 116 {
            Some(jvmtiError::JVMTI_ERROR_INVALID_ENVIRONMENT)
        } else {
            None
        }
    }
}

/// An event that the tool interface can report.
#[derive(Clone, Copy, Debug, PartialEq, Eq, Structural)]
pub enum jvmtiEvent {
    JVMTI_EVENT_VM_INIT,
    JVMTI_EVENT_VM_DEATH,
    JVMTI_EVENT_THREAD_START,
    JVMTI_EVENT_THREAD_END,
    JVMTI_EVENT_CLASS_FILE_LOAD_HOOK,
    JVMTI_EVENT_CLASS_LOAD,
    JVMTI_EVENT_CLASS_PREPARE,
    JVMTI_EVENT_VM_START,
    JVMTI_EVENT_EXCEPTION,
    JVMTI_EVENT_EXCEPTION_CATCH,
    JVMTI_EVENT_SINGLE_STEP,
    JVMTI_EVENT_FRAME_POP,
    JVMTI_EVENT_BREAKPOINT,
    JVMTI_EVENT_FIELD_ACCESS,
    JVMTI_EVENT_FIELD_MODIFICATION,
    JVMTI_EVENT_METHOD_ENTRY,
    JVMTI_EVENT_METHOD_EXIT,
    JVMTI_EVENT_NATIVE_METHOD_BIND,
    JVMTI_EVENT_COMPILED_METHOD_LOAD,
    JVMTI_EVENT_COMPILED_METHOD_UNLOAD,
    JVMTI_EVENT_DYNAMIC_CODE_GENERATED,
    JVMTI_EVENT_DATA_DUMP_REQUEST,
    JVMTI_EVENT_MONITOR_WAIT,
    JVMTI_EVENT_MONITOR_WAITED,
    JVMTI_EVENT_MONITOR_CONTENDED_ENTER,
    JVMTI_EVENT_MONITOR_CONTENDED_ENTERED,
    JVMTI_EVENT_RESOURCE_EXHAUSTED,
    JVMTI_EVENT_GARBAGE_COLLECTION_START,
    JVMTI_EVENT_GARBAGE_COLLECTION_FINISH,
    JVMTI_EVENT_OBJECT_FREE,
    JVMTI_EVENT_VM_OBJECT_ALLOC,
    JVMTI_EVENT_SAMPLED_OBJECT_ALLOC,
}

impl jvmtiEvent {
    /// The number that the interface uses for this value.
    pub open spec fn spec_code(self) -> u32 {
        match self {
            jvmtiEvent::JVMTI_EVENT_VM_INIT => 50,
            jvmtiEvent::JVMTI_EVENT_VM_DEATH => 51,
            jvmtiEvent::JVMTI_EVENT_THREAD_START => 52,
            jvmtiEvent::JVMTI_EVENT_THREAD_END => 53,
            jvmtiEvent::JVMTI_EVENT_CLASS_FILE_LOAD_HOOK => 54,
            jvmtiEvent::JVMTI_EVENT_CLASS_LOAD => 55,
            jvmtiEvent::JVMTI_EVENT_CLASS_PREPARE => 56,
            jvmtiEvent::JVMTI_EVENT_VM_START => 57,
            jvmtiEvent::JVMTI_EVENT_EXCEPTION => 58,
            jvmtiEvent::JVMTI_EVENT_EXCEPTION_CATCH => 59,
            jvmtiEvent::JVMTI_EVENT_SINGLE_STEP => 60,
            jvmtiEvent::JVMTI_EVENT_FRAME_POP => 61,
            jvmtiEvent::JVMTI_EVENT_BREAKPOINT => 62,
            jvmtiEvent::JVMTI_EVENT_FIELD_ACCESS => 63,
            jvmtiEvent::JVMTI_EVENT_FIELD_MODIFICATION => 64,
            jvmtiEvent::JVMTI_EVENT_METHOD_ENTRY => 65,
            jvmtiEvent::JVMTI_EVENT_METHOD_EXIT => 66,
            jvmtiEvent::JVMTI_EVENT_NATIVE_METHOD_BIND => 67,
            jvmtiEvent::JVMTI_EVENT_COMPILED_METHOD_LOAD => 68,
            jvmtiEvent::JVMTI_EVENT_COMPILED_METHOD_UNLOAD => 69,
            jvmtiEvent::JVMTI_EVENT_DYNAMIC_CODE_GENERATED => 70,
            jvmtiEvent::JVMTI_EVENT_DATA_DUMP_REQUEST => 71,
            jvmtiEvent::JVMTI_EVENT_MONITOR_WAIT => 73,
            jvmtiEvent::JVMTI_EVENT_MONITOR_WAITED => 74,
            jvmtiEvent::JVMTI_EVENT_MONITOR_CONTENDED_ENTER => 75,
            jvmtiEvent::JVMTI_EVENT_MONITOR_CONTENDED_ENTERED => 76,
            jvmtiEvent::JVMTI_EVENT_RESOURCE_EXHAUSTED => 80,
            jvmtiEvent::JVMTI_EVENT_GARBAGE_COLLECTION_START => 81,
            jvmtiEvent::JVMTI_EVENT_GARBAGE_COLLECTION_FINISH => 82,
            jvmtiEvent::JVMTI_EVENT_OBJECT_FREE => 83,
            jvmtiEvent::JVMTI_EVENT_VM_OBJECT_ALLOC => 84,
            jvmtiEvent::JVMTI_EVENT_SAMPLED_OBJECT_ALLOC => 86,
        }
    }

    /// The number that the interface uses for this value.
    pub fn code(self) -> (c: u32)
        ensures
            c == self.spec_code(),
    {
        match self {
            jvmtiEvent::JVMTI_EVENT_VM_INIT => 50,
            jvmtiEvent::JVMTI_EVENT_VM_DEATH => 51,
            jvmtiEvent::JVMTI_EVENT_THREAD_START => 52,
            jvmtiEvent::JVMTI_EVENT_THREAD_END => 53,
            jvmtiEvent::JVMTI_EVENT_CLASS_FILE_LOAD_HOOK => 54,
            jvmtiEvent::JVMTI_EVENT_CLASS_LOAD => 55,
            jvmtiEvent::JVMTI_EVENT_CLASS_PREPARE => 56,
            jvmtiEvent::JVMTI_EVENT_VM_START => 57,
            jvmtiEvent::JVMTI_EVENT_EXCEPTION => 58,
            jvmtiEvent::JVMTI_EVENT_EXCEPTION_CATCH => 59,
            jvmtiEvent::JVMTI_EVENT_SINGLE_STEP => 60,
            jvmtiEvent::JVMTI_EVENT_FRAME_POP => 61,
            jvmtiEvent::JVMTI_EVENT_BREAKPOINT => 62,
            jvmtiEvent::JVMTI_EVENT_FIELD_ACCESS => 63,
            jvmtiEvent::JVMTI_EVENT_FIELD_MODIFICATION => 64,
            jvmtiEvent::JVMTI_EVENT_METHOD_ENTRY => 65,
            jvmtiEvent::JVMTI_EVENT_METHOD_EXIT => 66,
            jvmtiEvent::JVMTI_EVENT_NATIVE_METHOD_BIND => 67,
            jvmtiEvent::JVMTI_EVENT_COMPILED_METHOD_LOAD => 68,
            jvmtiEvent::JVMTI_EVENT_COMPILED_METHOD_UNLOAD => 69,
            jvmtiEvent::JVMTI_EVENT_DYNAMIC_CODE_GENERATED => 70,
            jvmtiEvent::JVMTI_EVENT_DATA_DUMP_REQUEST => 71,
            jvmtiEvent::JVMTI_EVENT_MONITOR_WAIT => 73,
            jvmtiEvent::JVMTI_EVENT_MONITOR_WAITED => 74,
            jvmtiEvent::JVMTI_EVENT_MONITOR_CONTENDED_ENTER => 75,
            jvmtiEvent::JVMTI_EVENT_MONITOR_CONTENDED_ENTERED => 76,
            jvmtiEvent::JVMTI_EVENT_RESOURCE_EXHAUSTED => 80,
            jvmtiEvent::JVMTI_EVENT_GARBAGE_COLLECTION_START => 81,
            jvmtiEvent::JVMTI_EVENT_GARBAGE_COLLECTION_FINISH => 82,
            jvmtiEvent::JVMTI_EVENT_OBJECT_FREE => 83,
            jvmtiEvent::JVMTI_EVENT_VM_OBJECT_ALLOC => 84,
            jvmtiEvent::JVMTI_EVENT_SAMPLED_OBJECT_ALLOC => 86,
        }
    }

    /// The value that a number stands for, if it stands for one.
    pub fn from_code(code: u32) -> (r: Option<Self>)
        ensures
            match r {
                Some(v) => v.spec_code() == code,
                None => forall|v: jvmtiEvent| #[trigger] v.spec_code() != code,
            },
    {
        if code == 50 {
            Some(jvmtiEvent::JVMTI_EVENT_VM_INIT)
        } else if code == 51 {
            Some(jvmtiEvent::JVMTI_EVENT_VM_DEATH)
        } else if code == 52 {
            Some(jvmtiEvent::JVMTI_EVENT_THREAD_START)
        } else if code == 53 {
            Some(jvmtiEvent::JVMTI_EVENT_THREAD_END)
        } else if code == 54 {
            Some(jvmtiEvent::JVMTI_EVENT_CLASS_FILE_LOAD_HOOK)
        } else if code == 55 {
            Some(jvmtiEvent::JVMTI_EVENT_CLASS_LOAD)
        } else if code == 56 {
            Some(jvmtiEvent::JVMTI_EVENT_CLASS_PREPARE)
        } else if code == 57 {
            Some(jvmtiEvent::JVMTI_EVENT_VM_START)
        } else if code == 58 {
            Some(jvmtiEvent::JVMTI_EVENT_EXCEPTION)
        } else if code == 59 {
            Some(jvmtiEvent::JVMTI_EVENT_EXCEPTION_CATCH)
        } else if code == 60 {
            Some(jvmtiEvent::JVMTI_EVENT_SINGLE_STEP)
        } else if code == 61 {
            Some(jvmtiEvent::JVMTI_EVENT_FRAME_POP)
        } else if code == 62 {
            Some(jvmtiEvent::JVMTI_EVENT_BREAKPOINT)
        } else if code == 63 {
            Some(jvmtiEvent::JVMTI_EVENT_FIELD_ACCESS)
        } else if code == 64 {
            Some(jvmtiEvent::JVMTI_EVENT_FIELD_MODIFICATION)
        } else if code == 65 {
            Some(jvmtiEvent::JVMTI_EVENT_METHOD_ENTRY)
        } else if code == 66 {
            Some(jvmtiEvent::JVMTI_EVENT_METHOD_EXIT)
        } else if code == 67 {
            Some(jvmtiEvent::JVMTI_EVENT_NATIVE_METHOD_BIND)
        } else if code == 68 {
            Some(jvmtiEvent::JVMTI_EVENT_COMPILED_METHOD_LOAD)
        } else if code == 69 {
            Some(jvmtiEvent::JVMTI_EVENT_COMPILED_METHOD_UNLOAD)
        } else if code == 70 {
            Some(jvmtiEvent::JVMTI_EVENT_DYNAMIC_CODE_GENERATED)
        } else if code == 71 {
            Some(jvmtiEvent::JVMTI_EVENT_DATA_DUMP_REQUEST)
        } else if code == 73 {
            Some(jvmtiEvent::JVMTI_EVENT_MONITOR_WAIT)
        } else if code == 74 {
            Some(jvmtiEvent::JVMTI_EVENT_MONITOR_WAITED)
        } else if code == 75 {
            Some(jvmtiEvent::JVMTI_EVENT_MONITOR_CONTENDED_ENTER)
        } else if code == 76 {
            Some(jvmtiEvent::JVMTI_EVENT_MONITOR_CONTENDED_ENTERED)
        } else if code == 80 {
            Some(jvmtiEvent::JVMTI_EVENT_RESOURCE_EXHAUSTED)
        } else if code == 81 {
            Some(jvmtiEvent::JVMTI_EVENT_GARBAGE_COLLECTION_START)
        } else if code == 82 {
            Some(jvmtiEvent::JVMTI_EVENT_GARBAGE_COLLECTION_FINISH)
        } else if code == 83 {
            Some(jvmtiEvent::JVMTI_EVENT_OBJECT_FREE)
        } else if code == 84 {
            Some(jvmtiEvent::JVMTI_EVENT_VM_OBJECT_ALLOC)
        } else if code == 86 {
            Some(jvmtiEvent::JVMTI_EVENT_SAMPLED_OBJECT_ALLOC)
        } else {
            None
        }
    }
}

/// The data of a reported heap reference: eight 64-bit words whose meaning
/// depends on the kind of the reference.
#[derive(Clone, Copy, Debug)]
pub struct jvmtiHeapReferenceInfo {
    pub _bindgen_data_: [u64; 8],
}

impl Default for jvmtiHeapReferenceInfo {
    fn default() -> (r: Self)
        ensures
            forall|i: int| 0 <= i < 8 ==> r._bindgen_data_[i] == 0,
    {
        jvmtiHeapReferenceInfo { _bindgen_data_: [0u64; 8] }
    }
}

/// The capabilities of an environment, one bit each, in four 32-bit words.
#[derive(Clone, Copy, Debug, PartialEq, Eq, Structural)]
pub struct jvmtiCapabilities {
    pub _bindgen_bitfield_1_: u32,
    pub _bindgen_bitfield_2_: u32,
    pub _bindgen_bitfield_3_: u32,
    pub _bindgen_bitfield_4_: u32,
}

impl Default for jvmtiCapabilities {
    fn default() -> (r: Self)
        ensures
            r == (jvmtiCapabilities {
                _bindgen_bitfield_1_: 0,
                _bindgen_bitfield_2_: 0,
                _bindgen_bitfield_3_: 0,
                _bindgen_bitfield_4_: 0,
            }),
    {
        jvmtiCapabilities {
            _bindgen_bitfield_1_: 0,
            _bindgen_bitfield_2_: 0,
            _bindgen_bitfield_3_: 0,
            _bindgen_bitfield_4_: 0,
        }
    }
}

} // verus!
