//! Plain enumerations and small records shared by the engine glue.
use vstd::prelude::*;

verus! {

/// Element type of a typed array view.
#[derive(Clone, Copy, PartialEq, Eq, Structural, Debug)]
pub enum Type {
    Int8,
    Uint8,
    Uint8Clamped,
    Int16,
    Uint16,
    Float16,
    Int32,
    Uint32,
    Float32,
    Int64,
    Float64,
    BigInt64,
    BigUint64,
    Simd128,
    MaxTypedArrayViewType,
}

/// The size in bytes of one element of type `t`, when elements of `t` can
/// be stored in a view.
pub open spec fn element_size(t: Type) -> Option<nat> {
    match t {
        Type::Int8 | Type::Uint8 | Type::Uint8Clamped => Some(1),
        Type::Int16 | Type::Uint16 | Type::Float16 => Some(2),
        Type::Int32 | Type::Uint32 | Type::Float32 => Some(4),
        Type::Float64 | Type::BigInt64 | Type::BigUint64 => Some(8),
        Type::Int64 | Type::Simd128 | Type::MaxTypedArrayViewType => None,
    }
}

impl Type {
    pub fn byte_size(&self) -> (r: Option<usize>)
        ensures
            match r {
                Some(n) => element_size(*self) == Some(n as nat),
                None => element_size(*self) is None,
            },
    {
        match self {
            Type::Int8 | Type::Uint8 | Type::Uint8Clamped => Some(1),
            Type::Int16 | Type::Uint16 | Type::Float16 => Some(2),
            Type::Int32 | Type::Uint32 | Type::Float32 => Some(4),
            Type::Float64 | Type::BigInt64 | Type::BigUint64 => Some(8),
            Type::Int64 | Type::Simd128 | Type::MaxTypedArrayViewType => None,
        }
    }
}

/// Settlement state of a promise.
#[derive(Clone, Copy, PartialEq, Eq, Structural, Debug)]
pub enum PromiseState {
    Pending,
    Fulfilled,
    Rejected,
}

/// Whether a promise was created while handling user input.
#[derive(Clone, Copy, PartialEq, Eq, Structural, Debug)]
pub enum PromiseUserInputEventHandlingState {
    DontCare,
    HadUserInteractionAtCreation,
    DidntHaveUserInteractionAtCreation,
}

/// Whether a rejected promise has a handler.
#[derive(Clone, Copy, PartialEq, Eq, Structural, Debug)]
pub enum PromiseRejectionHandlingState {
    Unhandled,
    Handled,
}

/// Kind of module a module request asks for.
#[derive(Clone, Copy, PartialEq, Eq, Structural, Debug)]
pub enum ModuleType {
    Unknown,
    JavaScript,
    JSON,
}

/// Class flag: the class describes DOM objects.
pub const JSCLASS_IS_DOMJSCLASS: u32 = 16;
/// Class flag: the class describes global objects.
pub const JSCLASS_IS_GLOBAL: u32 = 32;
/// Flags of the class that objects without a recorded class report.
pub const PROXY_CLASS_FLAGS: u32 = 8;
/// Address that stands for the proxy class record.
pub const PROXY_CLASS_ADDR: u64 = 0xffff_ffff_ffff_fff0;

/// A reference to a class record: its address (0 is null) and its flags.
#[derive(Clone, Copy, PartialEq, Eq, Structural, Debug)]
pub struct ClassRef {
    pub addr: u64,
    pub flags: u32,
}

/// The class that objects without a recorded class report.
pub open spec fn proxy_class() -> ClassRef {
    ClassRef { addr: PROXY_CLASS_ADDR, flags: PROXY_CLASS_FLAGS }
}

impl ClassRef {
    pub fn null() -> (c: ClassRef)
        ensures
            c.addr == 0 && c.flags == 0,
    {
        ClassRef { addr: 0, flags: 0 }
    }

    pub fn proxy() -> (c: ClassRef)
        ensures
            c == proxy_class(),
    {
        ClassRef { addr: PROXY_CLASS_ADDR, flags: PROXY_CLASS_FLAGS }
    }

    pub fn is_null(&self) -> (b: bool)
        ensures
            b == (self.addr == 0),
    {
        self.addr == 0
    }
}

} // verus!
