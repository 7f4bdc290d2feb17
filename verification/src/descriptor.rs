//! Property descriptors and the result records of object operations.
use crate::jsval::{undefined_value, JSVal};
use vstd::prelude::*;

verus! {

/// Attribute flag: the property is enumerable.
pub const JSPROP_ENUMERATE: u32 = 0x01;
/// Attribute flag: the property cannot be written.
pub const JSPROP_READONLY: u32 = 0x02;
/// Attribute flag: the property cannot be deleted or reconfigured.
pub const JSPROP_PERMANENT: u32 = 0x04;
/// Attribute flag: the property is being resolved.
pub const JSPROP_RESOLVING: u32 = 0x8000;

/// A property descriptor: the object it describes a property of, the
/// property's attributes, accessors and value, and which parts are present.
#[derive(Clone, Copy, Debug)]
pub struct PropertyDescriptor {
    pub obj: u64,
    pub attrs: u32,
    pub getter_: u64,
    pub setter_: u64,
    pub value_: JSVal,
    pub has_getter_: bool,
    pub has_setter_: bool,
    pub has_writable_: bool,
    pub has_value_: bool,
}

impl PropertyDescriptor {
    /// The empty descriptor: nothing present, null object, undefined value.
    pub open spec fn is_empty(self) -> bool {
        &&& self.obj == 0
        &&& self.attrs == 0
        &&& self.getter_ == 0
        &&& self.setter_ == 0
        &&& self.value_ == undefined_value()
        &&& !self.has_getter_
        &&& !self.has_setter_
        &&& !self.has_writable_
        &&& !self.has_value_
    }

    /// A data descriptor of `obj` with `value` and `attrs`.
    pub open spec fn is_data_descriptor(self, obj: u64, value: JSVal, attrs: u32) -> bool {
        &&& self.obj == obj
        &&& self.attrs == attrs
        &&& self.getter_ == 0
        &&& self.setter_ == 0
        &&& self.value_ == value
        &&& !self.has_getter_
        &&& !self.has_setter_
        &&& self.has_writable_
        &&& self.has_value_
    }

    /// Makes this a data descriptor of `obj` holding `value` with `attrs`.
    pub fn set_data_descriptor(&mut self, obj: u64, value: JSVal, attrs: u32)
        ensures
            final(self).is_data_descriptor(obj, value, attrs),
    {
        self.obj = obj;
        self.attrs = attrs;
        self.getter_ = 0;
        self.setter_ = 0;
        self.value_ = value;
        self.has_getter_ = false;
        self.has_setter_ = false;
        self.has_writable_ = true;
        self.has_value_ = true;
    }

    /// Resets this descriptor to the empty descriptor.
    pub fn clear(&mut self)
        ensures
            final(self).is_empty(),
    {
        *self = PropertyDescriptor::default();
    }

    pub fn value(&self) -> (v: JSVal)
        ensures
            v == self.value_,
    {
        self.value_
    }

    pub fn hasGetter_(&self) -> (b: bool)
        ensures
            b == self.has_getter_,
    {
        self.has_getter_
    }

    pub fn hasSetter_(&self) -> (b: bool)
        ensures
            b == self.has_setter_,
    {
        self.has_setter_
    }

    pub fn hasWritable_(&self) -> (b: bool)
        ensures
            b == self.has_writable_,
    {
        self.has_writable_
    }

    pub fn hasValue_(&self) -> (b: bool)
        ensures
            b == self.has_value_,
    {
        self.has_value_
    }

    /// Writable unless the read-only flag is set.
    pub fn writable_(&self) -> (b: bool)
        ensures
            b == (self.attrs & JSPROP_READONLY == 0),
    {
        self.attrs & JSPROP_READONLY == 0
    }

    /// Configurability is present exactly when the descriptor names an object.
    pub fn hasConfigurable_(&self) -> (b: bool)
        ensures
            b == (self.obj != 0),
    {
        self.obj != 0
    }

    /// Configurable unless the permanent flag is set.
    pub fn configurable_(&self) -> (b: bool)
        ensures
            b == (self.attrs & JSPROP_PERMANENT == 0),
    {
        self.attrs & JSPROP_PERMANENT == 0
    }

    /// Enumerability is present exactly when the descriptor names an object.
    pub fn hasEnumerable_(&self) -> (b: bool)
        ensures
            b == (self.obj != 0),
    {
        self.obj != 0
    }

    /// Enumerable when the enumerate flag is set.
    pub fn enumerable_(&self) -> (b: bool)
        ensures
            b == (self.attrs & JSPROP_ENUMERATE != 0),
    {
        self.attrs & JSPROP_ENUMERATE != 0
    }
}

impl Default for PropertyDescriptor {
    fn default() -> (d: PropertyDescriptor)
        ensures
            d.is_empty(),
    {
        PropertyDescriptor {
            obj: 0,
            attrs: 0,
            getter_: 0,
            setter_: 0,
            value_: JSVal { asBits_: 0 },
            has_getter_: false,
            has_setter_: false,
            has_writable_: false,
            has_value_: false,
        }
    }
}

/// Error numbers the bindings report.
#[derive(Clone, Copy, PartialEq, Eq, Structural, Debug)]
pub enum JSErrNum {
    JSMSG_CANT_PREVENT_EXTENSIONS,
    JSMSG_CANT_SET_PROTO,
    JSMSG_CANT_DEFINE_WINDOW_NAMED_PROPERTY,
    JSMSG_CANT_DELETE_WINDOW_NAMED_PROPERTY,
    JSMSG_CANT_DEFINE_WINDOW_ELEMENT,
    JSMSG_READ_ONLY,
}

/// The outcome of an object operation: code 0 is success.
#[derive(Clone, Copy, PartialEq, Eq, Structural, Debug)]
pub struct ObjectOpResult {
    pub code_: usize,
}

impl ObjectOpResult {
    /// Records success.
    pub fn succeed(&mut self) -> (ok: bool)
        ensures
            ok,
            final(self).code_ == 0,
    {
        self.code_ = 0;
        true
    }

    /// Reports that no indexed setter exists; the code is left as it is.
    pub fn failNoIndexedSetter(&mut self) -> (ok: bool)
        ensures
            !ok,
            *final(self) == *old(self),
    {
        false
    }

    /// Reports that no named setter exists; the code is left as it is.
    pub fn fail_no_named_setter(&mut self) -> (ok: bool)
        ensures
            !ok,
            *final(self) == *old(self),
    {
        false
    }
}

} // verus!
