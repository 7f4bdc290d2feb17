//! Tagged 64-bit JavaScript values and property identifiers.
//!
//! A `JSVal` keeps a one-byte tag in its top eight bits and a 56-bit payload
//! below it; a `jsid` keeps a four-bit tag in its top nibble and a 60-bit
//! payload.  Object and string payloads are engine handles (0 is null).
use vstd::prelude::*;

verus! {

pub const JSVAL_TAG_MASK: u64 = 0xff00_0000_0000_0000;
pub const JSVAL_PAYLOAD_MASK: u64 = 0x00ff_ffff_ffff_ffff;
pub const JSVAL_NULL_BITS: u64 = 0x0100_0000_0000_0000;
pub const JSVAL_FALSE_BITS: u64 = 0x0200_0000_0000_0000;
pub const JSVAL_TRUE_BITS: u64 = 0x0300_0000_0000_0000;
pub const JSVAL_OBJECT_TAG: u64 = 0x0400_0000_0000_0000;
pub const JSVAL_STRING_TAG: u64 = 0x0500_0000_0000_0000;
pub const JSVAL_PRIVATE_TAG: u64 = 0x0600_0000_0000_0000;
pub const JSVAL_INT32_TAG: u64 = 0x0700_0000_0000_0000;
pub const JSVAL_UINT32_TAG: u64 = 0x0800_0000_0000_0000;

pub const JSID_STRING_TAG: u64 = 0x1000_0000_0000_0000;
pub const JSID_INT_TAG: u64 = 0x2000_0000_0000_0000;
pub const JSID_TAG_MASK: u64 = 0xf000_0000_0000_0000;
pub const JSID_PAYLOAD_MASK: u64 = 0x0fff_ffff_ffff_ffff;

/// What a traced value refers to.
#[derive(Clone, Copy, PartialEq, Eq, Structural, Debug)]
pub enum TraceKind {
    Object,
    String,
    Symbol,
    BigInt,
    Script,
    Shape,
    BaseShape,
    JitCode,
}

/// The engine's notion of a value's type, as `typeof` reports it.
#[derive(Clone, Copy, PartialEq, Eq, Structural, Debug)]
pub enum JSType {
    JSTYPE_UNDEFINED,
    JSTYPE_OBJECT,
    JSTYPE_FUNCTION,
    JSTYPE_STRING,
    JSTYPE_NUMBER,
    JSTYPE_BOOLEAN,
    JSTYPE_NULL,
    JSTYPE_SYMBOL,
    JSTYPE_BIGINT,
    JSTYPE_LIMIT,
}

/// Value type tags as the JIT describes them.
#[derive(Clone, Copy, PartialEq, Eq, Structural, Debug)]
pub enum JSValueType {
    JSVAL_TYPE_DOUBLE,
    JSVAL_TYPE_INT32,
    JSVAL_TYPE_BOOLEAN,
    JSVAL_TYPE_UNDEFINED,
    JSVAL_TYPE_NULL,
    JSVAL_TYPE_MAGIC,
    JSVAL_TYPE_STRING,
    JSVAL_TYPE_SYMBOL,
    JSVAL_TYPE_PRIVATE_GCTHING,
    JSVAL_TYPE_BIGINT,
    JSVAL_TYPE_OBJECT,
    JSVAL_TYPE_UNKNOWN,
}

/// A tagged JavaScript value.  All-zero bits are `undefined`.
#[derive(Clone, Copy, PartialEq, Eq, Structural, Debug)]
pub struct JSVal {
    pub asBits_: u64,
}

/// The tag byte of raw value bits.
pub open spec fn jsval_tag(bits: u64) -> u64 {
    bits & JSVAL_TAG_MASK
}

/// The payload of raw value bits.
pub open spec fn jsval_payload(bits: u64) -> u64 {
    bits & JSVAL_PAYLOAD_MASK
}

/// Whether a handle fits in the 56-bit payload of a value.
pub open spec fn fits_jsval_payload(handle: u64) -> bool {
    handle <= JSVAL_PAYLOAD_MASK
}

/// Whether a handle fits in the 60-bit payload of a property id.
pub open spec fn fits_jsid_payload(handle: u64) -> bool {
    handle <= JSID_PAYLOAD_MASK
}

/// The low 32 bits of `bits`, read as a two's complement integer.
pub open spec fn low_i32(bits: u64) -> i32 {
    (bits & 0xffff_ffff) as u32 as i32
}

/// The low 32 bits of `bits`, read as an unsigned integer.
pub open spec fn low_u32(bits: u64) -> u32 {
    (bits & 0xffff_ffff) as u32
}

/// The value that tags `payload` with `tag`.
pub open spec fn tagged(tag: u64, payload: u64) -> JSVal {
    JSVal { asBits_: tag | (payload & JSVAL_PAYLOAD_MASK) }
}

/// The value `undefined`.
pub open spec fn undefined_value() -> JSVal {
    JSVal { asBits_: 0 }
}

/// The value `null`.
pub open spec fn null_value() -> JSVal {
    JSVal { asBits_: JSVAL_NULL_BITS }
}

/// The boolean value `b`.
pub open spec fn bool_value(b: bool) -> JSVal {
    JSVal { asBits_: if b { JSVAL_TRUE_BITS } else { JSVAL_FALSE_BITS } }
}

/// The object value for handle `obj`.
pub open spec fn object_value(obj: u64) -> JSVal {
    tagged(JSVAL_OBJECT_TAG, obj)
}

/// The string value for handle `s`.
pub open spec fn string_value(s: u64) -> JSVal {
    tagged(JSVAL_STRING_TAG, s)
}

/// The private value for native pointer `p`.
pub open spec fn private_value(p: u64) -> JSVal {
    tagged(JSVAL_PRIVATE_TAG, p)
}

/// The number value for the 32-bit signed integer `i`.
pub open spec fn int32_value(i: i32) -> JSVal {
    JSVal { asBits_: JSVAL_INT32_TAG | (i as u32 as u64) }
}

/// The number value for the 32-bit unsigned integer `u`.
pub open spec fn uint32_value(u: u32) -> JSVal {
    JSVal { asBits_: JSVAL_UINT32_TAG | (u as u64) }
}

impl JSVal {
    pub open spec fn tag(self) -> u64 {
        jsval_tag(self.asBits_)
    }

    pub open spec fn payload(self) -> u64 {
        jsval_payload(self.asBits_)
    }

    pub open spec fn holds_undefined(self) -> bool {
        self.asBits_ == 0
    }

    pub open spec fn holds_null(self) -> bool {
        self.asBits_ == JSVAL_NULL_BITS
    }

    pub open spec fn holds_boolean(self) -> bool {
        self.asBits_ == JSVAL_TRUE_BITS || self.asBits_ == JSVAL_FALSE_BITS
    }

    pub open spec fn holds_object(self) -> bool {
        self.tag() == JSVAL_OBJECT_TAG
    }

    pub open spec fn holds_string(self) -> bool {
        self.tag() == JSVAL_STRING_TAG
    }

    pub open spec fn holds_private(self) -> bool {
        self.tag() == JSVAL_PRIVATE_TAG
    }

    pub open spec fn holds_number(self) -> bool {
        self.tag() == JSVAL_INT32_TAG || self.tag() == JSVAL_UINT32_TAG
    }

    /// The object handle a value refers to, or 0.
    pub open spec fn object_handle(self) -> u64 {
        if self.holds_object() { self.payload() } else { 0 }
    }

    /// The string handle a value refers to, or 0.
    pub open spec fn string_handle(self) -> u64 {
        if self.holds_string() { self.payload() } else { 0 }
    }

    /// The native pointer a private value carries, or 0.
    pub open spec fn private_pointer(self) -> u64 {
        if self.holds_private() { self.payload() } else { 0 }
    }

    pub fn from_object(obj: u64) -> (v: JSVal)
        ensures
            v == object_value(obj),
    {
        JSVal { asBits_: JSVAL_OBJECT_TAG | (obj & JSVAL_PAYLOAD_MASK) }
    }

    pub fn from_string(s: u64) -> (v: JSVal)
        ensures
            v == string_value(s),
    {
        JSVal { asBits_: JSVAL_STRING_TAG | (s & JSVAL_PAYLOAD_MASK) }
    }

    pub fn from_private(p: u64) -> (v: JSVal)
        ensures
            v == private_value(p),
    {
        JSVal { asBits_: JSVAL_PRIVATE_TAG | (p & JSVAL_PAYLOAD_MASK) }
    }

    pub fn from_bool(b: bool) -> (v: JSVal)
        ensures
            v == bool_value(b),
    {
        JSVal {
            asBits_: if b {
                JSVAL_TRUE_BITS
            } else {
                JSVAL_FALSE_BITS
            },
        }
    }

    pub fn from_int32(i: i32) -> (v: JSVal)
        ensures
            v == int32_value(i),
    {
        JSVal { asBits_: JSVAL_INT32_TAG | (i as u32 as u64) }
    }

    pub fn from_uint32(u: u32) -> (v: JSVal)
        ensures
            v == uint32_value(u),
    {
        JSVal { asBits_: JSVAL_UINT32_TAG | (u as u64) }
    }

    pub fn null() -> (v: JSVal)
        ensures
            v == null_value(),
    {
        JSVal { asBits_: JSVAL_NULL_BITS }
    }

    pub fn undefined() -> (v: JSVal)
        ensures
            v == undefined_value(),
    {
        JSVal { asBits_: 0 }
    }

    pub fn get(&self) -> (v: JSVal)
        ensures
            v == *self,
    {
        *self
    }

    pub fn is_object(&self) -> (b: bool)
        ensures
            b == self.holds_object(),
    {
        (self.asBits_ & JSVAL_TAG_MASK) == JSVAL_OBJECT_TAG
    }

    pub fn is_object_or_null(&self) -> (b: bool)
        ensures
            b == (self.holds_object() || self.holds_null()),
    {
        self.is_object() || self.is_null()
    }

    pub fn is_string(&self) -> (b: bool)
        ensures
            b == self.holds_string(),
    {
        (self.asBits_ & JSVAL_TAG_MASK) == JSVAL_STRING_TAG
    }

    pub fn is_null(&self) -> (b: bool)
        ensures
            b == self.holds_null(),
    {
        self.asBits_ == JSVAL_NULL_BITS
    }

    pub fn is_null_or_undefined(&self) -> (b: bool)
        ensures
            b == (self.holds_null() || self.holds_undefined()),
    {
        self.is_null() || self.is_undefined()
    }

    pub fn is_number(&self) -> (b: bool)
        ensures
            b == self.holds_number(),
    {
        let tag = self.asBits_ & JSVAL_TAG_MASK;
        tag == JSVAL_INT32_TAG || tag == JSVAL_UINT32_TAG
    }

    pub fn is_boolean(&self) -> (b: bool)
        ensures
            b == self.holds_boolean(),
    {
        self.asBits_ == JSVAL_TRUE_BITS || self.asBits_ == JSVAL_FALSE_BITS
    }

    pub fn is_markable(&self) -> (b: bool)
        ensures
            b == (self.holds_object() || self.holds_string()),
    {
        self.is_object() || self.is_string()
    }

    pub fn is_undefined(&self) -> (b: bool)
        ensures
            b == self.holds_undefined(),
    {
        self.asBits_ == 0
    }

    pub fn to_boolean(&self) -> (b: bool)
        ensures
            b == (self.asBits_ == JSVAL_TRUE_BITS),
    {
        self.asBits_ == JSVAL_TRUE_BITS
    }

    /// The number this value holds, as an integer: its int32 or uint32
    /// payload; 0 for a value that is not a number.
    pub fn number_value(&self) -> (n: i64)
        ensures
            n == if self.tag() == JSVAL_INT32_TAG {
                low_i32(self.asBits_) as int
            } else if self.tag() == JSVAL_UINT32_TAG {
                (self.asBits_ & 0xffff_ffff) as int
            } else {
                0
            },
    {
        let tag = self.asBits_ & JSVAL_TAG_MASK;
        if tag == JSVAL_INT32_TAG {
            self.to_int32() as i64
        } else if tag == JSVAL_UINT32_TAG {
            let bits = self.asBits_;
            let low = bits & 0xffff_ffff;
            assert(low <= 0xffff_ffff) by (bit_vector)
                requires
                    low == bits & 0xffff_ffff,
            ;
            low as i64
        } else {
            0
        }
    }

    pub fn to_int32(&self) -> (i: i32)
        ensures
            i == low_i32(self.asBits_),
    {
        (self.asBits_ & 0xffff_ffff) as u32 as i32
    }

    pub fn to_private(&self) -> (p: u64)
        ensures
            p == self.private_pointer(),
    {
        if (self.asBits_ & JSVAL_TAG_MASK) == JSVAL_PRIVATE_TAG {
            self.asBits_ & JSVAL_PAYLOAD_MASK
        } else {
            0
        }
    }

    pub fn to_object(&self) -> (o: u64)
        ensures
            o == self.object_handle(),
    {
        if self.is_object() {
            self.asBits_ & JSVAL_PAYLOAD_MASK
        } else {
            0
        }
    }

    pub fn to_string(&self) -> (s: u64)
        ensures
            s == self.string_handle(),
    {
        if self.is_string() {
            self.asBits_ & JSVAL_PAYLOAD_MASK
        } else {
            0
        }
    }

    pub fn to_object_or_null(&self) -> (o: u64)
        ensures
            o == if self.holds_null() {
                0
            } else {
                self.object_handle()
            },
    {
        if self.is_null() {
            0
        } else {
            self.to_object()
        }
    }

    pub fn trace_kind(&self) -> (k: TraceKind)
        ensures
            k == (if self.holds_string() {
                TraceKind::String
            } else {
                TraceKind::Object
            }),
    {
        if self.is_string() {
            TraceKind::String
        } else {
            TraceKind::Object
        }
    }
}

impl Default for JSVal {
    fn default() -> (v: JSVal)
        ensures
            v == undefined_value(),
    {
        JSVal { asBits_: 0 }
    }
}

/// A tagged property identifier.  All-zero bits are the void id.
#[derive(Clone, Copy, PartialEq, Eq, Structural, Debug)]
pub struct jsid {
    pub asBits_: u64,
}

/// The property id for the 32-bit integer `i`.
pub open spec fn int_jsid(i: i32) -> jsid {
    jsid { asBits_: JSID_INT_TAG | (i as u32 as u64) }
}

/// The property id for string handle `s`.
pub open spec fn string_jsid(s: u64) -> jsid {
    jsid { asBits_: JSID_STRING_TAG | (s & JSID_PAYLOAD_MASK) }
}

impl jsid {
    pub open spec fn id_tag(self) -> u64 {
        self.asBits_ & JSID_TAG_MASK
    }

    pub open spec fn names_string(self) -> bool {
        self.id_tag() == JSID_STRING_TAG
    }

    pub open spec fn names_int(self) -> bool {
        self.id_tag() == JSID_INT_TAG
    }

    /// The string handle the id names, or 0.
    pub open spec fn string_handle(self) -> u64 {
        if self.names_string() { self.asBits_ & JSID_PAYLOAD_MASK } else { 0 }
    }

    /// The integer an integer id names.
    pub open spec fn int_value(self) -> i32 {
        low_i32(self.asBits_)
    }

    pub fn from_string(s: u64) -> (id: jsid)
        ensures
            id == string_jsid(s),
    {
        jsid { asBits_: JSID_STRING_TAG | (s & JSID_PAYLOAD_MASK) }
    }

    pub fn from_int(i: i32) -> (id: jsid)
        ensures
            id == int_jsid(i),
    {
        jsid { asBits_: JSID_INT_TAG | (i as u32 as u64) }
    }

    pub fn is_string(&self) -> (b: bool)
        ensures
            b == self.names_string(),
    {
        (self.asBits_ & JSID_TAG_MASK) == JSID_STRING_TAG
    }

    pub fn is_int(&self) -> (b: bool)
        ensures
            b == self.names_int(),
    {
        (self.asBits_ & JSID_TAG_MASK) == JSID_INT_TAG
    }

    pub fn is_void(&self) -> (b: bool)
        ensures
            b == (self.asBits_ == 0),
    {
        self.asBits_ == 0
    }

    /// Symbols are never minted by this engine glue.
    pub fn is_symbol(&self) -> (b: bool)
        ensures
            !b,
    {
        false
    }

    pub fn to_int(&self) -> (i: i32)
        ensures
            i == self.int_value(),
    {
        (self.asBits_ & 0xffff_ffff) as u32 as i32
    }

    pub fn to_string(&self) -> (s: u64)
        ensures
            s == self.string_handle(),
    {
        if self.is_string() {
            self.asBits_ & JSID_PAYLOAD_MASK
        } else {
            0
        }
    }
}

/// Builds a property id from its raw bits.
pub fn jsid(asBits_: u64) -> (id: jsid)
    ensures
        id.asBits_ == asBits_,
{
    jsid { asBits_ }
}

// ---------------------------------------------------------------------------
// Laws of the encodings
// ---------------------------------------------------------------------------

/// An object handle that fits in the payload is read back unchanged from the
/// value that carries it, and that value is an object and nothing else.
pub proof fn law_object_value_roundtrip(obj: u64)
    requires
        fits_jsval_payload(obj),
    ensures
        object_value(obj).holds_object(),
        object_value(obj).object_handle() == obj,
        !object_value(obj).holds_string(),
        !object_value(obj).holds_number(),
        !object_value(obj).holds_null(),
        !object_value(obj).holds_undefined(),
        !object_value(obj).holds_boolean(),
{
    let b = object_value(obj).asBits_;
    assert(obj <= 0x00ff_ffff_ffff_ffffu64 ==> (0x0400_0000_0000_0000u64 | (obj
        & 0x00ff_ffff_ffff_ffffu64)) & 0xff00_0000_0000_0000u64 == 0x0400_0000_0000_0000u64)
        by (bit_vector);
    assert(obj <= 0x00ff_ffff_ffff_ffffu64 ==> (0x0400_0000_0000_0000u64 | (obj
        & 0x00ff_ffff_ffff_ffffu64)) & 0x00ff_ffff_ffff_ffffu64 == obj) by (bit_vector);
    assert(b & JSVAL_TAG_MASK == JSVAL_OBJECT_TAG);
    assert(b != 0 && b != JSVAL_NULL_BITS && b != JSVAL_TRUE_BITS && b != JSVAL_FALSE_BITS) by {
        assert(0u64 & 0xff00_0000_0000_0000u64 == 0) by (bit_vector);
        assert(0x0100_0000_0000_0000u64 & 0xff00_0000_0000_0000u64 == 0x0100_0000_0000_0000u64)
            by (bit_vector);
        assert(0x0200_0000_0000_0000u64 & 0xff00_0000_0000_0000u64 == 0x0200_0000_0000_0000u64)
            by (bit_vector);
        assert(0x0300_0000_0000_0000u64 & 0xff00_0000_0000_0000u64 == 0x0300_0000_0000_0000u64)
            by (bit_vector);
    }
}

/// A string handle that fits in the payload is read back unchanged, and the
/// value is a string and not an object.
pub proof fn law_string_value_roundtrip(s: u64)
    requires
        fits_jsval_payload(s),
    ensures
        string_value(s).holds_string(),
        string_value(s).string_handle() == s,
        !string_value(s).holds_object(),
        string_value(s).object_handle() == 0,
{
    assert(s <= 0x00ff_ffff_ffff_ffffu64 ==> (0x0500_0000_0000_0000u64 | (s
        & 0x00ff_ffff_ffff_ffffu64)) & 0xff00_0000_0000_0000u64 == 0x0500_0000_0000_0000u64)
        by (bit_vector);
    assert(s <= 0x00ff_ffff_ffff_ffffu64 ==> (0x0500_0000_0000_0000u64 | (s
        & 0x00ff_ffff_ffff_ffffu64)) & 0x00ff_ffff_ffff_ffffu64 == s) by (bit_vector);
}

/// A private pointer that fits in the payload is read back unchanged.
pub proof fn law_private_value_roundtrip(p: u64)
    requires
        fits_jsval_payload(p),
    ensures
        private_value(p).holds_private(),
        private_value(p).private_pointer() == p,
        !private_value(p).holds_object(),
{
    assert(p <= 0x00ff_ffff_ffff_ffffu64 ==> (0x0600_0000_0000_0000u64 | (p
        & 0x00ff_ffff_ffff_ffffu64)) & 0xff00_0000_0000_0000u64 == 0x0600_0000_0000_0000u64)
        by (bit_vector);
    assert(p <= 0x00ff_ffff_ffff_ffffu64 ==> (0x0600_0000_0000_0000u64 | (p
        & 0x00ff_ffff_ffff_ffffu64)) & 0x00ff_ffff_ffff_ffffu64 == p) by (bit_vector);
}

/// Every 32-bit signed integer is read back unchanged from its number value,
/// which is a number and neither an object nor a string.
pub proof fn law_int32_value_roundtrip(i: i32)
    ensures
        int32_value(i).holds_number(),
        low_i32(int32_value(i).asBits_) == i,
        !int32_value(i).holds_object(),
        !int32_value(i).holds_string(),
        !int32_value(i).holds_undefined(),
{
    let u = #[verifier::truncate] (i as u32);
    assert(u as i32 == i) by (bit_vector)
        requires
            u == #[verifier::truncate] (i as u32),
    ;
    assert(((0x0700_0000_0000_0000u64 | (u as u64)) & 0xffff_ffffu64) as u32 == u) by (bit_vector);
    assert((0x0700_0000_0000_0000u64 | (u as u64)) & 0xff00_0000_0000_0000u64
        == 0x0700_0000_0000_0000u64) by (bit_vector);
    assert(0x0700_0000_0000_0000u64 | (u as u64) != 0) by (bit_vector);
}

/// Every 32-bit unsigned integer is read back unchanged from its number value.
pub proof fn law_uint32_value_roundtrip(u: u32)
    ensures
        uint32_value(u).holds_number(),
        low_u32(uint32_value(u).asBits_) == u,
        !uint32_value(u).holds_object(),
{
    assert(((0x0800_0000_0000_0000u64 | (u as u64)) & 0xffff_ffffu64) as u32 == u) by (bit_vector);
    assert((0x0800_0000_0000_0000u64 | (u as u64)) & 0xff00_0000_0000_0000u64
        == 0x0800_0000_0000_0000u64) by (bit_vector);
}

/// A boolean is read back unchanged, and null, undefined and booleans are
/// neither objects nor strings nor numbers.
pub proof fn law_constants_are_distinct(b: bool)
    ensures
        bool_value(b).holds_boolean(),
        (bool_value(b).asBits_ == JSVAL_TRUE_BITS) == b,
        !bool_value(b).holds_object() && !bool_value(b).holds_string()
            && !bool_value(b).holds_number(),
        null_value().holds_null() && !null_value().holds_undefined()
            && !null_value().holds_object(),
        undefined_value().holds_undefined() && !undefined_value().holds_null()
            && !undefined_value().holds_object(),
{
    assert(0x0100_0000_0000_0000u64 & 0xff00_0000_0000_0000u64 == 0x0100_0000_0000_0000u64)
        by (bit_vector);
    assert(0x0200_0000_0000_0000u64 & 0xff00_0000_0000_0000u64 == 0x0200_0000_0000_0000u64)
        by (bit_vector);
    assert(0x0300_0000_0000_0000u64 & 0xff00_0000_0000_0000u64 == 0x0300_0000_0000_0000u64)
        by (bit_vector);
    assert(0u64 & 0xff00_0000_0000_0000u64 == 0) by (bit_vector);
}

/// Every 32-bit integer is read back unchanged from its property id, which
/// names an integer and not a string.
pub proof fn law_int_jsid_roundtrip(i: i32)
    ensures
        int_jsid(i).names_int(),
        !int_jsid(i).names_string(),
        int_jsid(i).int_value() == i,
        int_jsid(i).asBits_ != 0,
{
    let u = #[verifier::truncate] (i as u32);
    assert(u as i32 == i) by (bit_vector)
        requires
            u == #[verifier::truncate] (i as u32),
    ;
    assert(((0x2000_0000_0000_0000u64 | (u as u64)) & 0xffff_ffffu64) as u32 == u) by (bit_vector);
    assert((0x2000_0000_0000_0000u64 | (u as u64)) & 0xf000_0000_0000_0000u64
        == 0x2000_0000_0000_0000u64) by (bit_vector);
    assert(0x2000_0000_0000_0000u64 | (u as u64) != 0) by (bit_vector);
}

/// A string handle that fits in the id payload is read back unchanged from its
/// property id, which names a string and not an integer.
pub proof fn law_string_jsid_roundtrip(s: u64)
    requires
        fits_jsid_payload(s),
    ensures
        string_jsid(s).names_string(),
        !string_jsid(s).names_int(),
        string_jsid(s).string_handle() == s,
        string_jsid(s).asBits_ != 0,
{
    assert(s <= 0x0fff_ffff_ffff_ffffu64 ==> (0x1000_0000_0000_0000u64 | (s
        & 0x0fff_ffff_ffff_ffffu64)) & 0xf000_0000_0000_0000u64 == 0x1000_0000_0000_0000u64)
        by (bit_vector);
    assert(s <= 0x0fff_ffff_ffff_ffffu64 ==> (0x1000_0000_0000_0000u64 | (s
        & 0x0fff_ffff_ffff_ffffu64)) & 0x0fff_ffff_ffff_ffffu64 == s) by (bit_vector);
    assert(0x1000_0000_0000_0000u64 | (s & 0x0fff_ffff_ffff_ffffu64) != 0) by (bit_vector);
}


/// The value of object `obj`, or null for a null object.
pub fn ObjectOrNullValue(obj: u64) -> (v: JSVal)
    ensures
        v == if obj == 0 {
            null_value()
        } else {
            object_value(obj)
        },
{
    if obj == 0 {
        JSVal::null()
    } else {
        JSVal::from_object(obj)
    }
}

} // verus!
