//! Rooting: values kept alive for the engine while native code holds them.
//! The engine glue keeps every object it hands out, so rooting only has
//! to hold the value.
use crate::jsval::{low_i32, JSVal};
use vstd::prelude::*;

verus! {

/// A value the tracer can visit.
pub trait Traceable {
}

/// A value that can be rooted on the stack.
pub trait Rootable {
}

/// A root set of traceable values.
pub trait RootedTraceableSet {
}

impl Traceable for JSVal {
}

impl Traceable for u64 {
}

/// The types the collector knows natively.
#[derive(Clone, Copy, PartialEq, Eq, Structural, Debug)]
pub struct CoreGcTypes;

/// A region in which no collection happens.
#[derive(Clone, Copy, PartialEq, Eq, Structural, Debug)]
pub struct NoGC;

/// Proof that a request is active.
#[derive(Clone, Copy, PartialEq, Eq, Structural, Debug)]
pub struct AutoCheckRequest;

impl AutoCheckRequest {
    pub fn new() -> (r: AutoCheckRequest)
        ensures
            r == AutoCheckRequest,
    {
        AutoCheckRequest
    }
}

/// Registers a value as a root; nothing else is needed to keep it.
pub fn add_root<T: Traceable>(_obj: &T) {
}

/// Unregisters a root.
pub fn remove_root<T: Traceable>(_obj: &T) {
}

/// A value rooted for the lifetime of the guard.
pub struct RootedGuard<T> {
    value: T,
}

impl<T> RootedGuard<T> {
    /// The value the guard holds.
    pub closed spec fn value(&self) -> T {
        self.value
    }

    /// Roots `val`.
    pub fn new(val: T) -> (g: RootedGuard<T>)
        ensures
            g.value() == val,
    {
        RootedGuard { value: val }
    }

    /// A handle to the rooted value.
    pub fn handle(&self) -> (r: &T)
        ensures
            *r == self.value(),
    {
        &self.value
    }

    /// A mutable handle to the rooted value.
    pub fn handle_mut(&mut self) -> (r: &mut T)
        ensures
            *r == old(self).value(),
            final(self).value() == *final(r),
    {
        &mut self.value
    }

    /// Replaces the rooted value.
    pub fn set(&mut self, val: T)
        ensures
            final(self).value() == val,
    {
        self.value = val;
    }

    /// Unroots and returns the value.
    pub fn take(self) -> (v: T)
        ensures
            v == self.value(),
    {
        self.value
    }
}

impl<T: Copy> RootedGuard<T> {
    /// A copy of the rooted value.
    pub fn get(&self) -> (v: T)
        ensures
            v == self.value(),
    {
        self.value
    }
}

impl RootedGuard<Vec<JSVal>> {
    /// Stores `value` at `index`, extending the vector with `undefined`.
    pub fn set_index(&mut self, index: usize, value: JSVal)
        ensures
            final(self).value()@ == crate::v8_glue::elements_after_set(
                old(self).value()@,
                index as nat,
                value,
            ),
    {
        let ghost start = self.value@;
        if index < self.value.len() {
            self.value.set(index, value);
        } else {
            while self.value.len() < index
                invariant
                    index >= start.len(),
                    self.value.len() <= index,
                    self.value@ == start + Seq::new(
                        (self.value.len() - start.len()) as nat,
                        |k: int| crate::jsval::undefined_value(),
                    ),
                decreases index - self.value.len(),
            {
                self.value.push(JSVal::undefined());
                assert(self.value@ =~= start + Seq::new(
                    (self.value.len() - start.len()) as nat,
                    |k: int| crate::jsval::undefined_value(),
                ));
            }
            self.value.push(value);
        }
        assert(self.value@ =~= crate::v8_glue::elements_after_set(start, index as nat, value));
    }
}

impl RootedGuard<JSVal> {
    pub fn to_int32(&self) -> (i: i32)
        ensures
            i == low_i32(self.value().asBits_),
    {
        self.value.to_int32()
    }

    pub fn is_undefined(&self) -> (b: bool)
        ensures
            b == self.value().holds_undefined(),
    {
        self.value.is_undefined()
    }

    pub fn is_object(&self) -> (b: bool)
        ensures
            b == self.value().holds_object(),
    {
        self.value.is_object()
    }

    pub fn is_null_or_undefined(&self) -> (b: bool)
        ensures
            b == (self.value().holds_null() || self.value().holds_undefined()),
    {
        self.value.is_null_or_undefined()
    }

    pub fn to_object(&self) -> (o: u64)
        ensures
            o == self.value().object_handle(),
    {
        self.value.to_object()
    }

    pub fn to_string(&self) -> (s: u64)
        ensures
            s == self.value().string_handle(),
    {
        self.value.to_string()
    }

    /// The value handed to a script: always `undefined`.
    pub fn safe_to_jsval(&self, rval: &mut JSVal)
        ensures
            *final(rval) == crate::jsval::undefined_value(),
    {
        *rval = JSVal::undefined();
    }
}

impl RootedGuard<u64> {
    /// Whether the rooted pointer is null.
    pub fn is_null(&self) -> (b: bool)
        ensures
            b == (self.value() == 0),
    {
        self.value == 0
    }
}

/// A vector that can be rooted; it starts empty and unrooted.
pub struct RootableVec<T: Traceable> {
    v: Vec<T>,
}

impl<T: Traceable> RootableVec<T> {
    pub closed spec fn items(&self) -> Seq<T> {
        self.v@
    }

    pub fn new_unrooted() -> (r: RootableVec<T>)
        ensures
            r.items().len() == 0,
    {
        RootableVec { v: Vec::new() }
    }
}

/// A rooted vector: its items live in a `RootableVec`.
pub struct RootedVec<T: Traceable> {
    items: Vec<T>,
}

impl<T: Traceable> RootedVec<T> {
    pub closed spec fn items(&self) -> Seq<T> {
        self.items@
    }

    /// Roots the items of `root`, taking them over.
    pub fn new(root: RootableVec<T>) -> (r: RootedVec<T>)
        ensures
            r.items() == root.items(),
    {
        RootedVec { items: root.v }
    }

    /// Roots the items of `root` followed by `values`.
    pub fn from_iter(root: RootableVec<T>, values: Vec<T>) -> (r: RootedVec<T>)
        ensures
            r.items() == root.items() + values@,
    {
        let mut items = root.v;
        let mut values = values;
        let ghost start = items@;
        let ghost rest = values@;
        items.append(&mut values);
        RootedVec { items }
    }

    /// The rooted items.
    pub fn as_slice(&self) -> (s: &[T])
        ensures
            s@ == self.items(),
    {
        self.items.as_slice()
    }
}

/// A boxed value rooted while the box lives.
pub struct RootedTraceableBox<T> {
    value: Box<T>,
}

impl<T> RootedTraceableBox<T> {
    pub closed spec fn value(&self) -> T {
        *self.value
    }

    pub fn new(val: T) -> (b: RootedTraceableBox<T>)
        ensures
            b.value() == val,
    {
        RootedTraceableBox { value: Box::new(val) }
    }

    pub fn from_box(val: Box<T>) -> (b: RootedTraceableBox<T>)
        ensures
            b.value() == *val,
    {
        RootedTraceableBox { value: val }
    }

    /// The boxed value.
    pub fn ptr(&self) -> (r: &T)
        ensures
            *r == self.value(),
    {
        &self.value
    }

    /// Unroots and returns the box.
    pub fn into_box(self) -> (b: Box<T>)
        ensures
            *b == self.value(),
    {
        self.value
    }
}

/// A pointer field kept by a `Heap`; it is never set and reads as null.
#[derive(Clone, Copy, PartialEq, Eq, Structural, Debug)]
pub struct HeapPtr {
    addr: u64,
}

impl HeapPtr {
    pub fn get(&self) -> (p: u64)
        ensures
            p == self.addr(),
    {
        self.addr
    }

    pub closed spec fn addr(&self) -> u64 {
        self.addr
    }
}

/// A traced heap cell that may hold a value.
pub struct Heap<T> {
    pub ptr: HeapPtr,
    cell: Option<T>,
}

impl<T> Heap<T> {
    /// What the cell holds.
    pub closed spec fn contents(&self) -> Option<T> {
        self.cell
    }

    /// The pointer field of the cell.
    pub closed spec fn pointer(&self) -> HeapPtr {
        self.ptr
    }

    /// A cell holding `val`.
    pub fn new(val: T) -> (h: Heap<T>)
        ensures
            h.contents() == Some(val),
            h.pointer().addr() == 0,
    {
        Heap { ptr: HeapPtr { addr: 0 }, cell: Some(val) }
    }

    /// A boxed cell holding `val`.
    pub fn boxed(val: T) -> (h: Box<Heap<T>>)
        ensures
            h.contents() == Some(val),
            h.pointer().addr() == 0,
    {
        Box::new(Self::new(val))
    }

    /// Stores `val` in the cell.
    pub fn set(&mut self, val: T)
        ensures
            final(self).contents() == Some(val),
            final(self).pointer() == old(self).pointer(),
    {
        self.cell = Some(val);
    }

    /// The value held, if any.
    pub fn handle(&self) -> (r: Option<&T>)
        ensures
            match r {
                Some(v) => self.contents() == Some(*v),
                None => self.contents() is None,
            },
    {
        match &self.cell {
            Some(v) => Some(v),
            None => None,
        }
    }
}

impl<T> Default for Heap<T> {
    fn default() -> (h: Heap<T>)
        ensures
            h.contents() is None,
    {
        Heap { ptr: HeapPtr { addr: 0 }, cell: None }
    }
}

/// A value whose bits are all zero: what an empty heap cell reads as.
pub trait AllZero: Sized {
    /// The all-zero value.
    spec fn all_zero() -> Self;

    /// Makes the all-zero value.
    fn zeroed() -> (v: Self)
        ensures
            v == Self::all_zero(),
    ;
}

impl AllZero for JSVal {
    /// The all-zero value is `undefined`.
    open spec fn all_zero() -> JSVal {
        crate::jsval::undefined_value()
    }

    fn zeroed() -> (v: JSVal) {
        JSVal::undefined()
    }
}

impl AllZero for crate::jsval::jsid {
    /// The all-zero id is the void id.
    open spec fn all_zero() -> crate::jsval::jsid {
        crate::jsval::jsid { asBits_: 0 }
    }

    fn zeroed() -> (v: crate::jsval::jsid) {
        crate::jsval::jsid { asBits_: 0 }
    }
}

impl AllZero for bool {
    open spec fn all_zero() -> bool {
        false
    }

    fn zeroed() -> (v: bool) {
        false
    }
}

impl AllZero for u8 {
    open spec fn all_zero() -> u8 {
        0
    }

    fn zeroed() -> (v: u8) {
        0
    }
}

impl AllZero for u16 {
    open spec fn all_zero() -> u16 {
        0
    }

    fn zeroed() -> (v: u16) {
        0
    }
}

impl AllZero for u32 {
    open spec fn all_zero() -> u32 {
        0
    }

    fn zeroed() -> (v: u32) {
        0
    }
}

impl AllZero for u64 {
    /// For a pointer the all-zero value is null.
    open spec fn all_zero() -> u64 {
        0
    }

    fn zeroed() -> (v: u64) {
        0
    }
}

impl AllZero for usize {
    open spec fn all_zero() -> usize {
        0
    }

    fn zeroed() -> (v: usize) {
        0
    }
}

impl AllZero for i8 {
    open spec fn all_zero() -> i8 {
        0
    }

    fn zeroed() -> (v: i8) {
        0
    }
}

impl AllZero for i16 {
    open spec fn all_zero() -> i16 {
        0
    }

    fn zeroed() -> (v: i16) {
        0
    }
}

impl AllZero for i32 {
    open spec fn all_zero() -> i32 {
        0
    }

    fn zeroed() -> (v: i32) {
        0
    }
}

impl AllZero for i64 {
    open spec fn all_zero() -> i64 {
        0
    }

    fn zeroed() -> (v: i64) {
        0
    }
}

impl<T: Copy + AllZero> Heap<T> {
    /// The value held; an empty cell reads as the all-zero value
    /// (`undefined` for a value, null for a pointer).
    pub fn get(&self) -> (v: T)
        ensures
            v == match self.contents() {
                Some(v) => v,
                None => T::all_zero(),
            },
    {
        match self.cell {
            Some(v) => v,
            None => T::zeroed(),
        }
    }
}

} // verus!
