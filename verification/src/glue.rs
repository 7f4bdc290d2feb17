//! The glue entry points the DOM bindings call, answered by the engine
//! glue.  Entry points the engine glue does not back answer the way the
//! engine answers an unsupported request.
use crate::descriptor::PropertyDescriptor;
use crate::jsval::{jsid, JSVal};
use crate::v8_glue::{
    after_new_proxy, after_store_string, slot_value, slots_after_set, GlueModel, GlueState,
    proxy_extra_of,
};
use std::collections::HashMap;
use vstd::prelude::*;
use vstd::utf8::{decode_utf8, valid_utf8};

verus! {

broadcast use vstd::std_specs::hash::group_hash_axioms;

/// Objects are never cross-compartment wrappers here.
pub fn IsWrapper(_obj: u64) -> (b: bool)
    ensures
        !b,
{
    false
}

/// Wrappers are never unwrapped dynamically: null.
pub fn UnwrapObjectDynamic(_obj: u64, _stop_at_window_proxy: bool) -> (r: u64)
    ensures
        r == 0,
{
    0
}

/// Wrappers are never unwrapped statically: null.
pub fn UnwrapObjectStatic(_obj: u64) -> (r: u64)
    ensures
        r == 0,
{
    0
}

/// Nothing is wrapped, so unwrapping gives the object itself.
pub fn UncheckedUnwrapObject(obj: u64, _stop_at_outer: bool) -> (r: u64)
    ensures
        r == obj,
{
    obj
}

/// Every non-null object belongs to the proxy handler family.
pub fn IsProxyHandlerFamily(obj: u64) -> (b: bool)
    ensures
        b == (obj != 0),
{
    obj != 0
}

/// The string id `id` stands for (see `id_to_string`); a null id pointer
/// (`None`) gives null.
pub fn RUST_JSID_TO_STRING(state: &mut GlueState, id: Option<jsid>) -> (s: u64)
    requires
        old(state).wf(),
        id matches Some(i) && i.names_int() ==> old(state)@.global_id is Some && old(
            state,
        ).can_allocate(1),
    ensures
        final(state).wf(),
        match id {
            None => s == 0 && final(state)@ == old(state)@,
            Some(i) => if i.names_string() {
                s == i.string_handle() && final(state)@ == old(state)@
            } else if i.names_int() {
                s == old(state)@.next_handle && final(state)@ == after_store_string(
                    old(state)@,
                    s,
                    crate::text::decimal_text(i.int_value() as int),
                )
            } else {
                s == 0 && final(state)@ == old(state)@
            },
        },
{
    match id {
        None => 0,
        Some(i) => crate::v8_glue::id_to_string(state, i),
    }
}

/// Ids are not appended through this entry point.
pub fn AppendToIdVector(_ids: &mut Vec<jsid>, _id: jsid) -> (ok: bool)
    ensures
        !ok,
        final(_ids)@ == old(_ids)@,
{
    false
}

/// Proxy private data is kept in reserved slots; nothing to read here.
pub fn GetProxyPrivate(_proxy: u64, _out: &mut JSVal)
    ensures
        *final(_out) == *old(_out),
{
    crate::v8_glue::get_proxy_private()
}

/// Proxy private data is kept in reserved slots; nothing to write here.
pub fn SetProxyPrivate(_proxy: u64, _value: JSVal) {
    crate::v8_glue::set_proxy_private()
}

/// Deleting properties is not supported; the request is ignored.
pub fn DeletePropertyIgnoringResult(_obj: u64, prop: Option<&str>) {
    crate::v8_glue::delete_property_ignoring_result(_obj, prop)
}

/// Accepts a property spec for a live object (see `define_property_by_id`).
pub fn DefinePropertyById(state: &GlueState, obj: u64) -> (ok: bool)
    requires
        state@.global_id is Some,
    ensures
        ok == (obj != 0 && state@.objects.contains(obj)),
{
    crate::v8_glue::define_property_by_id(state, obj)
}

/// Descriptors are filled in by the lookups themselves; nothing to do.
pub fn SetDataPropertyDescriptor(_desc: &mut PropertyDescriptor, _value: JSVal, _attrs: u32)
    ensures
        *final(_desc) == *old(_desc),
{
    crate::v8_glue::set_data_property_descriptor()
}

/// Makes an engine string from UTF-8 bytes (see `atomize_string_n`).
pub fn AtomizeStringN(state: &mut GlueState, bytes: Option<&[u8]>) -> (s: u64)
    requires
        old(state).wf(),
        old(state).can_allocate(1),
        old(state)@.global_id is Some,
    ensures
        final(state).wf(),
        match bytes {
            Some(b) if valid_utf8(b@) => s == old(state)@.next_handle && s != 0 && final(state)@
                == after_store_string(old(state)@, s, decode_utf8(b@)),
            _ => s == 0 && final(state)@ == old(state)@,
        },
{
    crate::v8_glue::atomize_string_n(state, bytes)
}

/// Writes the value in reserved slot `slot` of `proxy` into `out`.
pub fn GetProxyReservedSlot(state: &GlueState, proxy: u64, slot: u32, out: &mut JSVal)
    ensures
        *final(out) == slot_value(state@, proxy, slot as nat),
{
    crate::v8_glue::get_proxy_reserved_slot(state, proxy, slot, out)
}

/// Writes the value in reserved slot `slot` of `obj` into `out`.
pub fn JS_GetReservedSlot(state: &GlueState, obj: u64, slot: u32, out: &mut JSVal)
    ensures
        *final(out) == slot_value(state@, obj, slot as nat),
{
    *out = crate::v8_glue::get_reserved_slot(state, obj, slot);
}

/// Stores `val` in reserved slot `slot` of `proxy`.
pub fn SetProxyReservedSlot(state: &mut GlueState, proxy: u64, slot: u32, val: JSVal)
    requires
        old(state).wf(),
    ensures
        final(state).wf(),
        proxy == 0 ==> final(state)@ == old(state)@,
        proxy != 0 ==> final(state)@ == (GlueModel {
            reserved_slots: old(state)@.reserved_slots.insert(
                proxy,
                slots_after_set(old(state)@, proxy, slot as nat, val),
            ),
            ..old(state)@
        }),
{
    crate::v8_glue::set_reserved_slot(state, proxy, slot, val)
}

/// A new job queue token.
pub fn CreateJobQueue(state: &mut GlueState) -> (q: u64)
    requires
        old(state).wf(),
        old(state).can_allocate(1),
    ensures
        final(state).wf(),
        q == old(state)@.next_handle,
        q != 0,
        final(state)@ == (GlueModel { next_handle: (q + 1) as u64, ..old(state)@ }),
{
    crate::v8_glue::create_job_queue(state)
}

/// Releases a job queue token.
pub fn DeleteJobQueue(queue: u64) {
    crate::v8_glue::delete_job_queue(queue)
}

/// Registers the extra of a proxy handler (see `create_proxy_handler`).
pub fn CreateProxyHandler(state: &mut GlueState, traps: u64, extra: u64) -> (handler: u64)
    requires
        old(state).wf(),
    ensures
        final(state).wf(),
        handler == traps,
        final(state)@ == (GlueModel {
            proxy_handler_extras: old(state)@.proxy_handler_extras.insert(traps, extra),
            last_proxy_handler_extra: Some(extra),
            ..old(state)@
        }),
{
    crate::v8_glue::create_proxy_handler(state, traps, extra)
}

/// The extra of proxy `proxy`.
pub fn GetProxyHandlerExtra(state: &GlueState, proxy: u64) -> (e: u64)
    ensures
        e == proxy_extra_of(state@, proxy),
{
    crate::v8_glue::get_proxy_handler_extra(state, proxy)
}

/// Creates a proxy object (see `new_proxy_object`).
pub fn NewProxyObject(state: &mut GlueState, handler: u64, proto: u64, flag: bool) -> (obj: u64)
    requires
        old(state).wf(),
        old(state).can_allocate(1),
        old(state)@.global_id is Some,
    ensures
        final(state).wf(),
        obj == old(state)@.next_handle,
        obj != 0,
        final(state)@ == after_new_proxy(old(state)@, obj, handler, proto),
{
    crate::v8_glue::new_proxy_object(state, handler, proto, flag)
}

/// Ids are never void through this entry point.
pub fn RUST_JSID_IS_VOID(_id: jsid) -> (b: bool)
    ensures
        !b,
{
    false
}

/// Structured clone data cannot be copied.
pub fn CopyJSStructuredCloneData(_data: &[u8], _dest: &mut Vec<u8>) -> (ok: bool)
    ensures
        !ok,
        final(_dest)@ == old(_dest)@,
{
    false
}

/// Structured clone data is always empty.
pub fn GetLengthOfJSStructuredCloneData(_data: &[u8]) -> (n: usize)
    ensures
        n == 0,
{
    0
}

/// Structured clone data cannot be written.
pub fn WriteBytesToJSStructuredCloneData(_bytes: &[u8], _data: &mut Vec<u8>) -> (ok: bool)
    ensures
        !ok,
        final(_data)@ == old(_data)@,
{
    false
}

/// There is no script stack to dump.
pub fn DumpJSStack(_show_args: bool, _show_locals: bool, _show_this_props: bool) {
}

/// Memory reporting is not supported; the callback is ignored.
pub fn InitializeMemoryReporter(_is_dom_object: u64) {
}

/// Memory sizes of the engine that the embedder collects.
#[derive(Clone, Copy, PartialEq, Eq, Structural, Debug, Default)]
pub struct ServoSizes {
    pub gc_heap_used: usize,
    pub gc_heap_unused: usize,
    pub gc_heap_admin: usize,
    pub gc_heap_decommitted: usize,
    pub malloc_heap: usize,
    pub non_heap: usize,
}

/// Nothing is measured; the sizes are left as they are and the collection
/// succeeds.
pub fn CollectServoSizes(sizes: &mut ServoSizes) -> (ok: bool)
    ensures
        ok,
        *final(sizes) == *old(sizes),
{
    true
}

/// Environment preparers are ignored.
pub fn RegisterScriptEnvironmentPreparer(_callback: u64) {
}

/// Preparer closures succeed without running.
pub fn RunScriptEnvironmentPreparerClosure(_closure: u64) -> (ok: bool)
    ensures
        ok,
{
    true
}

/// Build ids are accepted and not kept.
pub fn SetBuildId(_build_id: &mut Vec<u8>, _bytes: &[u8]) -> (ok: bool)
    ensures
        ok,
        final(_build_id)@ == old(_build_id)@,
{
    true
}

/// Streamed chunks are accepted and dropped.
pub fn StreamConsumerConsumeChunk(_consumer: u64, _data: &[u8]) -> (ok: bool)
    ensures
        ok,
{
    true
}

/// Response URLs of a stream are ignored.
pub fn StreamConsumerNoteResponseURLs(_consumer: u64, _url: Option<&str>, _source_map_url: Option<&str>) {
}

/// The end of a stream is ignored.
pub fn StreamConsumerStreamEnd(_consumer: u64) {
}

/// Stream errors are ignored.
pub fn StreamConsumerStreamError(_consumer: u64, _error: u64) {
}

/// Function values carry no JIT info.
pub fn RUST_FUNCTION_VALUE_TO_JITINFO(_value: JSVal) -> (info: u64)
    ensures
        info == 0,
{
    0
}

/// JIT getters are not run here; the caller falls back to the interpreter.
pub fn CallJitGetterOp(_info: u64, _obj: u64, _this: u64, _argc: u32, _vp: &mut Vec<JSVal>) -> (ok: bool)
    ensures
        !ok,
        final(_vp)@ == old(_vp)@,
{
    crate::v8_glue::call_jit_getter_op()
}

/// JIT methods are not run here; the caller falls back to the interpreter.
pub fn CallJitMethodOp(_info: u64, _obj: u64, _this: u64, _argc: u32, _vp: &mut Vec<JSVal>) -> (ok: bool)
    ensures
        !ok,
        final(_vp)@ == old(_vp)@,
{
    crate::v8_glue::call_jit_method_op()
}

/// JIT setters are not run here; the caller falls back to the interpreter.
pub fn CallJitSetterOp(_info: u64, _obj: u64, _this: u64, _argc: u32, _vp: &mut Vec<JSVal>) -> (ok: bool)
    ensures
        !ok,
        final(_vp)@ == old(_vp)@,
{
    crate::v8_glue::call_jit_setter_op()
}


/// The private value principal `p` carries in `privates`, or 0 for a
/// principal that is not live.
pub open spec fn principal_private(privates: Map<u64, u64>, p: u64) -> u64 {
    if privates.contains_key(p) {
        privates[p]
    } else {
        0
    }
}

/// The principals created through the glue and still live, each with the
/// private value it was created with.
pub struct RustJSPrincipals {
    privates: HashMap<u64, u64>,
    next: u64,
}

impl RustJSPrincipals {
    /// The live principals and their private values.
    pub closed spec fn privates(&self) -> Map<u64, u64> {
        self.privates@
    }

    /// The handle the next principal gets.
    pub closed spec fn next(&self) -> u64 {
        self.next
    }

    /// Every live principal is non-null and was handed out before `next`.
    pub closed spec fn wf(&self) -> bool {
        &&& 1 <= self.next
        &&& forall|p: u64| #[trigger] self.privates@.contains_key(p) ==> 0 < p < self.next
    }

    /// In a well-formed registry no live principal is null, and none has a
    /// handle at or above `next`: a handle not yet handed out is not live.
    pub proof fn lemma_live_principals(&self)
        requires
            self.wf(),
        ensures
            1 <= self.next(),
            !self.privates().contains_key(0),
            forall|p: u64| self.next() <= p ==> !#[trigger] self.privates().contains_key(p),
    {
    }

    /// No principals yet.
    pub fn new() -> (r: RustJSPrincipals)
        ensures
            r.wf(),
            r.privates() == Map::<u64, u64>::empty(),
            r.next() == 1,
    {
        RustJSPrincipals { privates: HashMap::new(), next: 1 }
    }

    /// Creates a principal carrying `private`; the handle is non-null and
    /// names no live principal.
    pub fn CreateRustJSPrincipals(&mut self, private: u64) -> (p: u64)
        requires
            old(self).wf(),
            old(self).next() < u64::MAX,
        ensures
            final(self).wf(),
            p != 0,
            !old(self).privates().contains_key(p),
            final(self).privates() == old(self).privates().insert(p, private),
            final(self).next() == p + 1,
    {
        let p = self.next;
        self.privates.insert(p, private);
        self.next = p + 1;
        p
    }

    /// The private value of principal `p`, or 0 when it is not live.
    pub fn GetRustJSPrincipalsPrivate(&self, p: u64) -> (private: u64)
        ensures
            private == principal_private(self.privates(), p),
    {
        match self.privates.get(&p) {
            Some(v) => *v,
            None => 0,
        }
    }

    /// Destroys principal `p`; a null principal is ignored.
    pub fn DestroyRustJSPrincipals(&mut self, p: u64)
        requires
            old(self).wf(),
        ensures
            final(self).wf(),
            final(self).privates() == old(self).privates().remove(p),
            p == 0 ==> final(self).privates() == old(self).privates(),
            final(self).next() == old(self).next(),
    {
        if p == 0 {
            assert(self.privates@.remove(0) =~= self.privates@);
            return;
        }
        self.privates.remove(&p);
    }
}

/// A principal's private value reads back as it was created, until the
/// principal is destroyed; then it reads as null.
pub proof fn law_principal_private_reads_back(privates: Map<u64, u64>, p: u64, private: u64)
    ensures
        principal_private(privates.insert(p, private), p) == private,
        principal_private(privates.insert(p, private).remove(p), p) == 0,
{
}

/// In a well-formed registry the null handle, and every handle not yet
/// handed out, reads a null private value; destroying the null handle
/// leaves every principal as it was.
pub proof fn law_unknown_principals_read_null(r: RustJSPrincipals, q: u64)
    requires
        r.wf(),
        q == 0 || r.next() <= q,
    ensures
        principal_private(r.privates(), q) == 0,
        r.privates().remove(0) == r.privates(),
{
    r.lemma_live_principals();
    assert(r.privates().remove(0) =~= r.privates());
}

} // verus!
