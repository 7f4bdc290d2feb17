//! The JSAPI entry points the bindings call, answered by the engine glue.
//! Entry points the glue does not back report failure (or nothing) the way
//! the engine reports an unsupported operation.
use crate::descriptor::{ObjectOpResult, PropertyDescriptor, JSPROP_ENUMERATE};
use crate::jsval::{int_jsid, jsid, object_value, string_jsid, undefined_value, JSVal, TraceKind};
use crate::runtime::{after_define_methods, define_methods, JSFunctionSpec};
use crate::types::{ClassRef, PromiseUserInputEventHandlingState, Type};
use crate::v8_glue::{
    after_create_dom_global, after_new_array, after_new_proxy, after_set_element, after_set_property, array_length,
    atomize_string_n, clamp_u32, create_dom_global, get_script_private, new_array_object,
    new_proxy_object, object_is_regexp, store_source_text, after_new_function, call_function,
    get_function_object, js_new_function, NativeCall, MAX_HANDLE, after_store_string, array_buffer_len,
    array_view_byte_length, array_view_byte_offset, array_view_type, buffer_len_of,
    get_pending_exception, get_property_by_jsid, get_property_descriptor_by_jsid,
    get_property_keys, has_property_by_jsid, id_index, id_name, is_array_buffer,
    is_array_buffer_view, is_array_object, is_detached_array_buffer, is_promise_object,
    key_ids, listed_indices, after_store_strings, set_property_by_jsid, set_property_by_name,
    slot_value, slots_after_set, string_len, typed_array_length, value_by_id, view_of,
    GlueModel, GlueState,
};
use crate::text::utf16_units;
use vstd::utf8::{decode_utf8, valid_utf8};
use crate::types::element_size;
use vstd::prelude::*;

verus! {

/// No value is callable through this entry point.
pub fn IsCallable(_v: JSVal) -> (b: bool)
    ensures
        !b,
{
    false
}

/// Build-id callbacks are not used; the callback is ignored.
pub fn SetProcessBuildIdOp(_op: u64) {
}

/// The byte length of array buffer `obj`, or 0.
pub fn GetArrayBufferByteLength(state: &GlueState, obj: u64) -> (n: usize)
    ensures
        n == buffer_len_of(state@, obj),
{
    array_buffer_len(state, obj)
}

/// Whether `obj` is an array buffer.
pub fn IsArrayBufferObject(state: &GlueState, obj: u64) -> (b: bool)
    ensures
        b == (obj != 0 && state@.array_buffers.contains_key(obj)),
{
    is_array_buffer(state, obj)
}

/// Whether `obj` is a detached array buffer.
pub fn IsDetachedArrayBufferObject(state: &GlueState, obj: u64) -> (b: bool)
    ensures
        b == (obj != 0 && state@.detached_buffers.contains(obj)),
{
    is_detached_array_buffer(state, obj)
}

/// No object is a constructor through this entry point.
pub fn IsConstructor(_obj: u64) -> (b: bool)
    ensures
        !b,
{
    false
}

/// No object is a cyclic module.
pub fn IsCyclicModule(_obj: u64) -> (b: bool)
    ensures
        !b,
{
    false
}

/// Whether `obj` is a promise.
pub fn IsPromiseObject(state: &GlueState, obj: u64) -> (b: bool)
    ensures
        b == state@.promise_states.contains_key(obj),
{
    is_promise_object(state, obj)
}

/// Job queues need no notice; ignored.
pub fn JobQueueMayNotBeEmpty(_queue: u64) {
}

/// Interrupt callbacks are not supported.
pub fn JS_AddInterruptCallback(_callback: u64) -> (ok: bool)
    ensures
        !ok,
{
    false
}

/// Objects cannot be frozen.
pub fn JS_FreezeObject(_obj: u64) -> (ok: bool)
    ensures
        !ok,
{
    false
}

/// Stores `v` under `id` on `obj` (the receiver is not consulted).
pub fn JS_ForwardSetPropertyTo(state: &mut GlueState, obj: u64, id: jsid, v: JSVal) -> (ok: bool)
    requires
        old(state).wf(),
    ensures
        final(state).wf(),
        obj == 0 ==> !ok,
        obj != 0 && id.names_int() ==> ok == old(state)@.arrays.contains_key(obj) && (ok
            ==> final(state)@ == after_set_element(old(state)@, obj, id_index(id) as nat, v)),
        obj != 0 && !id.names_int() ==> ok == (id_name(old(state)@, id) is Some) && (ok
            ==> final(state)@ == after_set_property(
            old(state)@,
            obj,
            id_name(old(state)@, id).unwrap(),
            v,
        )),
        !ok ==> final(state)@ == old(state)@,
{
    set_property_by_jsid(state, obj, id, v)
}

/// Garbage collection requests are ignored.
pub fn JS_GC(_reason: u32) {
}

/// The byte length of view `obj`, or 0.
pub fn JS_GetArrayBufferViewByteLength(state: &GlueState, obj: u64) -> (n: usize)
    ensures
        n == match view_of(state@, obj) {
            Some(v) => v.byte_length,
            None => 0,
        },
{
    array_view_byte_length(state, obj)
}

/// The byte offset of view `obj`, or 0.
pub fn JS_GetArrayBufferViewByteOffset(state: &GlueState, obj: u64) -> (n: usize)
    ensures
        n == match view_of(state@, obj) {
            Some(v) => v.byte_offset,
            None => 0,
        },
{
    array_view_byte_offset(state, obj)
}

/// The element type of view `obj`, or `MaxTypedArrayViewType`.
pub fn JS_GetArrayBufferViewType(state: &GlueState, obj: u64) -> (t: Type)
    ensures
        t == match view_of(state@, obj) {
            Some(v) => v.element_type,
            None => Type::MaxTypedArrayViewType,
        },
{
    array_view_type(state, obj)
}

/// Function arity is not tracked: 0.
pub fn JS_GetFunctionArity(_fun: u64) -> (n: u16)
    ensures
        n == 0,
{
    0
}

/// Function display ids are not tracked.
pub fn JS_GetFunctionDisplayId(_fun: u64) -> (ok: bool)
    ensures
        !ok,
{
    false
}

/// Function ids are not tracked.
pub fn JS_GetFunctionId(_fun: u64) -> (ok: bool)
    ensures
        !ok,
{
    false
}

/// Fills `desc` with the descriptor of `obj`'s property `id` and sets
/// `is_none` when there is none.  Always succeeds.
pub fn JS_GetOwnPropertyDescriptorById(
    state: &GlueState,
    obj: u64,
    id: jsid,
    desc: &mut PropertyDescriptor,
    is_none: &mut bool,
) -> (ok: bool)
    requires
        state.wf(),
    ensures
        ok,
        *final(is_none) == (value_by_id(state@, obj, id) is None),
        match value_by_id(state@, obj, id) {
            Some(v) => final(desc).is_data_descriptor(obj, v, JSPROP_ENUMERATE),
            None => final(desc).is_empty(),
        },
{
    *is_none = get_property_descriptor_by_jsid(state, obj, id, desc);
    true
}

/// Writes the pending exception into `vp`; fails (leaving `vp`) when none
/// is pending.
pub fn JS_GetPendingException(state: &GlueState, vp: &mut JSVal) -> (ok: bool)
    ensures
        ok == (state@.pending_exception is Some),
        ok ==> *final(vp) == state@.pending_exception.unwrap(),
        !ok ==> *final(vp) == *old(vp),
{
    match get_pending_exception(state) {
        Some(v) => {
            *vp = v;
            true
        },
        None => false,
    }
}

/// Writes the value stored under `id` on `obj` into `vp`; fails (leaving
/// `vp`) when there is none.
pub fn JS_GetPropertyById(state: &GlueState, obj: u64, id: jsid, vp: &mut JSVal) -> (ok: bool)
    requires
        state.wf(),
    ensures
        ok == (value_by_id(state@, obj, id) is Some),
        ok ==> *final(vp) == value_by_id(state@, obj, id).unwrap(),
        !ok ==> *final(vp) == *old(vp),
{
    match get_property_by_jsid(state, obj, id) {
        Some(v) => {
            *vp = v;
            true
        },
        None => false,
    }
}

/// Reads like `JS_GetPropertyById` (the receiver is not consulted).
pub fn JS_ForwardGetPropertyTo(state: &GlueState, obj: u64, id: jsid, vp: &mut JSVal) -> (ok: bool)
    requires
        state.wf(),
    ensures
        ok == (value_by_id(state@, obj, id) is Some),
        ok ==> *final(vp) == value_by_id(state@, obj, id).unwrap(),
        !ok ==> *final(vp) == *old(vp),
{
    JS_GetPropertyById(state, obj, id, vp)
}

/// The UTF-16 length of string `s`.
pub fn JS_GetStringLength(state: &GlueState, s: u64) -> (n: usize)
    ensures
        n == match crate::v8_glue::text_of(state@, s) {
            Some(t) => utf16_units(t).len(),
            None => 0,
        },
{
    string_len(state, s)
}

/// The element count of typed array `obj`.
pub fn JS_GetTypedArrayLength(state: &GlueState, obj: u64) -> (n: usize)
    ensures
        n == match view_of(state@, obj) {
            Some(v) => match element_size(v.element_type) {
                Some(size) => (v.byte_length as nat) / size,
                None => 0,
            },
            None => 0,
        },
{
    typed_array_length(state, obj)
}

/// Writes into `found` whether a value is stored under `id` on `obj`.
/// Always succeeds.
pub fn JS_HasOwnPropertyById(state: &GlueState, obj: u64, id: jsid, found: &mut bool) -> (ok: bool)
    requires
        state.wf(),
    ensures
        ok,
        *final(found) == (value_by_id(state@, obj, id) is Some),
{
    *found = has_property_by_jsid(state, obj, id);
    true
}

/// Writes into `found` whether a value is stored under `id` on `obj`.
/// Always succeeds.
pub fn JS_HasPropertyById(state: &GlueState, obj: u64, id: jsid, found: &mut bool) -> (ok: bool)
    requires
        state.wf(),
    ensures
        ok,
        *final(found) == (value_by_id(state@, obj, id) is Some),
{
    JS_HasOwnPropertyById(state, obj, id, found)
}

/// Writes into `found` whether a value is stored under `id` on `obj`.
/// Always succeeds.
pub fn JS_AlreadyHasOwnPropertyById(state: &GlueState, obj: u64, id: jsid, found: &mut bool) -> (ok: bool)
    requires
        state.wf(),
    ensures
        ok,
        *final(found) == (value_by_id(state@, obj, id) is Some),
{
    JS_HasOwnPropertyById(state, obj, id, found)
}

/// Whether `obj` is an array buffer view.
pub fn JS_IsArrayBufferViewObject(state: &GlueState, obj: u64) -> (b: bool)
    ensures
        b == (obj != 0 && state@.array_views.contains_key(obj)),
{
    is_array_buffer_view(state, obj)
}

/// Every array buffer view counts as a typed array.
pub fn JS_IsTypedArrayObject(state: &GlueState, obj: u64) -> (b: bool)
    ensures
        b == (obj != 0 && state@.array_views.contains_key(obj)),
{
    is_array_buffer_view(state, obj)
}

/// There is no JIT backend to disable.
pub fn DisableJitBackend() {
}

/// Appends the keys of `obj` to `props` (see `get_property_keys`).
pub fn GetPropertyKeys(state: &mut GlueState, obj: u64, props: &mut Vec<jsid>) -> (ok: bool)
    requires
        old(state).wf(),
        obj != 0 ==> old(state)@.global_id is Some && old(state).can_allocate(
            (old(state)@.property_names)(obj).len(),
        ),
    ensures
        final(state).wf(),
        ok == (obj != 0),
        !ok ==> final(state)@ == old(state)@ && final(props)@ == old(props)@,
        ok ==> final(state)@ == after_store_strings(
            old(state)@,
            old(state)@.next_handle,
            (old(state)@.property_names)(obj),
        ),
        ok ==> final(props)@ == old(props)@ + key_ids(
            listed_indices(old(state)@, obj),
            old(state)@.next_handle,
            (old(state)@.property_names)(obj).len(),
        ),
{
    get_property_keys(state, obj, props)
}

/// User-input state is not tracked for promises.
pub fn GetPromiseUserInputEventHandlingState(_promise: u64) -> (s: PromiseUserInputEventHandlingState)
    ensures
        s == PromiseUserInputEventHandlingState::DontCare,
{
    PromiseUserInputEventHandlingState::DontCare
}

/// Dynamic import hooks are ignored.
pub fn SetModuleDynamicImportHook(_hook: u64) {
}

/// Module metadata hooks are ignored.
pub fn SetModuleMetadataHook(_hook: u64) {
}

/// Script private reference hooks are ignored.
pub fn SetScriptPrivateReferenceHooks(_add: u64, _release: u64) {
}

/// Structured clone reads are not supported.
pub fn JS_ReadUint32Pair(_reader: u64) -> (ok: bool)
    ensures
        !ok,
{
    false
}

/// Structured clone writes are not supported.
pub fn JS_WriteUint32Pair(_writer: u64, _a: u32, _b: u32) -> (ok: bool)
    ensures
        !ok,
{
    false
}

/// Stores `val` in native-reserved slot `which` of function object `fun`.
pub fn SetFunctionNativeReserved(state: &mut GlueState, fun: u64, which: usize, val: JSVal)
    requires
        old(state).wf(),
    ensures
        final(state).wf(),
        fun == 0 ==> final(state)@ == old(state)@,
        fun != 0 ==> final(state)@ == (GlueModel {
            reserved_slots: old(state)@.reserved_slots.insert(
                fun,
                slots_after_set(old(state)@, fun, (which as u32) as nat, val),
            ),
            ..old(state)@
        }),
{
    crate::v8_glue::set_function_native_reserved(state, fun, which, val)
}

/// The value in native-reserved slot `which` of function object `fun`.
pub fn GetFunctionNativeReserved(state: &GlueState, fun: u64, which: usize) -> (v: JSVal)
    ensures
        v == slot_value(state@, fun, (which as u32) as nat),
{
    crate::v8_glue::get_function_native_reserved(state, fun, which)
}

/// Module private values set through this entry point are not kept.
pub fn SetModulePrivate(_module: u64, _value: JSVal) {
}

/// Module private reference hooks are ignored.
pub fn SetModulePrivateReferenceHooks(_get: u64, _set: u64) {
}

/// Module resolve hooks are ignored.
pub fn SetModuleResolveHook(_hook: u64) {
}

/// Records `value` as the private value of `script`; null is ignored.
pub fn SetScriptPrivate(state: &mut GlueState, script: u64, value: JSVal)
    requires
        old(state).wf(),
    ensures
        final(state).wf(),
        script == 0 ==> final(state)@ == old(state)@,
        script != 0 ==> final(state)@ == (GlueModel {
            script_privates: old(state)@.script_privates.insert(script, value),
            ..old(state)@
        }),
{
    crate::v8_glue::set_script_private(state, script, value)
}

/// Every trace kind is reported as `Object`.
pub fn GCTraceKindToAscii(_kind: TraceKind) -> (s: &'static str)
    ensures
        s@ == "Object"@,
{
    "Object"
}

/// Standard classes are never resolved lazily.
pub fn JS_MayResolveStandardClass(_id: jsid) -> (b: bool)
    ensures
        !b,
{
    false
}

/// Standard classes are not enumerated.
pub fn JS_NewEnumerateStandardClasses(_obj: u64, _enumerable_only: bool) -> (ok: bool)
    ensures
        !ok,
{
    false
}

/// Standard classes are not resolved.
pub fn JS_ResolveStandardClass(_obj: u64, _id: jsid, resolved: &mut bool) -> (ok: bool)
    ensures
        !ok,
        *final(resolved) == *old(resolved),
{
    false
}

/// Principals are not reference counted; ignored.
pub fn JS_HoldPrincipals(_principals: u64) {
}

/// Interned strings are not turned into ids: the void id.
pub fn RUST_INTERNED_STRING_TO_JSID(_s: u64) -> (id: jsid)
    ensures
        id.asBits_ == 0,
{
    crate::jsval::jsid(0)
}

/// Every symbol stands for the string `@@unscopables`: a new string holding
/// it, whose id is written into `out` and returned.
pub fn RUST_SYMBOL_TO_JSID(state: &mut GlueState, _sym: JSVal, out: &mut jsid) -> (id: jsid)
    requires
        old(state).wf(),
        old(state).can_allocate(1),
        old(state)@.global_id is Some,
    ensures
        final(state).wf(),
        id == string_jsid(old(state)@.next_handle),
        *final(out) == id,
        final(state)@ == after_store_string(old(state)@, old(state)@.next_handle, "@@unscopables"@),
{
    let s = crate::v8_glue::new_string(state, "@@unscopables".to_owned());
    let id = jsid::from_string(s);
    *out = id;
    id
}

/// The id of integer `i`.
pub fn int_to_jsid(i: i32) -> (id: jsid)
    ensures
        id == int_jsid(i),
{
    jsid::from_int(i)
}

/// Writes into `out` whether `obj` is an array object.  Always succeeds.
pub fn IsArrayObject(state: &GlueState, obj: u64, out: &mut bool) -> (ok: bool)
    ensures
        ok,
        *final(out) == (obj != 0 && state@.arrays.contains_key(obj)),
{
    *out = is_array_object(state, obj);
    true
}

/// Defines `obj`'s property `name` as `val` (attributes are not kept).
/// Fails on a null object or name.
pub fn JS_DefineProperty(state: &mut GlueState, obj: u64, name: Option<&str>, val: JSVal, _attrs: u32) -> (ok: bool)
    requires
        old(state).wf(),
    ensures
        final(state).wf(),
        ok == (obj != 0 && name is Some),
        ok ==> final(state)@ == after_set_property(old(state)@, obj, name.unwrap()@, val),
        !ok ==> final(state)@ == old(state)@,
{
    set_property_by_name(state, obj, name, val)
}

/// Defines `obj`'s property `name` from an object value.
pub fn JS_DefineProperty3(state: &mut GlueState, obj: u64, name: Option<&str>, val: JSVal, attrs: u32) -> (ok: bool)
    requires
        old(state).wf(),
    ensures
        final(state).wf(),
        ok == (obj != 0 && name is Some),
        ok ==> final(state)@ == after_set_property(old(state)@, obj, name.unwrap()@, val),
        !ok ==> final(state)@ == old(state)@,
{
    JS_DefineProperty(state, obj, name, val, attrs)
}

/// Defines `obj`'s property `name` from an integer value.
pub fn JS_DefineProperty4(state: &mut GlueState, obj: u64, name: Option<&str>, val: JSVal, attrs: u32) -> (ok: bool)
    requires
        old(state).wf(),
    ensures
        final(state).wf(),
        ok == (obj != 0 && name is Some),
        ok ==> final(state)@ == after_set_property(old(state)@, obj, name.unwrap()@, val),
        !ok ==> final(state)@ == old(state)@,
{
    JS_DefineProperty(state, obj, name, val, attrs)
}

/// Defines `obj`'s property `name` from a handle value.
pub fn JS_DefineProperty5(state: &mut GlueState, obj: u64, name: Option<&str>, val: JSVal, attrs: u32) -> (ok: bool)
    requires
        old(state).wf(),
    ensures
        final(state).wf(),
        ok == (obj != 0 && name is Some),
        ok ==> final(state)@ == after_set_property(old(state)@, obj, name.unwrap()@, val),
        !ok ==> final(state)@ == old(state)@,
{
    JS_DefineProperty(state, obj, name, val, attrs)
}

/// Stores `val` under `id` on `obj` (attributes are not kept).
pub fn JS_DefinePropertyById5(state: &mut GlueState, obj: u64, id: jsid, val: JSVal, _attrs: u32) -> (ok: bool)
    requires
        old(state).wf(),
    ensures
        final(state).wf(),
        obj == 0 ==> !ok,
        obj != 0 && id.names_int() ==> ok == old(state)@.arrays.contains_key(obj) && (ok
            ==> final(state)@ == after_set_element(old(state)@, obj, id_index(id) as nat, val)),
        obj != 0 && !id.names_int() ==> ok == (id_name(old(state)@, id) is Some) && (ok
            ==> final(state)@ == after_set_property(
            old(state)@,
            obj,
            id_name(old(state)@, id).unwrap(),
            val,
        )),
        !ok ==> final(state)@ == old(state)@,
{
    set_property_by_jsid(state, obj, id, val)
}

/// Nothing to announce for a new global object.
pub fn JS_FireOnNewGlobalObject(_obj: u64) {
}

/// Descriptors are filled in by the lookups themselves; nothing to do.
pub fn SetDataPropertyDescriptor(_desc: &mut PropertyDescriptor, _value: JSVal, _attrs: u32) {
}

/// Whether an exception is pending.
pub fn JS_IsExceptionPending(state: &GlueState) -> (b: bool)
    ensures
        b == (state@.pending_exception is Some),
{
    crate::v8_glue::is_exception_pending(state)
}

/// Clears the pending exception.
pub fn JS_ClearPendingException(state: &mut GlueState)
    requires
        old(state).wf(),
    ensures
        final(state).wf(),
        final(state)@ == (GlueModel { pending_exception: None, ..old(state)@ }),
{
    crate::v8_glue::clear_pending_exception(state)
}

/// Makes `val` the pending exception.
pub fn JS_SetPendingException(state: &mut GlueState, val: JSVal)
    requires
        old(state).wf(),
    ensures
        final(state).wf(),
        final(state)@ == (GlueModel { pending_exception: Some(val), ..old(state)@ }),
{
    crate::v8_glue::set_pending_exception(state, val)
}


/// Reads `obj`'s property `name` into `vp`, or undefined when there is no
/// such property (or no object or name); the read always succeeds.
pub fn JS_GetProperty(state: &GlueState, obj: u64, name: Option<&str>, vp: &mut JSVal) -> (ok: bool)
    requires
        state.wf(),
    ensures
        ok,
        *final(vp) == match name {
            Some(n) => if obj != 0 {
                match crate::v8_glue::property_of(state@, obj, n@) {
                    Some(v) => v,
                    None => undefined_value(),
                }
            } else {
                undefined_value()
            },
            None => undefined_value(),
        },
{
    match crate::v8_glue::get_property_by_name(state, obj, name) {
        Some(val) => {
            *vp = val;
        },
        None => {
            *vp = JSVal::undefined();
        },
    }
    true
}

/// Defines `obj`'s property `name` as `v`; fails on a null object or name.
pub fn JS_SetProperty(state: &mut GlueState, obj: u64, name: Option<&str>, v: JSVal) -> (ok: bool)
    requires
        old(state).wf(),
    ensures
        final(state).wf(),
        ok == (obj != 0 && name is Some),
        ok ==> final(state)@ == after_set_property(old(state)@, obj, name.unwrap()@, v),
        !ok ==> final(state)@ == old(state)@,
{
    set_property_by_name(state, obj, name, v)
}

/// Interns the text of the C string `s` (its bytes before the terminator)
/// as a new string; null for a missing string or bytes that are not UTF-8.
pub fn JS_AtomizeAndPinString(state: &mut GlueState, s: Option<&[u8]>) -> (r: u64)
    requires
        old(state).wf(),
        old(state).can_allocate(1),
        old(state)@.global_id is Some,
    ensures
        final(state).wf(),
        match s {
            Some(b) if valid_utf8(b@) => r == old(state)@.next_handle && r != 0 && final(state)@
                == after_store_string(old(state)@, r, decode_utf8(b@)),
            _ => r == 0 && final(state)@ == old(state)@,
        },
{
    match s {
        None => 0,
        Some(bytes) => atomize_string_n(state, Some(bytes)),
    }
}

/// Prototypes are always reported immutable.
pub fn JS_SetImmutablePrototype(succeeded: &mut bool) -> (ok: bool)
    ensures
        ok,
        *final(succeeded),
{
    *succeeded = true;
    true
}

/// Creates the DOM global of class `clasp` and makes it current.
pub fn JS_NewGlobalObject(state: &mut GlueState, clasp: ClassRef) -> (global: u64)
    requires
        old(state).wf(),
        old(state).can_allocate(6),
    ensures
        final(state).wf(),
        global == old(state)@.next_handle + 1,
        final(state)@ == after_create_dom_global(old(state)@, clasp),
{
    create_dom_global(state, clasp)
}


/// What storing `v` under `id` on `obj` makes of the model `m`: an integer
/// id stores an element of an array, another id a named property; `None`
/// when nothing can be stored (a null object, an integer id on a non-array,
/// an id without a name).
pub open spec fn set_by_id(m: GlueModel, obj: u64, id: jsid, v: JSVal) -> Option<GlueModel> {
    if obj == 0 {
        None
    } else if id.names_int() {
        if m.arrays.contains_key(obj) {
            Some(after_set_element(m, obj, id_index(id) as nat, v))
        } else {
            None
        }
    } else {
        match id_name(m, id) {
            Some(n) => Some(after_set_property(m, obj, n, v)),
            None => None,
        }
    }
}

/// Stores `v` under `id` on `obj` and, when that succeeds, records success
/// in `result`.
pub fn JS_DefinePropertyById(
    state: &mut GlueState,
    obj: u64,
    id: jsid,
    v: JSVal,
    result: &mut ObjectOpResult,
) -> (ok: bool)
    requires
        old(state).wf(),
    ensures
        final(state).wf(),
        ok == (set_by_id(old(state)@, obj, id, v) is Some),
        final(state)@ == match set_by_id(old(state)@, obj, id, v) {
            Some(m) => m,
            None => old(state)@,
        },
        ok ==> final(result).code_ == 0,
        !ok ==> *final(result) == *old(result),
{
    let ok = set_property_by_jsid(state, obj, id, v);
    if ok {
        result.succeed();
    }
    ok
}

/// Stores `v` under `id` on `obj` without consulting a named getter, as
/// `JS_DefinePropertyById` does.
pub fn SetPropertyIgnoringNamedGetter(
    state: &mut GlueState,
    obj: u64,
    id: jsid,
    v: JSVal,
    result: &mut ObjectOpResult,
) -> (ok: bool)
    requires
        old(state).wf(),
    ensures
        final(state).wf(),
        ok == (set_by_id(old(state)@, obj, id, v) is Some),
        final(state)@ == match set_by_id(old(state)@, obj, id, v) {
            Some(m) => m,
            None => old(state)@,
        },
        ok ==> final(result).code_ == 0,
        !ok ==> *final(result) == *old(result),
{
    JS_DefinePropertyById(state, obj, id, v, result)
}

/// The descriptor of `proxy`'s own property `id`, as
/// `JS_GetOwnPropertyDescriptorById` gives it.
pub fn InvokeGetOwnPropertyDescriptor(
    state: &GlueState,
    proxy: u64,
    id: jsid,
    desc: &mut PropertyDescriptor,
    is_none: &mut bool,
) -> (ok: bool)
    requires
        state.wf(),
    ensures
        ok,
        *final(is_none) == (value_by_id(state@, proxy, id) is None),
        match value_by_id(state@, proxy, id) {
            Some(v) => final(desc).is_data_descriptor(proxy, v, JSPROP_ENUMERATE),
            None => final(desc).is_empty(),
        },
{
    JS_GetOwnPropertyDescriptorById(state, proxy, id, desc, is_none)
}

/// Writes the length of array `obj` (0 for anything else) into `len`.
pub fn GetArrayLength(state: &GlueState, obj: u64, len: &mut u32) -> (ok: bool)
    ensures
        ok,
        *final(len) == if state@.arrays.contains_key(obj) {
            clamp_u32(state@.arrays[obj].len() as int)
        } else {
            0
        },
{
    *len = array_length(state, obj);
    true
}

/// The built-in class of an object, as far as the glue tells them apart.
#[derive(Clone, Copy, PartialEq, Eq, Structural, Debug)]
pub enum ESClass {
    Other,
    Object,
    Array,
    Function,
    Map_,
    Set_,
    Date,
    RegExp,
}

/// Writes `Array` for an array and `Object` for anything else into `class`.
pub fn GetBuiltinClass(state: &GlueState, obj: u64, class: &mut ESClass) -> (ok: bool)
    ensures
        ok,
        *final(class) == if obj != 0 && state@.arrays.contains_key(obj) {
            ESClass::Array
        } else {
            ESClass::Object
        },
{
    *class = if is_array_object(state, obj) {
        ESClass::Array
    } else {
        ESClass::Object
    };
    true
}

/// Creates the window proxy of `window`: a proxy for `handler` whose
/// prototype is `window`.
pub fn NewWindowProxy(state: &mut GlueState, window: u64, handler: u64) -> (obj: u64)
    requires
        old(state).wf(),
        old(state).can_allocate(1),
        old(state)@.global_id is Some,
    ensures
        final(state).wf(),
        obj == old(state)@.next_handle,
        obj != 0,
        final(state)@ == after_new_proxy(old(state)@, obj, handler, window),
{
    new_proxy_object(state, handler, window, false)
}

/// No object is a regular expression here.
pub fn ObjectIsRegExp(out: &mut bool) -> (ok: bool)
    ensures
        ok,
        !*final(out),
{
    object_is_regexp(0, out)
}

/// No object is a date here.
pub fn ObjectIsDate(out: &mut bool) -> (ok: bool)
    ensures
        ok,
        !*final(out),
{
    *out = false;
    true
}

/// Creates an array holding `values`; null when there are no values to
/// hold.
pub fn NewArrayObject(state: &mut GlueState, values: Option<Vec<JSVal>>) -> (obj: u64)
    requires
        old(state).wf(),
        values is Some ==> old(state).can_allocate(1) && old(state)@.global_id is Some,
    ensures
        final(state).wf(),
        match values {
            Some(vs) => obj == old(state)@.next_handle && obj != 0 && final(state)@ == after_new_array(
                old(state)@,
                obj,
                vs@,
            ),
            None => obj == 0 && final(state)@ == old(state)@,
        },
{
    match values {
        Some(vs) => new_array_object(state, vs),
        None => 0,
    }
}

/// Writes the private value of `script` into `value`.
pub fn JS_GetScriptPrivate(state: &GlueState, script: u64, value: &mut JSVal)
    ensures
        *final(value) == if script != 0 && state@.script_privates.contains_key(script) {
            state@.script_privates[script]
        } else {
            undefined_value()
        },
{
    *value = get_script_private(state, script);
}

/// Records `source` as script source text and returns its id.
pub fn transform_str_to_source_text(state: &mut GlueState, source: &str) -> (id: u64)
    requires
        old(state).wf(),
        old(state).can_allocate(1),
    ensures
        final(state).wf(),
        id == old(state)@.next_handle,
        id != 0,
        final(state)@ == (GlueModel {
            next_handle: (id + 1) as u64,
            source_texts: old(state)@.source_texts.insert(id, source@),
            ..old(state)@
        }),
{
    store_source_text(state, source)
}

/// UTF-16 source is not kept: an empty source text is recorded instead.
pub fn transform_u16_to_source_text(state: &mut GlueState, _source: &[u16]) -> (id: u64)
    requires
        old(state).wf(),
        old(state).can_allocate(1),
    ensures
        final(state).wf(),
        id == old(state)@.next_handle,
        id != 0,
        final(state)@ == (GlueModel {
            next_handle: (id + 1) as u64,
            source_texts: old(state)@.source_texts.insert(id, Seq::<char>::empty()),
            ..old(state)@
        }),
{
    let empty = "";
    proof {
        reveal_strlit("");
        assert(empty@ =~= Seq::<char>::empty());
    }
    store_source_text(state, empty)
}


/// Creates a function with native callback `call` and defines it as
/// `obj`'s property `name`.  Gives the function, or null when the property
/// cannot be defined (a null object or name); the function is created in
/// any case.
pub fn DefineFunctionWithReserved(
    state: &mut GlueState,
    obj: u64,
    name: Option<&str>,
    call: Option<u64>,
    nargs: u32,
    attrs: u32,
) -> (fun: u64)
    requires
        old(state).wf(),
        old(state).can_allocate(2),
        old(state)@.global_id is Some,
    ensures
        final(state).wf(),
        ({
            let f = old(state)@.next_handle;
            let m1 = after_new_function(old(state)@, f, (f + 1) as u64, call, 0);
            if obj != 0 && name is Some {
                fun == f + 1 && final(state)@ == after_set_property(
                    m1,
                    obj,
                    name.unwrap()@,
                    object_value(f),
                )
            } else {
                fun == 0 && final(state)@ == m1
            }
        }),
{
    let owned_name = match name {
        Some(n) => Some(n.to_owned()),
        None => None,
    };
    let ghost f = old(state)@.next_handle;
    proof {
        state.lemma_next_handle_is_not_null();
    }
    let fun = js_new_function(state, 0, call, nargs, attrs, owned_name);
    let fun_obj = get_function_object(state, fun);
    assert(fun_obj == f);
    if fun_obj == 0 || !set_property_by_name(state, obj, name, JSVal::from_object(fun_obj)) {
        0
    } else {
        fun
    }
}

/// Defines the methods of `funcs` (up to the first without a name) on
/// `obj`; no list defines nothing.
pub fn JS_DefineFunctions(state: &mut GlueState, obj: u64, funcs: Option<&[JSFunctionSpec]>) -> (ok: bool)
    requires
        old(state).wf(),
        old(state)@.global_id is Some,
        funcs is Some ==> old(state)@.next_handle + 2 * funcs.unwrap()@.len() <= MAX_HANDLE,
    ensures
        final(state).wf(),
        match funcs {
            None => ok && final(state)@ == old(state)@,
            Some(fs) => if obj != 0 {
                ok && final(state)@ == after_define_methods(old(state)@, obj, fs@)
            } else if fs@.len() > 0 && fs@[0].name is Some {
                !ok && final(state)@ == after_new_function(
                    old(state)@,
                    old(state)@.next_handle,
                    (old(state)@.next_handle + 1) as u64,
                    fs@[0].call,
                    0,
                )
            } else {
                ok && final(state)@ == old(state)@
            },
        },
{
    match funcs {
        None => true,
        Some(fs) => define_methods(state, obj, fs).is_ok(),
    }
}

/// Prepares calling function object `fun` with `args`, as `call_function`
/// does with no context of its own.
pub fn Call(state: &GlueState, fun: u64, args: &[JSVal]) -> (r: Option<NativeCall>)
    ensures
        ({
            let obj = object_value(fun).object_handle();
            if obj != 0 && state@.function_natives.contains_key(obj) {
                &&& r is Some
                &&& r.unwrap().native == state@.function_natives[obj]
                &&& r.unwrap().cx == if state@.function_contexts.contains_key(obj) {
                    state@.function_contexts[obj]
                } else {
                    0
                }
                &&& r.unwrap().argc == clamp_u32(args@.len() as int)
                &&& r.unwrap().vp@ == seq![undefined_value(), object_value(obj)] + args@.take(
                    clamp_u32(args@.len() as int) as int,
                )
            } else {
                r is None
            }
        }),
{
    call_function(state, 0, JSVal::from_object(fun), args)
}

} // verus!
