//! The runtime-level surface the bindings use: engine and runtime handles,
//! options, id vectors, method definition and small conversions.
use crate::jsval::{jsid, object_value, JSVal};
use crate::types::{ClassRef, Type, JSCLASS_IS_DOMJSCLASS};
use crate::v8_glue::{
    after_new_function, after_set_property, after_new_view, after_new_buffer, class_of,
    view_bytes, GlueModel, GlueState, MAX_HANDLE,
};
use vstd::prelude::*;

verus! {

/// The engine; it can always be shut down.
#[derive(Clone, Copy, PartialEq, Eq, Structural, Debug)]
pub struct JSEngine;

/// A handle on the engine.
#[derive(Clone, Copy, PartialEq, Eq, Structural, Debug)]
pub struct JSEngineHandle;

/// The parent of child runtimes.
#[derive(Clone, Copy, PartialEq, Eq, Structural, Debug)]
pub struct ParentRuntime;

/// A compiled script that can be instantiated.
#[derive(Clone, Copy, PartialEq, Eq, Structural, Debug)]
pub struct Stencil;

/// A context handle usable from other threads.
#[derive(Clone, Copy, PartialEq, Eq, Structural, Debug)]
pub struct ThreadSafeJSContext;

impl ThreadSafeJSContext {
    /// Interrupts are not delivered; the request is accepted.
    pub fn request_interrupt_callback(&self) {
    }
}

impl JSEngine {
    /// Starts the engine; this always succeeds.
    pub fn init() -> (r: Result<JSEngine, ()>)
        ensures
            r is Ok,
    {
        Ok(JSEngine)
    }

    pub fn handle(&self) -> (h: JSEngineHandle)
        ensures
            h == JSEngineHandle,
    {
        JSEngineHandle
    }

    pub fn can_shutdown(&self) -> (b: bool)
        ensures
            b,
    {
        true
    }
}

/// A runtime of the engine.
#[derive(Clone, Copy, PartialEq, Eq, Structural, Debug)]
pub struct Runtime;

impl Runtime {
    pub fn new(_engine: JSEngineHandle) -> (r: Runtime)
        ensures
            r == Runtime,
    {
        Runtime
    }

    pub fn prepare_for_new_child(&self) -> (p: ParentRuntime)
        ensures
            p == ParentRuntime,
    {
        ParentRuntime
    }

    /// The raw runtime: none is exposed.
    pub fn rt(&self) -> (p: u64)
        ensures
            p == 0,
    {
        0
    }

    pub fn thread_safe_js_context(&self) -> (c: ThreadSafeJSContext)
        ensures
            c == ThreadSafeJSContext,
    {
        ThreadSafeJSContext
    }
}

/// The prototype key of a standard class.
#[derive(Clone, Copy, PartialEq, Eq, Structural, Debug)]
pub struct JSProtoKey(pub u32);

/// Engine-side strings, values and tracers as the bindings name them.
#[derive(Clone, Copy, PartialEq, Eq, Structural, Debug)]
pub struct V8String;

#[derive(Clone, Copy, PartialEq, Eq, Structural, Debug)]
pub struct V8Value;

#[derive(Clone, Copy, PartialEq, Eq, Structural, Debug)]
pub struct V8Tracer;

/// Markers the generated bindings refer to.
#[derive(Clone, Copy, PartialEq, Eq, Structural, Debug)]
pub struct JsRecord;

#[derive(Clone, Copy, PartialEq, Eq, Structural, Debug)]
pub struct JsInterface;

#[derive(Clone, Copy, PartialEq, Eq, Structural, Debug)]
pub struct JsConstructor;

#[derive(Clone, Copy, PartialEq, Eq, Structural, Debug)]
pub struct CustomAutoRooter;

/// Whether asm.js is enabled.
#[derive(Clone, Copy, PartialEq, Eq, Structural, Debug)]
pub enum AsmJSOption {
    Enabled,
    DisabledByAsmJSPref,
}

/// Options for compiling scripts.
#[derive(Clone, Copy, PartialEq, Eq, Structural, Debug)]
pub struct CompileOptions {
    pub asmJSOption_: AsmJSOption,
    pub importAttributes_: bool,
}

impl Default for CompileOptions {
    fn default() -> (o: CompileOptions)
        ensures
            o.asmJSOption_ == AsmJSOption::DisabledByAsmJSPref,
            !o.importAttributes_,
    {
        CompileOptions { asmJSOption_: AsmJSOption::DisabledByAsmJSPref, importAttributes_: false }
    }
}

impl CompileOptions {
    pub fn set_importAttributes_(&mut self, value: bool)
        ensures
            *final(self) == (CompileOptions { importAttributes_: value, ..*old(self) }),
    {
        self.importAttributes_ = value;
    }
}

/// Options of a context.
#[derive(Clone, Copy, PartialEq, Eq, Structural, Debug)]
pub struct ContextOptions {
    pub compileOptions_: CompileOptions,
    pub wasm_: bool,
    pub wasmBaseline_: bool,
    pub wasmIon_: bool,
}

impl Default for ContextOptions {
    fn default() -> (o: ContextOptions)
        ensures
            o.compileOptions_.asmJSOption_ == AsmJSOption::DisabledByAsmJSPref,
            !o.compileOptions_.importAttributes_,
            !o.wasm_ && !o.wasmBaseline_ && !o.wasmIon_,
    {
        ContextOptions {
            compileOptions_: CompileOptions::default(),
            wasm_: false,
            wasmBaseline_: false,
            wasmIon_: false,
        }
    }
}

impl ContextOptions {
    pub fn set_wasm_(&mut self, value: bool)
        ensures
            *final(self) == (ContextOptions { wasm_: value, ..*old(self) }),
    {
        self.wasm_ = value;
    }

    pub fn set_wasmBaseline_(&mut self, value: bool)
        ensures
            *final(self) == (ContextOptions { wasmBaseline_: value, ..*old(self) }),
    {
        self.wasmBaseline_ = value;
    }

    pub fn set_wasmIon_(&mut self, value: bool)
        ensures
            *final(self) == (ContextOptions { wasmIon_: value, ..*old(self) }),
    {
        self.wasmIon_ = value;
    }
}

/// A vector of property ids.
pub struct IdVector {
    ids: Vec<jsid>,
}

impl IdVector {
    pub closed spec fn ids(&self) -> Seq<jsid> {
        self.ids@
    }

    pub fn new() -> (v: IdVector)
        ensures
            v.ids().len() == 0,
    {
        IdVector { ids: Vec::new() }
    }

    /// The vector, to be filled.
    pub fn handle_mut(&mut self) -> (r: &mut Vec<jsid>)
        ensures
            r@ == old(self).ids(),
            final(self).ids() == final(r)@,
    {
        &mut self.ids
    }

    /// The ids.
    pub fn as_slice(&self) -> (s: &[jsid])
        ensures
            s@ == self.ids(),
    {
        self.ids.as_slice()
    }
}

/// Whether `clasp` is a non-null DOM class.
pub fn is_dom_class(clasp: ClassRef) -> (b: bool)
    ensures
        b == (clasp.addr != 0 && clasp.flags & JSCLASS_IS_DOMJSCLASS != 0),
{
    clasp.addr != 0 && clasp.flags & JSCLASS_IS_DOMJSCLASS != 0
}

/// Whether `obj`'s class is a DOM class.
pub fn is_dom_object(state: &GlueState, obj: u64) -> (b: bool)
    ensures
        b == (class_of(state@, obj).addr != 0 && class_of(state@, obj).flags & JSCLASS_IS_DOMJSCLASS
            != 0),
{
    is_dom_class(crate::v8_glue::get_object_class(state, obj))
}

/// Values never need wrapping across compartments here.
pub fn maybe_wrap_value(_vp: &mut JSVal) -> (ok: bool)
    ensures
        !ok,
        *final(_vp) == *old(_vp),
{
    false
}

/// Objects never need wrapping across compartments here.
pub fn maybe_wrap_object(_obj: &mut u64) -> (ok: bool)
    ensures
        !ok,
        *final(_obj) == *old(_obj),
{
    false
}

/// A method to define: its name (`None` ends a list), native callback,
/// argument count and flags.
pub struct JSFunctionSpec {
    pub name: Option<String>,
    pub call: Option<u64>,
    pub nargs: u16,
    pub flags: u16,
}

/// The model after defining one method `name` with `call` on `obj`: a new
/// function whose object is stored under `name`.
pub open spec fn after_define_method(m: GlueModel, obj: u64, name: Seq<char>, call: Option<u64>) -> GlueModel {
    let fobj = m.next_handle;
    let m1 = after_new_function(m, fobj, (fobj + 1) as u64, call, 0);
    after_set_property(m1, obj, name, object_value(fobj))
}

/// The model after defining the methods of `ms` up to the first unnamed
/// one on a non-null `obj`.
pub open spec fn after_define_methods(m: GlueModel, obj: u64, ms: Seq<JSFunctionSpec>) -> GlueModel
    decreases ms.len(),
{
    if ms.len() == 0 || ms[0].name is None {
        m
    } else {
        after_define_methods(
            after_define_method(m, obj, ms[0].name.unwrap()@, ms[0].call),
            obj,
            ms.drop_first(),
        )
    }
}

/// Defines each method of `methods`, up to the first without a name, as a
/// function property of `obj`.  Fails on a null object once a method is to
/// be defined (its function is created first).
pub fn define_methods(state: &mut GlueState, obj: u64, methods: &[JSFunctionSpec]) -> (r: Result<(), ()>)
    requires
        old(state).wf(),
        old(state)@.global_id is Some,
        old(state)@.next_handle + 2 * methods@.len() <= MAX_HANDLE,
    ensures
        final(state).wf(),
        obj != 0 ==> r is Ok && final(state)@ == after_define_methods(old(state)@, obj, methods@),
        obj == 0 ==> if methods@.len() > 0 && methods@[0].name is Some {
            r is Err && final(state)@ == after_new_function(
                old(state)@,
                old(state)@.next_handle,
                (old(state)@.next_handle + 1) as u64,
                methods@[0].call,
                0,
            )
        } else {
            r is Ok && final(state)@ == old(state)@
        },
{
    if obj == 0 {
        if methods.len() > 0 {
            match &methods[0].name {
                Some(n) => {
                    let _fun = crate::v8_glue::js_new_function(
                        state,
                        0,
                        methods[0].call,
                        methods[0].nargs as u32,
                        methods[0].flags as u32,
                        Some(n.clone()),
                    );
                    return Err(());
                },
                None => {},
            }
        }
        return Ok(());
    }
    let ghost m0 = state@;
    let mut i: usize = 0;
    assert(methods@.subrange(0, methods@.len() as int) =~= methods@);
    while i < methods.len()
        invariant_except_break
            i <= methods@.len(),
            state.wf(),
            state@.global_id is Some,
            state@.next_handle + 2 * (methods@.len() - i) <= MAX_HANDLE,
            obj != 0,
            after_define_methods(m0, obj, methods@) == after_define_methods(
                state@,
                obj,
                methods@.subrange(i as int, methods@.len() as int),
            ),
        ensures
            state.wf(),
            state@ == after_define_methods(m0, obj, methods@),
        decreases methods@.len() - i,
    {
        let ghost rest = methods@.subrange(i as int, methods@.len() as int);
        assert(rest.drop_first() =~= methods@.subrange(i + 1, methods@.len() as int));
        let method = &methods[i];
        let name = match &method.name {
            Some(n) => n,
            None => {
                break;
            },
        };
        let fun = crate::v8_glue::js_new_function(
            state,
            0,
            method.call,
            method.nargs as u32,
            method.flags as u32,
            Some(name.clone()),
        );
        let fun_obj = crate::v8_glue::get_function_object(state, fun);
        let ok = crate::v8_glue::set_property(state, obj, name.as_str(), JSVal::from_object(fun_obj));
        i = i + 1;
    }
    Ok(())
}

/// Property specs need no definition here.
pub fn define_properties(_obj: u64) -> (r: Result<(), ()>)
    ensures
        r is Ok,
{
    Ok(())
}

/// Where a script was called from.
#[derive(Clone, Debug, Default)]
pub struct ScriptedCaller {
    pub filename: String,
    pub line: u32,
    pub col: u32,
}

/// What an exception says about itself.
#[derive(Clone, Debug, Default)]
pub struct ExceptionStackInfo {
    pub message: String,
    pub filename: String,
    pub line: u32,
    pub col: u32,
}

/// No script caller can be described.
pub fn describe_scripted_caller() -> (r: Result<ScriptedCaller, ()>)
    ensures
        r is Err,
{
    Err(())
}

/// Exceptions carry no stack information here.
pub fn error_info_from_exception_stack(_value: JSVal) -> (r: Option<ExceptionStackInfo>)
    ensures
        r is None,
{
    None
}

/// A captured stack: it has no frames.
#[derive(Clone, Copy, PartialEq, Eq, Structural, Debug)]
pub struct CapturedJSStack;

impl CapturedJSStack {
    /// Visits each frame; there are none.
    pub fn for_each_stack_frame(&self) -> (frames: Vec<u64>)
        ensures
            frames@.len() == 0,
    {
        Vec::new()
    }
}

/// A chain of objects used as the environment of a script.
pub struct EnvironmentChain {
    objects: Vec<u64>,
}

impl EnvironmentChain {
    pub closed spec fn objects(&self) -> Seq<u64> {
        self.objects@
    }

    pub fn new() -> (c: EnvironmentChain)
        ensures
            c.objects().len() == 0,
    {
        EnvironmentChain { objects: Vec::new() }
    }

    /// Appends `object` to the chain.
    pub fn append(&mut self, object: u64)
        ensures
            final(self).objects() == old(self).objects().push(object),
    {
        self.objects.push(object);
    }
}

/// Range errors are not raised here.
pub fn throw_range_error(_msg: &str) {
}

/// Type errors are not raised here.
pub fn throw_type_error(_msg: &str) {
}

/// There is no unwind to resume.
pub fn maybe_resume_unwind() {
}

/// Runs `f`; a panic in it is not caught here.
pub fn wrap_panic<F: FnOnce()>(f: F)
    requires
        f.requires(()),
{
    f();
}

/// Why iterating a value with `for_of` stopped.
pub enum ForOfIterationFailure<OtherError> {
    ValueIsNotIterable,
    JSFailed,
    Other(OtherError),
}

/// Iterating a value visits nothing here: the callback is never called and
/// the iteration succeeds.
pub fn for_of<Callback, OtherError>(_iterable: JSVal, _callback: Callback) -> (r: Result<
    (),
    ForOfIterationFailure<OtherError>,
>)
    ensures
        r is Ok,
{
    Ok(())
}

/// Conversions of engine strings through this entry point give the empty
/// string.
pub fn jsstr_to_string(_s: u64) -> (r: String)
    ensures
        r@.len() == 0,
{
    String::new()
}

/// Conversions of Latin-1 engine strings through this entry point give the
/// empty string.
pub fn latin1_to_string(_s: u64) -> (r: String)
    ensures
        r@.len() == 0,
{
    String::new()
}

/// UTF-8 characters of an engine string: none are exposed.
#[derive(Clone, Copy, PartialEq, Eq, Structural, Debug)]
pub struct Utf8Chars {
    ptr: u64,
    len: usize,
}

impl Utf8Chars {
    pub fn from(_s: u64) -> (c: Utf8Chars)
        ensures
            c.as_ptr_spec() == 0,
            c.len_spec() == 0,
    {
        Utf8Chars { ptr: 0, len: 0 }
    }

    pub closed spec fn as_ptr_spec(&self) -> u64 {
        self.ptr
    }

    pub closed spec fn len_spec(&self) -> usize {
        self.len
    }

    pub fn as_ptr(&self) -> (p: u64)
        ensures
            p == self.as_ptr_spec(),
    {
        self.ptr
    }

    pub fn len(&self) -> (n: usize)
        ensures
            n == self.len_spec(),
    {
        self.len
    }
}

/// Symbols do not become ids here: the void id.
pub fn SymbolId(_value: JSVal) -> (id: jsid)
    ensures
        id.asBits_ == 0,
{
    crate::jsval::jsid(0)
}

/// A string id: the string it names.
#[derive(Clone, Copy, PartialEq, Eq, Structural, Debug)]
pub struct StringId {
    pub ptr: u64,
}

/// The string id of string `s`.
pub fn StringId(s: u64) -> (id: StringId)
    ensures
        id.ptr == s,
{
    StringId { ptr: s }
}

/// The callee of a native call is not recorded: `undefined`.
pub fn JS_CALLEE(_vp: &[JSVal]) -> (v: JSVal)
    ensures
        v == crate::jsval::undefined_value(),
{
    JSVal::undefined()
}

/// A typed array of bytes: the object it reads and a copy of its bytes.
pub struct TypedArray {
    object: u64,
    data: Vec<u8>,
}

impl TypedArray {
    pub closed spec fn object_spec(&self) -> u64 {
        self.object
    }

    pub closed spec fn data(&self) -> Seq<u8> {
        self.data@
    }

    /// Reads the bytes that view (or buffer) `obj` covers.
    pub fn from(state: &GlueState, obj: u64) -> (r: Result<TypedArray, ()>)
        ensures
            r matches Ok(a) && a.object_spec() == obj && a.data() == view_bytes(state@, obj),
    {
        Ok(TypedArray { object: obj, data: crate::v8_glue::array_view_bytes(state, obj) })
    }

    /// Creates a byte array from `values`, or zero-filled of `len` bytes
    /// when no values are given; returns the new view.
    pub fn create(state: &mut GlueState, values: Option<&[u8]>, len: usize) -> (r: Result<u64, ()>)
        requires
            old(state).wf(),
            old(state).can_allocate(2),
            old(state)@.global_id is Some,
        ensures
            final(state).wf(),
            ({
                let bytes = match values {
                    Some(v) => v@,
                    None => Seq::new(len as nat, |i: int| 0u8),
                };
                let b = old(state)@.next_handle;
                r == Ok::<u64, ()>((b + 1) as u64) && final(state)@ == after_new_view(
                    after_new_buffer(old(state)@, b, bytes),
                    (b + 1) as u64,
                    crate::v8_glue::ArrayView {
                        buffer: b,
                        byte_offset: 0,
                        byte_length: bytes.len() as usize,
                        element_type: Type::Uint8,
                    },
                )
            }),
    {
        let obj = match values {
            Some(v) => crate::v8_glue::new_typed_array_from_bytes(state, v, Type::Uint8),
            None => {
                let mut zeros: Vec<u8> = Vec::new();
                while zeros.len() < len
                    invariant
                        zeros.len() <= len,
                        zeros@ == Seq::new(zeros.len() as nat, |i: int| 0u8),
                    decreases len - zeros.len(),
                {
                    zeros.push(0);
                    assert(zeros@ =~= Seq::new(zeros.len() as nat, |i: int| 0u8));
                }
                crate::v8_glue::new_typed_array_from_bytes(state, zeros.as_slice(), Type::Uint8)
            },
        };
        if obj == 0 {
            Err(())
        } else {
            Ok(obj)
        }
    }

    pub fn object(&self) -> (o: u64)
        ensures
            o == self.object_spec(),
    {
        self.object
    }

    pub fn len(&self) -> (n: usize)
        ensures
            n == self.data().len(),
    {
        self.data.len()
    }

    pub fn as_slice(&self) -> (s: &[u8])
        ensures
            s@ == self.data(),
    {
        self.data.as_slice()
    }

    /// Replaces the copied bytes with `value`.
    pub fn update(&mut self, value: &[u8])
        ensures
            final(self).data() == value@,
            final(self).object_spec() == old(self).object_spec(),
    {
        self.data = vstd::slice::slice_to_vec(value);
    }

    pub fn to_vec(&self) -> (v: Vec<u8>)
        ensures
            v@ == self.data(),
    {
        vstd::slice::slice_to_vec(self.data.as_slice())
    }

    pub fn get_array_type(&self) -> (t: Type)
        ensures
            t == Type::Uint8,
    {
        Type::Uint8
    }
}

} // verus!
