//! The engine-side state behind the JSAPI glue.
//!
//! Engine objects, strings and functions are opaque handles (non-zero
//! integers handed out by a counter; 0 is null).  `GlueState` keeps every
//! side table the glue maintains for them: classes, prototypes, realms,
//! window proxies, named properties, reserved slots, arrays, array buffers
//! and their views, promise states, script and module data, and the pending
//! exception.  The free functions of this module are the glue operations;
//! each takes the state it reads or changes explicitly.
use crate::descriptor::{PropertyDescriptor, JSPROP_ENUMERATE};
use crate::jsval::{
    int32_value, int_jsid, jsid, low_i32, low_u32, object_value, string_jsid, string_value,
    uint32_value, JSType,
    undefined_value, JSVal, JSVAL_INT32_TAG, JSVAL_TAG_MASK, JSVAL_TRUE_BITS,
};
use crate::text::{
    all_latin1, decimal_text, i64_to_decimal, is_latin1, utf16_encode, utf16_units,
};
use vstd::slice::{slice_subrange, slice_to_vec};
use vstd::utf8::{decode_utf8, encode_utf8, valid_utf8};
use crate::props::PropertyMap;
use crate::types::{
    element_size, proxy_class, ClassRef, ModuleType, PromiseState, Type, JSCLASS_IS_GLOBAL,
    PROXY_CLASS_FLAGS,
};
use std::collections::HashMap;
use std::collections::HashSet;
use vstd::prelude::*;

verus! {

broadcast use vstd::std_specs::hash::group_hash_axioms;

/// The largest handle the glue hands out: every handle fits in the payload
/// of a value and of a property id.
pub const MAX_HANDLE: u64 = 0x00ff_ffff_ffff_ffff;

/// How many prototype links realm lookup follows before giving up.
pub const REALM_SEARCH_DEPTH: u64 = 16;

/// A typed array or data view over an array buffer.
#[derive(Clone, Copy, PartialEq, Eq, Structural, Debug)]
pub struct ArrayView {
    pub buffer: u64,
    pub byte_offset: usize,
    pub byte_length: usize,
    pub element_type: Type,
}

/// The glue state as mathematical maps.
pub struct GlueModel {
    pub next_handle: u64,
    pub global_id: Option<u64>,
    pub current_global_handle: Option<u64>,
    pub current_global_ptr: u64,
    pub objects: Set<u64>,
    pub object_realms: Map<u64, u64>,
    pub object_classes: Map<u64, ClassRef>,
    pub prototypes: Map<u64, u64>,
    pub window_to_proxy: Map<u64, u64>,
    pub proxy_to_window: Map<u64, u64>,
    pub realm_object_prototype: Option<u64>,
    pub realm_function_prototype: Option<u64>,
    pub realm_error_prototype: Option<u64>,
    pub realm_iterator_prototype: Option<u64>,
    pub string_text: Map<u64, Seq<char>>,
    pub function_objects: Map<u64, u64>,
    pub function_natives: Map<u64, u64>,
    pub function_contexts: Map<u64, u64>,
    pub reserved_slots: Map<u64, Seq<JSVal>>,
    pub private_data: Map<u64, u64>,
    pub proxy_handler_extras: Map<u64, u64>,
    pub last_proxy_handler_extra: Option<u64>,
    pub proxy_object_extra: Map<u64, u64>,
    pub properties: Map<(u64, Seq<char>), JSVal>,
    pub property_names: spec_fn(u64) -> Seq<Seq<char>>,
    pub arrays: Map<u64, Seq<JSVal>>,
    pub array_buffers: Map<u64, Seq<u8>>,
    pub array_views: Map<u64, ArrayView>,
    pub detached_buffers: Set<u64>,
    pub promise_states: Map<u64, PromiseState>,
    pub pending_exception: Option<JSVal>,
    pub source_texts: Map<u64, Seq<char>>,
    pub script_sources: Map<u64, Seq<char>>,
    pub script_privates: Map<u64, JSVal>,
    pub module_privates: Map<u64, JSVal>,
}

/// The engine glue's state: all of its side tables.
pub struct GlueState {
    next_handle: u64,
    global_id: Option<u64>,
    current_global_handle: Option<u64>,
    current_global_ptr: u64,
    objects: HashSet<u64>,
    object_realms: HashMap<u64, u64>,
    object_classes: HashMap<u64, ClassRef>,
    prototypes: HashMap<u64, u64>,
    window_to_proxy: HashMap<u64, u64>,
    proxy_to_window: HashMap<u64, u64>,
    realm_object_prototype: Option<u64>,
    realm_function_prototype: Option<u64>,
    realm_error_prototype: Option<u64>,
    realm_iterator_prototype: Option<u64>,
    string_text: HashMap<u64, String>,
    function_objects: HashMap<u64, u64>,
    function_natives: HashMap<u64, u64>,
    function_contexts: HashMap<u64, u64>,
    reserved_slots: HashMap<u64, Vec<JSVal>>,
    private_data: HashMap<u64, u64>,
    proxy_handler_extras: HashMap<u64, u64>,
    last_proxy_handler_extra: Option<u64>,
    proxy_object_extra: HashMap<u64, u64>,
    properties: PropertyMap,
    arrays: HashMap<u64, Vec<JSVal>>,
    array_buffers: HashMap<u64, Vec<u8>>,
    array_views: HashMap<u64, ArrayView>,
    detached_buffers: HashSet<u64>,
    promise_states: HashMap<u64, PromiseState>,
    pending_exception: Option<JSVal>,
    source_texts: HashMap<u64, String>,
    script_sources: HashMap<u64, String>,
    script_privates: HashMap<u64, JSVal>,
    module_privates: HashMap<u64, JSVal>,
}

/// The text a string table holds, as character sequences.
pub open spec fn text_view(m: Map<u64, String>) -> Map<u64, Seq<char>> {
    Map::new(|k: u64| m.contains_key(k), |k: u64| m[k]@)
}

/// The contents of a table of vectors, as sequences.
pub open spec fn vec_view<T>(m: Map<u64, Vec<T>>) -> Map<u64, Seq<T>> {
    Map::new(|k: u64| m.contains_key(k), |k: u64| m[k]@)
}

impl View for GlueState {
    type V = GlueModel;

    closed spec fn view(&self) -> GlueModel {
        GlueModel {
            next_handle: self.next_handle,
            global_id: self.global_id,
            current_global_handle: self.current_global_handle,
            current_global_ptr: self.current_global_ptr,
            objects: self.objects@,
            object_realms: self.object_realms@,
            object_classes: self.object_classes@,
            prototypes: self.prototypes@,
            window_to_proxy: self.window_to_proxy@,
            proxy_to_window: self.proxy_to_window@,
            realm_object_prototype: self.realm_object_prototype,
            realm_function_prototype: self.realm_function_prototype,
            realm_error_prototype: self.realm_error_prototype,
            realm_iterator_prototype: self.realm_iterator_prototype,
            string_text: text_view(self.string_text@),
            function_objects: self.function_objects@,
            function_natives: self.function_natives@,
            function_contexts: self.function_contexts@,
            reserved_slots: vec_view(self.reserved_slots@),
            private_data: self.private_data@,
            proxy_handler_extras: self.proxy_handler_extras@,
            last_proxy_handler_extra: self.last_proxy_handler_extra,
            proxy_object_extra: self.proxy_object_extra@,
            properties: self.properties@,
            property_names: |o: u64| self.properties.names_of(o),
            arrays: vec_view(self.arrays@),
            array_buffers: vec_view(self.array_buffers@),
            array_views: self.array_views@,
            detached_buffers: self.detached_buffers@,
            promise_states: self.promise_states@,
            pending_exception: self.pending_exception,
            source_texts: text_view(self.source_texts@),
            script_sources: text_view(self.script_sources@),
            script_privates: self.script_privates@,
            module_privates: self.module_privates@,
        }
    }
}

impl GlueState {
    /// The internal consistency the glue keeps.
    pub closed spec fn wf(&self) -> bool {
        &&& self.properties.wf()
        &&& 1 <= self.next_handle
        &&& forall|h: u64| #[trigger] self.array_buffers@.contains_key(h) ==> h < self.next_handle
        &&& forall|h: u64| #[trigger] self.object_classes@.contains_key(h) ==> h < self.next_handle
        &&& self.current_global_ptr == match self.current_global_handle {
            Some(g) => g,
            None => 0,
        }
        &&& forall|h: u64|
            #[trigger] self.detached_buffers@.contains(h) ==> self.array_buffers@.contains_key(h)
    }

    /// In a well-formed state every buffer (detached ones included) has a
    /// handle below `next_handle`, so a new handle names no existing buffer.
    pub proof fn lemma_buffers_below_next_handle(&self)
        requires
            self.wf(),
        ensures
            forall|h: u64| #[trigger] self@.array_buffers.contains_key(h) ==> h < self@.next_handle,
            forall|h: u64| #[trigger] self@.detached_buffers.contains(h) ==> self@.array_buffers.contains_key(h),
    {
        assert forall|h: u64| #[trigger] self@.array_buffers.contains_key(h) implies h < self@.next_handle by {
            assert(self.array_buffers@.contains_key(h));
        }
    }

    /// A well-formed state never hands out the null handle.
    pub proof fn lemma_next_handle_is_not_null(&self)
        requires
            self.wf(),
        ensures
            self@.next_handle >= 1,
    {
    }

    /// Whether `n` more handles can be handed out.
    pub open spec fn can_allocate(&self, n: nat) -> bool {
        self@.next_handle + n <= MAX_HANDLE
    }

    /// Whether `n` more handles can be handed out.
    pub fn has_room_for(&self, n: u64) -> (b: bool)
        ensures
            b == self.can_allocate(n as nat),
    {
        n <= MAX_HANDLE && self.next_handle <= MAX_HANDLE - n
    }

    /// Whether a global has been created.
    pub fn has_global(&self) -> (b: bool)
        ensures
            b == self@.global_id is Some,
    {
        self.global_id.is_some()
    }

    /// A fresh state: nothing allocated, no realm entered.
    pub fn new() -> (s: GlueState)
        ensures
            s.wf(),
            s@.next_handle == 1,
            s@.global_id is None,
            s@.current_global_handle is None,
            s@.current_global_ptr == 0,
            s@.objects == Set::<u64>::empty(),
            s@.object_realms == Map::<u64, u64>::empty(),
            s@.object_classes == Map::<u64, ClassRef>::empty(),
            s@.prototypes == Map::<u64, u64>::empty(),
            s@.window_to_proxy == Map::<u64, u64>::empty(),
            s@.proxy_to_window == Map::<u64, u64>::empty(),
            s@.realm_object_prototype is None,
            s@.realm_function_prototype is None,
            s@.realm_error_prototype is None,
            s@.realm_iterator_prototype is None,
            s@.string_text == Map::<u64, Seq<char>>::empty(),
            s@.function_objects == Map::<u64, u64>::empty(),
            s@.function_natives == Map::<u64, u64>::empty(),
            s@.function_contexts == Map::<u64, u64>::empty(),
            s@.reserved_slots == Map::<u64, Seq<JSVal>>::empty(),
            s@.private_data == Map::<u64, u64>::empty(),
            s@.proxy_handler_extras == Map::<u64, u64>::empty(),
            s@.last_proxy_handler_extra is None,
            s@.proxy_object_extra == Map::<u64, u64>::empty(),
            s@.properties == Map::<(u64, Seq<char>), JSVal>::empty(),
            forall|o: u64| #[trigger] (s@.property_names)(o) == Seq::<Seq<char>>::empty(),
            s@.arrays == Map::<u64, Seq<JSVal>>::empty(),
            s@.array_buffers == Map::<u64, Seq<u8>>::empty(),
            s@.array_views == Map::<u64, ArrayView>::empty(),
            s@.detached_buffers == Set::<u64>::empty(),
            s@.promise_states == Map::<u64, PromiseState>::empty(),
            s@.pending_exception is None,
            s@.source_texts == Map::<u64, Seq<char>>::empty(),
            s@.script_sources == Map::<u64, Seq<char>>::empty(),
            s@.script_privates == Map::<u64, JSVal>::empty(),
            s@.module_privates == Map::<u64, JSVal>::empty(),
    {
        let s = GlueState {
            next_handle: 1,
            global_id: None,
            current_global_handle: None,
            current_global_ptr: 0,
            objects: HashSet::new(),
            object_realms: HashMap::new(),
            object_classes: HashMap::new(),
            prototypes: HashMap::new(),
            window_to_proxy: HashMap::new(),
            proxy_to_window: HashMap::new(),
            realm_object_prototype: None,
            realm_function_prototype: None,
            realm_error_prototype: None,
            realm_iterator_prototype: None,
            string_text: HashMap::new(),
            function_objects: HashMap::new(),
            function_natives: HashMap::new(),
            function_contexts: HashMap::new(),
            reserved_slots: HashMap::new(),
            private_data: HashMap::new(),
            proxy_handler_extras: HashMap::new(),
            last_proxy_handler_extra: None,
            proxy_object_extra: HashMap::new(),
            properties: PropertyMap::new(),
            arrays: HashMap::new(),
            array_buffers: HashMap::new(),
            array_views: HashMap::new(),
            detached_buffers: HashSet::new(),
            promise_states: HashMap::new(),
            pending_exception: None,
            source_texts: HashMap::new(),
            script_sources: HashMap::new(),
            script_privates: HashMap::new(),
            module_privates: HashMap::new(),
        };
        assert(text_view(s.string_text@) =~= Map::<u64, Seq<char>>::empty());
        assert(text_view(s.source_texts@) =~= Map::<u64, Seq<char>>::empty());
        assert(text_view(s.script_sources@) =~= Map::<u64, Seq<char>>::empty());
        assert(vec_view(s.reserved_slots@) =~= Map::<u64, Seq<JSVal>>::empty());
        assert(vec_view(s.arrays@) =~= Map::<u64, Seq<JSVal>>::empty());
        assert(vec_view(s.array_buffers@) =~= Map::<u64, Seq<u8>>::empty());
        s
    }

    /// Hands out the next handle.
    fn next_handle(&mut self) -> (h: u64)
        requires
            old(self).wf(),
            old(self).can_allocate(1),
        ensures
            final(self).wf(),
            h == old(self)@.next_handle,
            h != 0,
            final(self)@ == (GlueModel { next_handle: (h + 1) as u64, ..old(self)@ }),
    {
        let h = self.next_handle;
        self.next_handle = h + 1;
        h
    }
}

// ---------------------------------------------------------------------------
// Realm resolution (specification)
// ---------------------------------------------------------------------------

/// The window a window proxy stands for; any other object stands for itself.
pub open spec fn window_of(m: GlueModel, obj: u64) -> u64 {
    if obj == 0 {
        0
    } else if m.proxy_to_window.contains_key(obj) {
        m.proxy_to_window[obj]
    } else {
        obj
    }
}

/// The class recorded for `obj`, or the proxy class.
pub open spec fn class_of(m: GlueModel, obj: u64) -> ClassRef {
    if m.object_classes.contains_key(obj) {
        m.object_classes[obj]
    } else {
        proxy_class()
    }
}

/// Whether `obj`'s class is a non-null global class.
pub open spec fn is_dom_global_spec(m: GlueModel, obj: u64) -> bool {
    class_of(m, obj).addr != 0 && class_of(m, obj).flags & JSCLASS_IS_GLOBAL != 0
}

/// The prototype recorded for `obj`, or 0.
pub open spec fn prototype_of(m: GlueModel, obj: u64) -> u64 {
    if obj != 0 && m.prototypes.contains_key(obj) {
        m.prototypes[obj]
    } else {
        0
    }
}

/// The realm recorded for `obj` or for the nearest object on its prototype
/// chain, looking at most `depth` objects deep.
pub open spec fn realm_within(m: GlueModel, obj: u64, depth: nat) -> Option<u64>
    decreases depth,
{
    if depth == 0 {
        None
    } else if m.object_realms.contains_key(obj) {
        Some(m.object_realms[obj])
    } else {
        let proto = prototype_of(m, obj);
        if proto == 0 || proto == obj {
            None
        } else {
            realm_within(m, proto, (depth - 1) as nat)
        }
    }
}

/// The realm of `obj` as the glue looks it up.
pub open spec fn object_realm_spec(m: GlueModel, obj: u64) -> Option<u64> {
    realm_within(m, obj, REALM_SEARCH_DEPTH as nat)
}

/// The global `obj` belongs to when that can be decided from the object
/// itself (a global, or a window proxy of one) or from its recorded realm;
/// otherwise 0.
pub open spec fn resolve_object_global_spec(m: GlueModel, obj: u64) -> u64 {
    let o = window_of(m, obj);
    if o == 0 || is_dom_global_spec(m, o) {
        o
    } else {
        match object_realm_spec(m, o) {
            Some(g) => if is_dom_global_spec(m, window_of(m, g)) {
                window_of(m, g)
            } else {
                0
            },
            None => 0,
        }
    }
}

/// The global the glue reports for `obj`.
pub open spec fn non_ccw_global_spec(m: GlueModel, obj: u64) -> u64 {
    let fallback = if m.current_global_ptr != 0 && is_dom_global_spec(m, m.current_global_ptr) {
        m.current_global_ptr
    } else {
        obj
    };
    if obj == 0 {
        0
    } else if m.proxy_to_window.contains_key(obj) {
        m.proxy_to_window[obj]
    } else if resolve_object_global_spec(m, obj) != 0 {
        resolve_object_global_spec(m, obj)
    } else {
        match object_realm_spec(m, obj) {
            Some(r) => if resolve_object_global_spec(m, r) != 0 {
                resolve_object_global_spec(m, r)
            } else {
                fallback
            },
            None => fallback,
        }
    }
}

/// The realm a newly stored object is recorded in: the global that the
/// current global handle resolves to, if any.
pub open spec fn creation_realm(m: GlueModel) -> Option<u64> {
    match m.current_global_handle {
        Some(g) => if resolve_object_global_spec(m, g) != 0 {
            Some(resolve_object_global_spec(m, g))
        } else {
            None
        },
        None => None,
    }
}

/// The model after storing a new object with handle `h`.
pub open spec fn after_store_object(m: GlueModel, h: u64) -> GlueModel {
    GlueModel {
        next_handle: (h + 1) as u64,
        objects: m.objects.insert(h),
        object_realms: match creation_realm(m) {
            Some(g) => m.object_realms.insert(h, g),
            None => m.object_realms,
        },
        ..m
    }
}

// ---------------------------------------------------------------------------
// Realm resolution (implementation)
// ---------------------------------------------------------------------------

fn window_of_exec(state: &GlueState, obj: u64) -> (w: u64)
    ensures
        w == window_of(state@, obj),
{
    if obj == 0 {
        return 0;
    }
    match state.proxy_to_window.get(&obj) {
        Some(w) => *w,
        None => obj,
    }
}

fn is_dom_global(state: &GlueState, obj: u64) -> (b: bool)
    ensures
        b == is_dom_global_spec(state@, obj),
{
    let clasp = get_object_class(state, obj);
    if clasp.addr == 0 {
        return false;
    }
    clasp.flags & JSCLASS_IS_GLOBAL != 0
}

fn object_realm(state: &GlueState, obj: u64) -> (r: Option<u64>)
    ensures
        r == object_realm_spec(state@, obj),
{
    let mut cur = obj;
    let mut steps: u64 = 0;
    while steps < REALM_SEARCH_DEPTH
        invariant
            steps <= REALM_SEARCH_DEPTH,
            realm_within(state@, obj, REALM_SEARCH_DEPTH as nat) == realm_within(
                state@,
                cur,
                (REALM_SEARCH_DEPTH - steps) as nat,
            ),
        decreases REALM_SEARCH_DEPTH - steps,
    {
        match state.object_realms.get(&cur) {
            Some(g) => {
                return Some(*g);
            },
            None => {},
        }
        let proto = get_prototype(state, cur);
        if proto == 0 || proto == cur {
            return None;
        }
        cur = proto;
        steps = steps + 1;
    }
    None
}

fn resolve_object_global(state: &GlueState, obj: u64) -> (g: u64)
    ensures
        g == resolve_object_global_spec(state@, obj),
{
    let o = window_of_exec(state, obj);
    if o == 0 || is_dom_global(state, o) {
        return o;
    }
    match object_realm(state, o) {
        Some(g) => {
            let w = window_of_exec(state, g);
            if is_dom_global(state, w) {
                w
            } else {
                0
            }
        },
        None => 0,
    }
}

/// Records a new object in the current realm and returns its handle.
fn store_object(state: &mut GlueState) -> (h: u64)
    requires
        old(state).wf(),
        old(state).can_allocate(1),
    ensures
        final(state).wf(),
        h == old(state)@.next_handle,
        h != 0,
        final(state)@ == after_store_object(old(state)@, h),
{
    let realm = match state.current_global_handle {
        Some(g) => {
            let resolved = resolve_object_global(state, g);
            if resolved != 0 {
                Some(resolved)
            } else {
                None
            }
        },
        None => None,
    };
    let h = state.next_handle();
    state.objects.insert(h);
    match realm {
        Some(g) => {
            state.object_realms.insert(h, g);
        },
        None => {},
    }
    h
}

// ---------------------------------------------------------------------------
// Global object and realms
// ---------------------------------------------------------------------------

/// The model after creating a DOM global of class `clasp`: a context id,
/// then the global object (its own realm, and the current one), then its
/// object, function, error and iterator prototypes, created in its realm.
pub open spec fn after_create_dom_global(m: GlueModel, clasp: ClassRef) -> GlueModel {
    let ctx = m.next_handle;
    let g = (ctx + 1) as u64;
    let m1 = GlueModel { next_handle: g, global_id: Some(ctx), ..m };
    let m2 = after_store_object(m1, g);
    let m3 = GlueModel {
        current_global_handle: Some(g),
        current_global_ptr: g,
        object_realms: m2.object_realms.insert(g, g),
        ..m2
    };
    let m4 = after_store_object(m3, (g + 1) as u64);
    let m5 = after_store_object(m4, (g + 2) as u64);
    let m6 = after_store_object(m5, (g + 3) as u64);
    let m7 = after_store_object(m6, (g + 4) as u64);
    GlueModel {
        realm_object_prototype: Some((g + 1) as u64),
        realm_function_prototype: Some((g + 2) as u64),
        realm_error_prototype: Some((g + 3) as u64),
        realm_iterator_prototype: Some((g + 4) as u64),
        object_classes: m7.object_classes.insert(g, clasp),
        ..m7
    }
}

/// Creates the DOM global of a new context: a global object in its own
/// realm with class `clasp`, made current, and the realm's object,
/// function, error and iterator prototypes.
pub fn create_dom_global(state: &mut GlueState, clasp: ClassRef) -> (global: u64)
    requires
        old(state).wf(),
        old(state).can_allocate(6),
    ensures
        final(state).wf(),
        final(state)@ == after_create_dom_global(old(state)@, clasp),
        global == old(state)@.next_handle + 1,
        final(state)@.global_id == Some(old(state)@.next_handle),
        final(state)@.next_handle == old(state)@.next_handle + 6,
        final(state)@.current_global_handle == Some(global),
        final(state)@.current_global_ptr == global,
        final(state)@.object_classes == old(state)@.object_classes.insert(global, clasp),
        final(state)@.objects == old(state)@.objects.insert(global).insert(
            (global + 1) as u64,
        ).insert((global + 2) as u64).insert((global + 3) as u64).insert((global + 4) as u64),
        final(state)@.object_realms[global] == global,
        final(state)@.realm_object_prototype == Some((global + 1) as u64),
        final(state)@.realm_function_prototype == Some((global + 2) as u64),
        final(state)@.realm_error_prototype == Some((global + 3) as u64),
        final(state)@.realm_iterator_prototype == Some((global + 4) as u64),
        final(state)@.prototypes == old(state)@.prototypes,
        final(state)@.proxy_to_window == old(state)@.proxy_to_window,
        final(state)@.window_to_proxy == old(state)@.window_to_proxy,
{
    let ctx_id = state.next_handle();
    state.global_id = Some(ctx_id);
    let global = store_object(state);
    state.current_global_handle = Some(global);
    state.current_global_ptr = global;
    state.object_realms.insert(global, global);
    let object_proto = store_object(state);
    let function_proto = store_object(state);
    let error_proto = store_object(state);
    let iterator_proto = store_object(state);
    state.realm_object_prototype = Some(object_proto);
    state.realm_function_prototype = Some(function_proto);
    state.realm_error_prototype = Some(error_proto);
    state.realm_iterator_prototype = Some(iterator_proto);
    state.object_classes.insert(global, clasp);
    global
}

/// Creates a plain object in the current realm.
pub fn js_new_object(state: &mut GlueState) -> (obj: u64)
    requires
        old(state).wf(),
        old(state).can_allocate(1),
        old(state)@.global_id is Some,
    ensures
        final(state).wf(),
        obj == old(state)@.next_handle,
        obj != 0,
        final(state)@ == after_store_object(old(state)@, obj),
{
    store_object(state)
}

/// Creates an object of class `class` (recorded unless null).
pub fn js_new_object_with_class(state: &mut GlueState, class: ClassRef) -> (obj: u64)
    requires
        old(state).wf(),
        old(state).can_allocate(1),
        old(state)@.global_id is Some,
    ensures
        final(state).wf(),
        obj == old(state)@.next_handle,
        obj != 0,
        final(state)@ == (GlueModel {
            object_classes: if class.addr != 0 {
                old(state)@.object_classes.insert(obj, class)
            } else {
                old(state)@.object_classes
            },
            ..after_store_object(old(state)@, obj)
        }),
{
    let obj = js_new_object(state);
    if !class.is_null() {
        state.object_classes.insert(obj, class);
    }
    obj
}

/// The model after `set_prototype(obj, proto)` on a non-null `obj`.
pub open spec fn after_set_prototype(m: GlueModel, obj: u64, proto: u64) -> GlueModel {
    if proto == 0 {
        GlueModel { prototypes: m.prototypes.remove(obj), ..m }
    } else {
        GlueModel {
            prototypes: m.prototypes.insert(obj, proto),
            object_realms: if m.object_realms.contains_key(proto) && !m.object_realms.contains_key(
                obj,
            ) {
                m.object_realms.insert(obj, m.object_realms[proto])
            } else {
                m.object_realms
            },
            ..m
        }
    }
}

/// Creates an object of class `class` whose prototype is `proto`.
pub fn js_new_object_with_proto(state: &mut GlueState, class: ClassRef, proto: u64) -> (obj: u64)
    requires
        old(state).wf(),
        old(state).can_allocate(1),
        old(state)@.global_id is Some,
    ensures
        final(state).wf(),
        obj == old(state)@.next_handle,
        obj != 0,
        final(state)@ == after_set_prototype(
            GlueModel {
                object_classes: if class.addr != 0 {
                    old(state)@.object_classes.insert(obj, class)
                } else {
                    old(state)@.object_classes
                },
                ..after_store_object(old(state)@, obj)
            },
            obj,
            proto,
        ),
{
    let obj = js_new_object_with_class(state, class);
    set_prototype(state, obj, proto)
}

/// Sets (or, for a null `proto`, clears) the prototype of `obj`.  An object
/// without a realm of its own takes the realm of its new prototype.
/// Returns `obj`, or null when `obj` is null.
pub fn set_prototype(state: &mut GlueState, obj: u64, proto: u64) -> (r: u64)
    requires
        old(state).wf(),
    ensures
        final(state).wf(),
        r == obj,
        obj == 0 ==> final(state)@ == old(state)@,
        obj != 0 ==> final(state)@ == after_set_prototype(old(state)@, obj, proto),
{
    if obj == 0 {
        return 0;
    }
    if proto == 0 {
        state.prototypes.remove(&obj);
    } else {
        state.prototypes.insert(obj, proto);
        let proto_realm = match state.object_realms.get(&proto) {
            Some(g) => Some(*g),
            None => None,
        };
        match proto_realm {
            Some(g) => {
                if !state.object_realms.contains_key(&obj) {
                    state.object_realms.insert(obj, g);
                }
            },
            None => {},
        }
    }
    obj
}

/// The prototype of `obj`, or null.
pub fn get_prototype(state: &GlueState, obj: u64) -> (p: u64)
    ensures
        p == prototype_of(state@, obj),
{
    if obj == 0 {
        return 0;
    }
    match state.prototypes.get(&obj) {
        Some(p) => *p,
        None => 0,
    }
}

/// The class recorded for `obj`, or the proxy class.
pub fn get_object_class(state: &GlueState, obj: u64) -> (c: ClassRef)
    ensures
        c == class_of(state@, obj),
{
    match state.object_classes.get(&obj) {
        Some(c) => *c,
        None => ClassRef::proxy(),
    }
}

pub fn get_realm_object_prototype(state: &GlueState) -> (p: u64)
    ensures
        p == match state@.realm_object_prototype {
            Some(p) => p,
            None => 0,
        },
{
    match state.realm_object_prototype {
        Some(p) => p,
        None => 0,
    }
}

pub fn get_realm_function_prototype(state: &GlueState) -> (p: u64)
    ensures
        p == match state@.realm_function_prototype {
            Some(p) => p,
            None => 0,
        },
{
    match state.realm_function_prototype {
        Some(p) => p,
        None => 0,
    }
}

pub fn get_realm_error_prototype(state: &GlueState) -> (p: u64)
    ensures
        p == match state@.realm_error_prototype {
            Some(p) => p,
            None => 0,
        },
{
    match state.realm_error_prototype {
        Some(p) => p,
        None => 0,
    }
}

pub fn get_realm_iterator_prototype(state: &GlueState) -> (p: u64)
    ensures
        p == match state@.realm_iterator_prototype {
            Some(p) => p,
            None => 0,
        },
{
    match state.realm_iterator_prototype {
        Some(p) => p,
        None => 0,
    }
}

/// The global object of the current realm, or null.
pub fn current_global_object(state: &GlueState) -> (g: u64)
    ensures
        g == state@.current_global_ptr,
{
    state.current_global_ptr
}

/// Enters the realm of `global` (a window proxy enters its window's realm)
/// and returns the previous current global, to be handed to `leave_realm`.
/// A null `global` leaves the current realm as it is.
pub fn enter_realm(state: &mut GlueState, global: u64) -> (previous: Option<u64>)
    requires
        old(state).wf(),
    ensures
        final(state).wf(),
        previous == old(state)@.current_global_handle,
        window_of(old(state)@, global) == 0 ==> final(state)@ == old(state)@,
        window_of(old(state)@, global) != 0 ==> final(state)@ == (GlueModel {
            current_global_handle: Some(window_of(old(state)@, global)),
            current_global_ptr: window_of(old(state)@, global),
            ..old(state)@
        }),
{
    let previous = state.current_global_handle;
    let g = window_of_exec(state, global);
    if g != 0 {
        state.current_global_handle = Some(g);
        state.current_global_ptr = g;
    }
    previous
}

/// Restores the current global that `enter_realm` returned.
pub fn leave_realm(state: &mut GlueState, previous: Option<u64>)
    requires
        old(state).wf(),
    ensures
        final(state).wf(),
        final(state)@ == (GlueModel {
            current_global_handle: previous,
            current_global_ptr: match previous {
                Some(g) => g,
                None => 0,
            },
            ..old(state)@
        }),
{
    state.current_global_handle = previous;
    state.current_global_ptr = match previous {
        Some(g) => g,
        None => 0,
    };
}

/// Records `proxy` as the window proxy of `window`.  Fails on null.
pub fn set_window_proxy(state: &mut GlueState, window: u64, proxy: u64) -> (ok: bool)
    requires
        old(state).wf(),
    ensures
        final(state).wf(),
        ok == (window != 0 && proxy != 0),
        !ok ==> final(state)@ == old(state)@,
        ok ==> final(state)@ == (GlueModel {
            window_to_proxy: old(state)@.window_to_proxy.insert(window, proxy),
            proxy_to_window: old(state)@.proxy_to_window.insert(proxy, window),
            ..old(state)@
        }),
{
    if window == 0 || proxy == 0 {
        return false;
    }
    state.window_to_proxy.insert(window, proxy);
    state.proxy_to_window.insert(proxy, window);
    true
}

/// Whether `obj` is a recorded window proxy.
pub fn is_window_proxy(state: &GlueState, obj: u64) -> (b: bool)
    ensures
        b == (obj != 0 && state@.proxy_to_window.contains_key(obj)),
{
    obj != 0 && state.proxy_to_window.contains_key(&obj)
}

/// The global `obj` belongs to: a window proxy's window; otherwise the
/// global the object resolves to, then the global its realm resolves to,
/// then the current global if it is a DOM global, and finally `obj` itself.
pub fn get_non_ccw_object_global(state: &GlueState, obj: u64) -> (g: u64)
    ensures
        g == non_ccw_global_spec(state@, obj),
{
    if obj == 0 {
        return 0;
    }
    match state.proxy_to_window.get(&obj) {
        Some(w) => {
            return *w;
        },
        None => {},
    }
    let global = resolve_object_global(state, obj);
    if global != 0 {
        return global;
    }
    match object_realm(state, obj) {
        Some(r) => {
            let g = resolve_object_global(state, r);
            if g != 0 {
                return g;
            }
        },
        None => {},
    }
    let current = state.current_global_ptr;
    if current != 0 && is_dom_global(state, current) {
        return current;
    }
    obj
}

// ---------------------------------------------------------------------------
// Strings
// ---------------------------------------------------------------------------

/// The text of string `s`, when `s` is a recorded string.
pub open spec fn text_of(m: GlueModel, s: u64) -> Option<Seq<char>> {
    if s != 0 && m.string_text.contains_key(s) {
        Some(m.string_text[s])
    } else {
        None
    }
}

/// The model after recording a new string `h` with text `t`.
pub open spec fn after_store_string(m: GlueModel, h: u64, t: Seq<char>) -> GlueModel {
    GlueModel { next_handle: (h + 1) as u64, string_text: m.string_text.insert(h, t), ..m }
}

/// Records a new engine string holding `text` and returns its handle.
fn store_string(state: &mut GlueState, text: String) -> (h: u64)
    requires
        old(state).wf(),
        old(state).can_allocate(1),
    ensures
        final(state).wf(),
        h == old(state)@.next_handle,
        h != 0,
        final(state)@ == after_store_string(old(state)@, h, text@),
{
    let ghost t = text@;
    let h = state.next_handle();
    state.string_text.insert(h, text);
    proof {
        assert(text_view(state.string_text@) =~= old(state)@.string_text.insert(h, t));
    }
    h
}

/// Makes an engine string holding `text`.
pub(crate) fn new_string(state: &mut GlueState, text: String) -> (h: u64)
    requires
        old(state).wf(),
        old(state).can_allocate(1),
        old(state)@.global_id is Some,
    ensures
        final(state).wf(),
        h == old(state)@.next_handle,
        h != 0,
        final(state)@ == after_store_string(old(state)@, h, text@),
{
    store_string(state, text)
}

/// The text of string `s`, or `None` for null or an unknown handle.
pub fn string_text(state: &GlueState, s: u64) -> (r: Option<String>)
    ensures
        match r {
            Some(t) => text_of(state@, s) == Some(t@),
            None => text_of(state@, s) is None,
        },
{
    if s == 0 {
        return None;
    }
    match state.string_text.get(&s) {
        Some(t) => Some(t.clone()),
        None => None,
    }
}

/// The length of string `s` in UTF-16 code units (0 for null or unknown).
pub fn string_len(state: &GlueState, s: u64) -> (n: usize)
    ensures
        n == match text_of(state@, s) {
            Some(t) => utf16_units(t).len(),
            None => 0,
        },
{
    match string_text(state, s) {
        Some(t) => utf16_encode(&t).len(),
        None => 0,
    }
}

/// The UTF-16 code unit at `index` of string `s`, or 0 when there is none.
pub fn linear_string_char_at(state: &GlueState, s: u64, index: usize) -> (u: u16)
    ensures
        u == match text_of(state@, s) {
            Some(t) => if index < utf16_units(t).len() {
                utf16_units(t)[index as int]
            } else {
                0
            },
            None => 0,
        },
{
    match string_text(state, s) {
        Some(t) => {
            let units = utf16_encode(&t);
            if index < units.len() {
                units[index]
            } else {
                0
            }
        },
        None => 0,
    }
}

/// Whether every character of string `s` is at most U+00FF (false for null
/// or unknown strings).
pub fn has_latin1_chars(state: &GlueState, s: u64) -> (b: bool)
    ensures
        b == match text_of(state@, s) {
            Some(t) => all_latin1(t),
            None => false,
        },
{
    match string_text(state, s) {
        Some(t) => is_latin1(&t),
        None => false,
    }
}

/// Decodes UTF-8 text (`std::str::from_utf8`): `Ok` exactly when the bytes
/// are well-formed UTF-8, holding the characters they encode.
#[verifier::external_body]
fn decode_utf8_bytes(bytes: &[u8]) -> (r: Option<String>)
    ensures
        match r {
            Some(t) => valid_utf8(bytes@) && t@ == decode_utf8(bytes@),
            None => !valid_utf8(bytes@),
        },
{
    match std::str::from_utf8(bytes) {
        Ok(text) => Some(text.to_owned()),
        Err(_) => None,
    }
}

/// Makes an engine string from UTF-8 bytes.  Null input or bytes that are
/// not UTF-8 give null.
pub fn atomize_string_n(state: &mut GlueState, bytes: Option<&[u8]>) -> (s: u64)
    requires
        old(state).wf(),
        old(state).can_allocate(1),
        old(state)@.global_id is Some,
    ensures
        final(state).wf(),
        match bytes {
            Some(b) if valid_utf8(b@) => s == old(state)@.next_handle && s != 0 && final(state)@
                == after_store_string(old(state)@, s, decode_utf8(b@)),
            _ => s == 0 && final(state)@ == old(state)@,
        },
{
    match bytes {
        None => 0,
        Some(b) => match decode_utf8_bytes(b) {
            Some(text) => store_string(state, text),
            None => 0,
        },
    }
}

// ---------------------------------------------------------------------------
// Named properties
// ---------------------------------------------------------------------------

/// The value of `obj`'s property `name`, if it is defined.
pub open spec fn property_of(m: GlueModel, obj: u64, name: Seq<char>) -> Option<JSVal> {
    if m.properties.contains_key((obj, name)) {
        Some(m.properties[(obj, name)])
    } else {
        None
    }
}

/// The model after defining (or overwriting) `obj`'s property `name` as `v`;
/// a new name is listed after the object's existing names.
pub open spec fn after_set_property(m: GlueModel, obj: u64, name: Seq<char>, v: JSVal) -> GlueModel {
    GlueModel {
        properties: m.properties.insert((obj, name), v),
        property_names: |o: u64|
            if o == obj && !m.properties.contains_key((obj, name)) {
                (m.property_names)(o).push(name)
            } else {
                (m.property_names)(o)
            },
        ..m
    }
}

impl GlueState {
    fn put_property(&mut self, obj: u64, name: String, v: JSVal)
        requires
            old(self).wf(),
        ensures
            final(self).wf(),
            final(self)@ == after_set_property(old(self)@, obj, name@, v),
    {
        let ghost nm = name@;
        self.properties.set(obj, name, v);
        proof {
            let target = after_set_property(old(self)@, obj, nm, v);
            assert(self@.property_names =~= target.property_names);
        }
    }
}

/// Defines `obj`'s property `name` (a null name is `None`).  Fails on a
/// null object or a null name.
pub fn set_property_by_name(state: &mut GlueState, obj: u64, name: Option<&str>, val: JSVal) -> (ok: bool)
    requires
        old(state).wf(),
    ensures
        final(state).wf(),
        ok == (obj != 0 && name is Some),
        ok ==> final(state)@ == after_set_property(old(state)@, obj, name.unwrap()@, val),
        !ok ==> final(state)@ == old(state)@,
{
    if obj == 0 {
        return false;
    }
    match name {
        Some(n) => {
            state.put_property(obj, n.to_owned(), val);
            true
        },
        None => false,
    }
}

/// Defines `obj`'s property `name`.  Fails on a null object.
pub fn set_property(state: &mut GlueState, obj: u64, name: &str, val: JSVal) -> (ok: bool)
    requires
        old(state).wf(),
    ensures
        final(state).wf(),
        ok == (obj != 0),
        ok ==> final(state)@ == after_set_property(old(state)@, obj, name@, val),
        !ok ==> final(state)@ == old(state)@,
{
    set_property_by_name(state, obj, Some(name), val)
}

/// The value of `obj`'s property `name`; `None` for a null object, a null
/// name or an undefined property.
pub fn get_property_by_name(state: &GlueState, obj: u64, name: Option<&str>) -> (r: Option<JSVal>)
    requires
        state.wf(),
    ensures
        r == match name {
            Some(n) => if obj != 0 {
                property_of(state@, obj, n@)
            } else {
                None
            },
            None => None,
        },
{
    if obj == 0 {
        return None;
    }
    match name {
        Some(n) => state.properties.get(obj, &n.to_owned()),
        None => None,
    }
}

/// Whether `obj` has a property `name` (false for a null object).
pub fn has_property_by_name(state: &GlueState, obj: u64, name: &str) -> (b: bool)
    requires
        state.wf(),
    ensures
        b == (obj != 0 && state@.properties.contains_key((obj, name@))),
{
    if obj == 0 {
        return false;
    }
    state.properties.contains(obj, &name.to_owned())
}

// ---------------------------------------------------------------------------
// Arrays
// ---------------------------------------------------------------------------

/// `n` clamped to the range of `u32`.
pub open spec fn clamp_u32(n: int) -> u32 {
    if n <= u32::MAX {
        n as u32
    } else {
        u32::MAX
    }
}

/// The value of the "length" property of an array of `len` elements.
pub open spec fn length_value(len: nat) -> JSVal {
    uint32_value(clamp_u32(len as int))
}

/// The model after creating array `obj` with elements `values`.
pub open spec fn after_new_array(m: GlueModel, obj: u64, values: Seq<JSVal>) -> GlueModel {
    let m1 = after_set_property(
        after_store_object(m, obj),
        obj,
        "length"@,
        length_value(values.len()),
    );
    GlueModel { arrays: m1.arrays.insert(obj, values), ..m1 }
}

/// The elements of an array after storing `v` at index `i`: an index past
/// the end first extends the array with `undefined`.
pub open spec fn elements_after_set(s: Seq<JSVal>, i: nat, v: JSVal) -> Seq<JSVal> {
    if i < s.len() {
        s.update(i as int, v)
    } else {
        (s + Seq::new((i - s.len()) as nat, |k: int| undefined_value())).push(v)
    }
}

/// The model after storing `v` at index `i` of array `obj`.
pub open spec fn after_set_element(m: GlueModel, obj: u64, i: nat, v: JSVal) -> GlueModel {
    let elems = elements_after_set(m.arrays[obj], i, v);
    after_set_property(
        GlueModel { arrays: m.arrays.insert(obj, elems), ..m },
        obj,
        "length"@,
        length_value(elems.len()),
    )
}

fn clamp_len(n: usize) -> (r: u32)
    ensures
        r == clamp_u32(n as int),
{
    if n <= u32::MAX as usize {
        n as u32
    } else {
        u32::MAX
    }
}

/// Creates an array object holding `values`, with a matching "length"
/// property.
pub fn new_array_object(state: &mut GlueState, values: Vec<JSVal>) -> (obj: u64)
    requires
        old(state).wf(),
        old(state).can_allocate(1),
        old(state)@.global_id is Some,
    ensures
        final(state).wf(),
        obj == old(state)@.next_handle,
        obj != 0,
        final(state)@ == after_new_array(old(state)@, obj, values@),
{
    let ghost vs = values@;
    let obj = js_new_object(state);
    let len = clamp_len(values.len());
    state.put_property(obj, "length".to_owned(), JSVal::from_uint32(len));
    let ghost mid = state@;
    state.arrays.insert(obj, values);
    proof {
        assert(vec_view(state.arrays@) =~= mid.arrays.insert(obj, vs));
    }
    obj
}

/// Whether `obj` is an array object.
pub fn is_array_object(state: &GlueState, obj: u64) -> (b: bool)
    ensures
        b == (obj != 0 && state@.arrays.contains_key(obj)),
{
    obj != 0 && state.arrays.contains_key(&obj)
}

/// Whether `val` is an object value that refers to an array.
pub fn is_array_object_from_value(state: &GlueState, val: JSVal) -> (b: bool)
    ensures
        b == (val.object_handle() != 0 && state@.arrays.contains_key(val.object_handle())),
{
    is_array_object(state, val.to_object())
}

/// The number of elements of array `obj` (clamped to `u32`), or 0.
pub fn array_length(state: &GlueState, obj: u64) -> (n: u32)
    ensures
        n == if state@.arrays.contains_key(obj) {
            clamp_u32(state@.arrays[obj].len() as int)
        } else {
            0
        },
{
    match state.arrays.get(&obj) {
        Some(values) => clamp_len(values.len()),
        None => 0,
    }
}

/// The element at `index` of array `obj`, if there is one.
pub fn get_array_element(state: &GlueState, obj: u64, index: u32) -> (r: Option<JSVal>)
    ensures
        r == if state@.arrays.contains_key(obj) && (index as int) < state@.arrays[obj].len() {
            Some(state@.arrays[obj][index as int])
        } else {
            None
        },
{
    match state.arrays.get(&obj) {
        Some(values) => if (index as usize) < values.len() {
            Some(values[index as usize])
        } else {
            None
        },
        None => None,
    }
}

/// Stores `val` at `index` of array `obj`, extending the array with
/// `undefined` when `index` is past its end, and updates "length".  Fails
/// when `obj` is not an array.
pub fn set_array_element(state: &mut GlueState, obj: u64, index: u32, val: JSVal) -> (ok: bool)
    requires
        old(state).wf(),
    ensures
        final(state).wf(),
        ok == (obj != 0 && old(state)@.arrays.contains_key(obj)),
        ok ==> final(state)@ == after_set_element(old(state)@, obj, index as nat, val),
        !ok ==> final(state)@ == old(state)@,
{
    if !is_array_object(state, obj) {
        return false;
    }
    let ghost m0 = state@;
    let mut values = match state.arrays.remove(&obj) {
        Some(v) => v,
        None => {
            return false;
        },
    };
    let ghost start = values@;
    let i = index as usize;
    if i < values.len() {
        values.set(i, val);
    } else {
        while values.len() < i
            invariant
                i >= start.len(),
                values.len() <= i,
                values@ == start + Seq::new((values.len() - start.len()) as nat, |k: int| undefined_value()),
            decreases i - values.len(),
        {
            let ghost before = values@;
            values.push(JSVal::undefined());
            assert(values@ =~= start + Seq::new((values.len() - start.len()) as nat, |k: int| undefined_value()));
        }
        values.push(val);
    }
    assert(values@ =~= elements_after_set(start, index as nat, val));
    let len = clamp_len(values.len());
    let ghost elems = values@;
    state.arrays.insert(obj, values);
    proof {
        assert(vec_view(state.arrays@) =~= m0.arrays.insert(obj, elems));
        assert(state@ == (GlueModel { arrays: m0.arrays.insert(obj, elems), ..m0 }));
    }
    state.put_property(obj, "length".to_owned(), JSVal::from_uint32(len));
    true
}

// ---------------------------------------------------------------------------
// Array buffers and views
// ---------------------------------------------------------------------------

/// The model after creating array buffer `obj` holding `bytes`.
pub open spec fn after_new_buffer(m: GlueModel, obj: u64, bytes: Seq<u8>) -> GlueModel {
    let m1 = after_store_object(m, obj);
    GlueModel { array_buffers: m1.array_buffers.insert(obj, bytes), ..m1 }
}

/// Whether `obj` is an array buffer that has not been detached.
pub open spec fn is_live_buffer(m: GlueModel, obj: u64) -> bool {
    obj != 0 && m.array_buffers.contains_key(obj) && !m.detached_buffers.contains(obj)
}

/// The byte length of buffer `obj`, or 0.
pub open spec fn buffer_len_of(m: GlueModel, obj: u64) -> nat {
    if obj != 0 && m.array_buffers.contains_key(obj) {
        m.array_buffers[obj].len()
    } else {
        0
    }
}

fn store_buffer(state: &mut GlueState, bytes: Vec<u8>) -> (obj: u64)
    requires
        old(state).wf(),
        old(state).can_allocate(1),
        old(state)@.global_id is Some,
    ensures
        final(state).wf(),
        obj == old(state)@.next_handle,
        obj != 0,
        final(state)@ == after_new_buffer(old(state)@, obj, bytes@),
{
    let ghost bs = bytes@;
    let obj = js_new_object(state);
    let ghost mid = state@;
    state.array_buffers.insert(obj, bytes);
    proof {
        assert(vec_view(state.array_buffers@) =~= mid.array_buffers.insert(obj, bs));
    }
    obj
}

/// Creates a zero-filled array buffer of `len` bytes.
pub fn new_array_buffer(state: &mut GlueState, len: usize) -> (obj: u64)
    requires
        old(state).wf(),
        old(state).can_allocate(1),
        old(state)@.global_id is Some,
    ensures
        final(state).wf(),
        obj == old(state)@.next_handle,
        obj != 0,
        final(state)@ == after_new_buffer(old(state)@, obj, Seq::new(len as nat, |i: int| 0u8)),
{
    let mut bytes: Vec<u8> = Vec::new();
    while bytes.len() < len
        invariant
            bytes.len() <= len,
            bytes@ == Seq::new(bytes.len() as nat, |i: int| 0u8),
        decreases len - bytes.len(),
    {
        bytes.push(0);
        assert(bytes@ =~= Seq::new(bytes.len() as nat, |i: int| 0u8));
    }
    store_buffer(state, bytes)
}

/// Creates an array buffer holding a copy of `bytes`.
pub fn new_array_buffer_with_bytes(state: &mut GlueState, bytes: &[u8]) -> (obj: u64)
    requires
        old(state).wf(),
        old(state).can_allocate(1),
        old(state)@.global_id is Some,
    ensures
        final(state).wf(),
        obj == old(state)@.next_handle,
        obj != 0,
        final(state)@ == after_new_buffer(old(state)@, obj, bytes@),
{
    store_buffer(state, slice_to_vec(bytes))
}

/// Creates an array buffer of `len` bytes: a copy of `data` when it is
/// given, zero-filled otherwise.
pub fn new_array_buffer_with_contents(state: &mut GlueState, len: usize, data: Option<&[u8]>) -> (obj: u64)
    requires
        old(state).wf(),
        old(state).can_allocate(1),
        old(state)@.global_id is Some,
        data matches Some(d) ==> d@.len() == len,
    ensures
        final(state).wf(),
        obj == old(state)@.next_handle,
        obj != 0,
        final(state)@ == after_new_buffer(
            old(state)@,
            obj,
            match data {
                Some(d) => d@,
                None => Seq::new(len as nat, |i: int| 0u8),
            },
        ),
{
    match data {
        Some(d) => new_array_buffer_with_bytes(state, d),
        None => new_array_buffer(state, len),
    }
}

/// The byte length of array buffer `obj`, or 0.
pub fn array_buffer_len(state: &GlueState, obj: u64) -> (n: usize)
    ensures
        n == buffer_len_of(state@, obj),
{
    if obj == 0 {
        return 0;
    }
    match state.array_buffers.get(&obj) {
        Some(bytes) => bytes.len(),
        None => 0,
    }
}

/// Whether `obj` is an array buffer.
pub fn is_array_buffer(state: &GlueState, obj: u64) -> (b: bool)
    ensures
        b == (obj != 0 && state@.array_buffers.contains_key(obj)),
{
    obj != 0 && state.array_buffers.contains_key(&obj)
}

/// Whether `obj` is a detached array buffer.
pub fn is_detached_array_buffer(state: &GlueState, obj: u64) -> (b: bool)
    ensures
        b == (obj != 0 && state@.detached_buffers.contains(obj)),
{
    obj != 0 && state.detached_buffers.contains(&obj)
}

/// Detaches array buffer `obj`.  Fails when `obj` is not an array buffer.
pub fn detach_array_buffer(state: &mut GlueState, obj: u64) -> (ok: bool)
    requires
        old(state).wf(),
    ensures
        final(state).wf(),
        ok == (obj != 0 && old(state)@.array_buffers.contains_key(obj)),
        ok ==> final(state)@ == (GlueModel {
            detached_buffers: old(state)@.detached_buffers.insert(obj),
            ..old(state)@
        }),
        !ok ==> final(state)@ == old(state)@,
{
    if !is_array_buffer(state, obj) {
        return false;
    }
    state.detached_buffers.insert(obj);
    true
}

/// Whether `clone_array_buffer(obj, offset, len)` makes a new buffer.
pub open spec fn clone_succeeds(m: GlueModel, obj: u64, offset: usize, len: usize) -> bool {
    is_live_buffer(m, obj) && offset + len <= m.array_buffers[obj].len()
}

/// Copies `len` bytes of live buffer `obj` from `offset` into a new buffer.
/// A missing or detached buffer, or a range past its end, gives null.
pub fn clone_array_buffer(state: &mut GlueState, obj: u64, offset: usize, len: usize) -> (r: u64)
    requires
        old(state).wf(),
        clone_succeeds(old(state)@, obj, offset, len) ==> old(state).can_allocate(1) && old(
            state,
        )@.global_id is Some,
    ensures
        final(state).wf(),
        clone_succeeds(old(state)@, obj, offset, len) ==> r == old(state)@.next_handle && r != 0
            && final(state)@ == after_new_buffer(
            old(state)@,
            r,
            old(state)@.array_buffers[obj].subrange(offset as int, offset + len),
        ),
        clone_succeeds(old(state)@, obj, offset, len) ==> r != obj && final(state)@.array_buffers.contains_key(obj)
            && final(state)@.array_buffers[obj] == old(state)@.array_buffers[obj],
        !clone_succeeds(old(state)@, obj, offset, len) ==> r == 0 && final(state)@ == old(state)@,
{
    proof {
        state.lemma_buffers_below_next_handle();
    }
    if !is_array_buffer(state, obj) || is_detached_array_buffer(state, obj) {
        return 0;
    }
    let copy = match state.array_buffers.get(&obj) {
        Some(bytes) => {
            assert(state@.array_buffers[obj] == bytes@);
            assert(bytes@.len() == bytes.len());
            match offset.checked_add(len) {
                Some(end) => if end <= bytes.len() {
                    Some(slice_to_vec(slice_subrange(bytes.as_slice(), offset, end)))
                } else {
                    None
                },
                None => None,
            }
        },
        None => None,
    };
    match copy {
        Some(bytes) => {
            assert(clone_succeeds(state@, obj, offset, len));
            store_buffer(state, bytes)
        },
        None => 0,
    }
}

/// `a * b`, saturated at `usize::MAX`.
pub open spec fn saturating_mul_usize(a: int, b: int) -> int {
    if a * b <= usize::MAX {
        a * b
    } else {
        usize::MAX as int
    }
}

/// The byte length of a view of `len` elements of `size` bytes starting at
/// `offset` of a buffer of `buffer_len` bytes; a negative `len` covers the
/// rest of the buffer.
pub open spec fn view_byte_len(buffer_len: nat, offset: usize, len: i64, size: nat) -> int {
    if len < 0 {
        if offset <= buffer_len {
            buffer_len - offset
        } else {
            0
        }
    } else {
        saturating_mul_usize((len as usize) as int, size as int)
    }
}

/// Whether a view of `len` elements of `ty` at `offset` of `buffer` can be
/// made: the buffer is live, `ty` has an element size and the view lies
/// inside the buffer.
pub open spec fn view_succeeds(m: GlueModel, buffer: u64, offset: usize, len: i64, ty: Type) -> bool {
    &&& is_live_buffer(m, buffer)
    &&& element_size(ty) is Some
    &&& offset + view_byte_len(buffer_len_of(m, buffer), offset, len, element_size(ty).unwrap())
        <= buffer_len_of(m, buffer)
}

/// The model after creating view `obj` described by `view`.
pub open spec fn after_new_view(m: GlueModel, obj: u64, view: ArrayView) -> GlueModel {
    let m1 = after_store_object(m, obj);
    GlueModel { array_views: m1.array_views.insert(obj, view), ..m1 }
}

/// Creates a typed array of `len` elements of `ty` over `buffer` from byte
/// `offset` (a negative `len` covers the rest of the buffer).  Gives null
/// when the buffer is missing or detached, `ty` has no element size, or the
/// view would not fit in the buffer.
pub fn new_typed_array_with_buffer(
    state: &mut GlueState,
    buffer: u64,
    offset: usize,
    len: i64,
    ty: Type,
) -> (r: u64)
    requires
        old(state).wf(),
        view_succeeds(old(state)@, buffer, offset, len, ty) ==> old(state).can_allocate(1) && old(
            state,
        )@.global_id is Some,
    ensures
        final(state).wf(),
        view_succeeds(old(state)@, buffer, offset, len, ty) ==> r == old(state)@.next_handle && r
            != 0 && final(state)@ == after_new_view(
            old(state)@,
            r,
            ArrayView {
                buffer,
                byte_offset: offset,
                byte_length: view_byte_len(
                    buffer_len_of(old(state)@, buffer),
                    offset,
                    len,
                    element_size(ty).unwrap(),
                ) as usize,
                element_type: ty,
            },
        ),
        !view_succeeds(old(state)@, buffer, offset, len, ty) ==> r == 0 && final(state)@ == old(
            state,
        )@,
{
    if !is_array_buffer(state, buffer) || is_detached_array_buffer(state, buffer) {
        return 0;
    }
    let element_size = match ty.byte_size() {
        Some(n) => n,
        None => {
            return 0;
        },
    };
    let buffer_len = array_buffer_len(state, buffer);
    let byte_len: usize = if len < 0 {
        buffer_len.saturating_sub(offset)
    } else {
        match (len as usize).checked_mul(element_size) {
            Some(n) => n,
            None => usize::MAX,
        }
    };
    match offset.checked_add(byte_len) {
        Some(end) => if end > buffer_len {
            return 0;
        },
        None => {
            return 0;
        },
    }
    let view = js_new_object(state);
    let ghost mid = state@;
    state.array_views.insert(
        view,
        ArrayView { buffer, byte_offset: offset, byte_length: byte_len, element_type: ty },
    );
    view
}

/// Copies `bytes` into a new buffer and makes a view of `ty` over all of it.
/// Returns the view, or null (leaving the buffer) when `ty` has no element
/// size.
pub fn new_typed_array_from_bytes(state: &mut GlueState, bytes: &[u8], ty: Type) -> (r: u64)
    requires
        old(state).wf(),
        old(state).can_allocate(2),
        old(state)@.global_id is Some,
    ensures
        final(state).wf(),
        element_size(ty) is Some ==> r == old(state)@.next_handle + 1 && final(state)@
            == after_new_view(
            after_new_buffer(old(state)@, old(state)@.next_handle, bytes@),
            r,
            ArrayView {
                buffer: old(state)@.next_handle,
                byte_offset: 0,
                byte_length: bytes@.len() as usize,
                element_type: ty,
            },
        ),
        element_size(ty) is None ==> r == 0 && final(state)@ == after_new_buffer(
            old(state)@,
            old(state)@.next_handle,
            bytes@,
        ),
{
    let buffer = new_array_buffer_with_bytes(state, bytes);
    new_typed_array_with_buffer(state, buffer, 0, -1, ty)
}

/// Whether `obj` is an array buffer view.
pub fn is_array_buffer_view(state: &GlueState, obj: u64) -> (b: bool)
    ensures
        b == (obj != 0 && state@.array_views.contains_key(obj)),
{
    obj != 0 && state.array_views.contains_key(&obj)
}

/// The view record of `obj`, if it is a view.
pub open spec fn view_of(m: GlueModel, obj: u64) -> Option<ArrayView> {
    if m.array_views.contains_key(obj) {
        Some(m.array_views[obj])
    } else {
        None
    }
}

fn get_view(state: &GlueState, obj: u64) -> (r: Option<ArrayView>)
    ensures
        r == view_of(state@, obj),
{
    match state.array_views.get(&obj) {
        Some(v) => Some(*v),
        None => None,
    }
}

/// The buffer under view `obj`, or null.
pub fn array_view_buffer(state: &GlueState, obj: u64) -> (b: u64)
    ensures
        b == match view_of(state@, obj) {
            Some(v) if obj != 0 => v.buffer,
            _ => 0,
        },
{
    if obj == 0 {
        return 0;
    }
    match get_view(state, obj) {
        Some(v) => v.buffer,
        None => 0,
    }
}

/// The byte length of view `obj`, or 0.
pub fn array_view_byte_length(state: &GlueState, obj: u64) -> (n: usize)
    ensures
        n == match view_of(state@, obj) {
            Some(v) => v.byte_length,
            None => 0,
        },
{
    match get_view(state, obj) {
        Some(v) => v.byte_length,
        None => 0,
    }
}

/// The byte offset of view `obj` in its buffer, or 0.
pub fn array_view_byte_offset(state: &GlueState, obj: u64) -> (n: usize)
    ensures
        n == match view_of(state@, obj) {
            Some(v) => v.byte_offset,
            None => 0,
        },
{
    match get_view(state, obj) {
        Some(v) => v.byte_offset,
        None => 0,
    }
}

/// The element type of view `obj`, or `MaxTypedArrayViewType`.
pub fn array_view_type(state: &GlueState, obj: u64) -> (t: Type)
    ensures
        t == match view_of(state@, obj) {
            Some(v) => v.element_type,
            None => Type::MaxTypedArrayViewType,
        },
{
    match get_view(state, obj) {
        Some(v) => v.element_type,
        None => Type::MaxTypedArrayViewType,
    }
}

/// The number of elements of view `obj` (whole elements only), or 0.
pub fn typed_array_length(state: &GlueState, obj: u64) -> (n: usize)
    ensures
        n == match view_of(state@, obj) {
            Some(v) => match element_size(v.element_type) {
                Some(size) => (v.byte_length as nat) / size,
                None => 0,
            },
            None => 0,
        },
{
    let ty = array_view_type(state, obj);
    match ty.byte_size() {
        Some(size) => if size != 0 {
            array_view_byte_length(state, obj) / size
        } else {
            0
        },
        None => 0,
    }
}

/// The bytes a view covers, or, for an array buffer, all its bytes; empty
/// when the view lies outside its buffer or `obj` is neither.
pub open spec fn view_bytes(m: GlueModel, obj: u64) -> Seq<u8> {
    match view_of(m, obj) {
        Some(v) => if m.array_buffers.contains_key(v.buffer) && v.byte_offset + v.byte_length
            <= m.array_buffers[v.buffer].len() {
            m.array_buffers[v.buffer].subrange(
                v.byte_offset as int,
                v.byte_offset + v.byte_length,
            )
        } else {
            Seq::empty()
        },
        None => if m.array_buffers.contains_key(obj) {
            m.array_buffers[obj]
        } else {
            Seq::empty()
        },
    }
}

/// A copy of the bytes view (or buffer) `obj` covers.
pub fn array_view_bytes(state: &GlueState, obj: u64) -> (r: Vec<u8>)
    ensures
        r@ == view_bytes(state@, obj),
{
    match get_view(state, obj) {
        Some(v) => {
            let end = match v.byte_offset.checked_add(v.byte_length) {
                Some(end) => end,
                None => {
                    proof {
                        if state.array_buffers@.contains_key(v.buffer) {
                            assert(state.array_buffers@[v.buffer]@.len()
                                == state.array_buffers@[v.buffer].len());
                        }
                    }
                    return Vec::new();
                },
            };
            match state.array_buffers.get(&v.buffer) {
                Some(bytes) => {
                    if end <= bytes.len() {
                        slice_to_vec(slice_subrange(bytes.as_slice(), v.byte_offset, end))
                    } else {
                        Vec::new()
                    }
                },
                None => Vec::new(),
            }
        },
        None => match state.array_buffers.get(&obj) {
            Some(bytes) => {
                let r = slice_to_vec(bytes.as_slice());
                assert(r@ == state@.array_buffers[obj]);
                r
            },
            None => Vec::new(),
        },
    }
}

// ---------------------------------------------------------------------------
// Properties by id
// ---------------------------------------------------------------------------

/// The property name an id stands for: a string id's text, or an integer
/// id's decimal rendering.
pub open spec fn id_name(m: GlueModel, id: jsid) -> Option<Seq<char>> {
    if id.names_string() {
        text_of(m, id.string_handle())
    } else if id.names_int() {
        Some(decimal_text(id.int_value() as int))
    } else {
        None
    }
}

pub(crate) fn property_name_from_jsid(state: &GlueState, id: jsid) -> (r: Option<String>)
    ensures
        match r {
            Some(n) => id_name(state@, id) == Some(n@),
            None => id_name(state@, id) is None,
        },
{
    if id.is_string() {
        string_text(state, id.to_string())
    } else if id.is_int() {
        Some(i64_to_decimal(id.to_int() as i64))
    } else {
        None
    }
}

/// The array index an integer id addresses.
pub open spec fn id_index(id: jsid) -> u32 {
    id.int_value() as u32
}

/// Stores `val` under `id` on `obj`: an integer id stores an array element,
/// any other id a named property.  Fails on a null object, on an integer id
/// when `obj` is not an array, and on an id that names nothing.
pub fn set_property_by_jsid(state: &mut GlueState, obj: u64, id: jsid, val: JSVal) -> (ok: bool)
    requires
        old(state).wf(),
    ensures
        final(state).wf(),
        obj == 0 ==> !ok,
        obj != 0 && id.names_int() ==> ok == old(state)@.arrays.contains_key(obj) && (ok
            ==> final(state)@ == after_set_element(old(state)@, obj, id_index(id) as nat, val)),
        obj != 0 && !id.names_int() ==> ok == (id_name(old(state)@, id) is Some) && (ok
            ==> final(state)@ == after_set_property(
            old(state)@,
            obj,
            id_name(old(state)@, id).unwrap(),
            val,
        )),
        !ok ==> final(state)@ == old(state)@,
{
    if obj == 0 {
        return false;
    }
    if id.is_int() {
        #[verifier::truncate]
        let index = id.to_int() as u32;
        return set_array_element(state, obj, index, val);
    }
    match property_name_from_jsid(state, id) {
        Some(name) => {
            state.put_property(obj, name, val);
            true
        },
        None => false,
    }
}

/// The value stored under `id` on `obj`, as `set_property_by_jsid` stores it.
pub open spec fn value_by_id(m: GlueModel, obj: u64, id: jsid) -> Option<JSVal> {
    if obj == 0 {
        None
    } else if id.names_int() {
        if m.arrays.contains_key(obj) && (id_index(id) as int) < m.arrays[obj].len() {
            Some(m.arrays[obj][id_index(id) as int])
        } else {
            None
        }
    } else {
        match id_name(m, id) {
            Some(n) => property_of(m, obj, n),
            None => None,
        }
    }
}

/// The value stored under `id` on `obj`, if any.
pub fn get_property_by_jsid(state: &GlueState, obj: u64, id: jsid) -> (r: Option<JSVal>)
    requires
        state.wf(),
    ensures
        r == value_by_id(state@, obj, id),
{
    if obj == 0 {
        return None;
    }
    if id.is_int() {
        #[verifier::truncate]
        let index = id.to_int() as u32;
        return get_array_element(state, obj, index);
    }
    match property_name_from_jsid(state, id) {
        Some(name) => state.properties.get(obj, &name),
        None => None,
    }
}

/// Whether a value is stored under `id` on `obj`.
pub fn has_property_by_jsid(state: &GlueState, obj: u64, id: jsid) -> (b: bool)
    requires
        state.wf(),
    ensures
        b == (value_by_id(state@, obj, id) is Some),
{
    get_property_by_jsid(state, obj, id).is_some()
}

/// Whether `obj` itself has the property `id`: a string id names one of
/// its named properties, an integer id an index inside its elements.
pub open spec fn has_own_by_id(m: GlueModel, obj: u64, id: jsid) -> bool {
    if obj == 0 {
        false
    } else if id.names_string() {
        match text_of(m, id.string_handle()) {
            Some(n) => m.properties.contains_key((obj, n)),
            None => false,
        }
    } else if id.names_int() {
        m.arrays.contains_key(obj) && (id_index(id) as int) < m.arrays[obj].len()
    } else {
        false
    }
}

/// Whether `obj` itself has the property `id`.
pub fn has_own_property_by_id(state: &GlueState, obj: u64, id: jsid) -> (b: bool)
    requires
        state.wf(),
    ensures
        b == has_own_by_id(state@, obj, id),
{
    if obj == 0 {
        return false;
    }
    if id.is_string() {
        match string_text(state, id.to_string()) {
            Some(name) => {
                return state.properties.contains(obj, &name);
            },
            None => {},
        }
    }
    if id.is_int() {
        #[verifier::truncate]
        let index = id.to_int() as u32;
        return match state.arrays.get(&obj) {
            Some(values) => (index as usize) < values.len(),
            None => false,
        };
    }
    false
}

/// Fills `desc` with the data descriptor of the value stored under `id` on
/// `obj` (enumerable, described as a property of `obj`), or clears it when
/// there is none.  Returns whether no value was found; the lookup itself
/// always succeeds.
pub fn get_property_descriptor_by_jsid(
    state: &GlueState,
    obj: u64,
    id: jsid,
    desc: &mut PropertyDescriptor,
) -> (is_none: bool)
    requires
        state.wf(),
    ensures
        is_none == (value_by_id(state@, obj, id) is None),
        match value_by_id(state@, obj, id) {
            Some(v) => final(desc).is_data_descriptor(obj, v, JSPROP_ENUMERATE),
            None => final(desc).is_empty(),
        },
{
    if obj == 0 {
        desc.clear();
        return true;
    }
    match get_property_by_jsid(state, obj, id) {
        Some(value) => {
            desc.set_data_descriptor(obj, value, JSPROP_ENUMERATE);
            false
        },
        None => {
            desc.clear();
            true
        },
    }
}

/// Defines `obj`'s property `id` from `desc`: a descriptor with a value
/// stores it as `set_property_by_jsid` does; one without a value changes
/// nothing and succeeds.  A null object or a missing descriptor fails.
pub fn define_property_by_descriptor(
    state: &mut GlueState,
    obj: u64,
    id: jsid,
    desc: Option<&PropertyDescriptor>,
) -> (ok: bool)
    requires
        old(state).wf(),
    ensures
        final(state).wf(),
        match desc {
            None => !ok && final(state)@ == old(state)@,
            Some(d) => if obj == 0 {
                !ok && final(state)@ == old(state)@
            } else if !d.has_value_ {
                ok && final(state)@ == old(state)@
            } else {
                let (ok2, m2) = if id.names_int() {
                    (
                        old(state)@.arrays.contains_key(obj),
                        after_set_element(old(state)@, obj, id_index(id) as nat, d.value_),
                    )
                } else {
                    match id_name(old(state)@, id) {
                        Some(n) => (true, after_set_property(old(state)@, obj, n, d.value_)),
                        None => (false, old(state)@),
                    }
                };
                ok == ok2 && final(state)@ == if ok2 {
                    m2
                } else {
                    old(state)@
                }
            },
        },
{
    if obj == 0 {
        return false;
    }
    match desc {
        Some(d) => if d.hasValue_() {
            set_property_by_jsid(state, obj, id, d.value())
        } else {
            true
        },
        None => false,
    }
}

// ---------------------------------------------------------------------------
// Property keys and ids
// ---------------------------------------------------------------------------

/// Appends `id` to the id vector `ids`.
pub fn append_to_id_vector(ids: &mut Vec<jsid>, id: jsid) -> (ok: bool)
    ensures
        ok,
        final(ids)@ == old(ids)@.push(id),
{
    ids.push(id);
    true
}

/// The model after recording new strings with handles `first`,
/// `first + 1`, ... holding `texts` in order.
pub open spec fn after_store_strings(m: GlueModel, first: u64, texts: Seq<Seq<char>>) -> GlueModel {
    GlueModel {
        next_handle: (first + texts.len()) as u64,
        string_text: m.string_text.union_prefer_right(
            Map::new(
                |h: u64| first <= h < first + texts.len(),
                |h: u64| texts[h - first],
            ),
        ),
        ..m
    }
}

/// The ids of `obj`'s keys: an integer id for each array index, then a
/// string id for each property name, the strings numbered from `first`.
pub open spec fn key_ids(array_len: nat, first: u64, names: nat) -> Seq<jsid> {
    Seq::new(array_len, |i: int| int_jsid(i as i32)) + Seq::new(
        names,
        |i: int| string_jsid((first + i) as u64),
    )
}

/// The number of array indices `get_property_keys` lists for `obj`.
pub open spec fn listed_indices(m: GlueModel, obj: u64) -> nat {
    if m.arrays.contains_key(obj) {
        clamp_u32(m.arrays[obj].len() as int) as nat
    } else {
        0
    }
}

/// Appends the keys of `obj` to `ids`: its array indices, then a new string
/// for each of its property names in the order they were defined.  Fails on
/// a null object.
pub fn get_property_keys(state: &mut GlueState, obj: u64, ids: &mut Vec<jsid>) -> (ok: bool)
    requires
        old(state).wf(),
        obj != 0 ==> old(state)@.global_id is Some && old(state).can_allocate(
            (old(state)@.property_names)(obj).len(),
        ),
    ensures
        final(state).wf(),
        ok == (obj != 0),
        !ok ==> final(state)@ == old(state)@ && final(ids)@ == old(ids)@,
        ok ==> final(state)@ == after_store_strings(
            old(state)@,
            old(state)@.next_handle,
            (old(state)@.property_names)(obj),
        ),
        ok ==> final(ids)@ == old(ids)@ + key_ids(
            listed_indices(old(state)@, obj),
            old(state)@.next_handle,
            (old(state)@.property_names)(obj).len(),
        ),
{
    if obj == 0 {
        return false;
    }
    let ghost m0 = state@;
    let ghost ids0 = ids@;
    let array_len = if is_array_object(state, obj) {
        array_length(state, obj)
    } else {
        0
    };
    let names = state.properties.names(obj);
    let ghost texts = (m0.property_names)(obj);
    let ghost first = m0.next_handle;
    let mut index: u32 = 0;
    while index < array_len
        invariant
            index <= array_len,
            array_len == listed_indices(m0, obj),
            ids@ == ids0 + Seq::new(index as nat, |i: int| int_jsid(i as i32)),
        decreases array_len - index,
    {
        #[verifier::truncate]
        let i = index as i32;
        append_to_id_vector(ids, jsid::from_int(i));
        assert(ids@ =~= ids0 + Seq::new((index + 1) as nat, |i: int| int_jsid(i as i32)));
        index = index + 1;
    }
    let mut j: usize = 0;
    proof {
        assert(after_store_strings(m0, first, texts.subrange(0, 0)).string_text =~= m0.string_text);
        assert(ids@ =~= ids0 + key_ids(array_len as nat, first, 0));
    }
    while j < names.len()
        invariant
            names@.map_values(|s: String| s@) == texts,
            j <= names@.len(),
            state.wf(),
            state@.global_id is Some,
            first == m0.next_handle,
            first + texts.len() <= MAX_HANDLE,
            state@ == after_store_strings(m0, first, texts.subrange(0, j as int)),
            ids@ == ids0 + key_ids(array_len as nat, first, j as nat),
        decreases names@.len() - j,
    {
        assert(names@.map_values(|s: String| s@)[j as int] == names@[j as int]@);
        let h = store_string(state, names[j].clone());
        append_to_id_vector(ids, jsid::from_string(h));
        proof {
            let prev = texts.subrange(0, j as int);
            let next = texts.subrange(0, j + 1);
            assert(next =~= prev.push(texts[j as int]));
            assert(state@.string_text =~= after_store_strings(m0, first, next).string_text);
            assert(ids@ =~= ids0 + key_ids(array_len as nat, first, (j + 1) as nat));
        }
        j = j + 1;
    }
    assert(texts.subrange(0, names@.len() as int) =~= texts);
    true
}

/// The string id `id` stands for: its own string for a string id, a new
/// string holding the decimal rendering for an integer id, null otherwise.
pub fn id_to_string(state: &mut GlueState, id: jsid) -> (s: u64)
    requires
        old(state).wf(),
        id.names_int() ==> old(state)@.global_id is Some && old(state).can_allocate(1),
    ensures
        final(state).wf(),
        id.names_string() ==> s == id.string_handle() && final(state)@ == old(state)@,
        id.names_int() ==> s == old(state)@.next_handle && final(state)@ == after_store_string(
            old(state)@,
            s,
            decimal_text(id.int_value() as int),
        ),
        !id.names_string() && !id.names_int() ==> s == 0 && final(state)@ == old(state)@,
{
    if id.is_string() {
        id.to_string()
    } else if id.is_int() {
        store_string(state, i64_to_decimal(id.to_int() as i64))
    } else {
        0
    }
}

/// Writes the value an id stands for into `vp`: a string value for a string
/// id, an int32 value for an integer id.  Other ids fail and leave `vp`.
pub fn id_to_value(id: jsid, vp: &mut JSVal) -> (ok: bool)
    ensures
        ok == (id.names_string() || id.names_int()),
        id.names_string() ==> *final(vp) == string_value(id.string_handle()),
        id.names_int() ==> *final(vp) == int32_value(id.int_value()),
        !ok ==> *final(vp) == *old(vp),
{
    if id.is_string() {
        *vp = JSVal::from_string(id.to_string());
        true
    } else if id.is_int() {
        *vp = JSVal::from_int32(id.to_int());
        true
    } else {
        false
    }
}

/// The source text of a value: `undefined`, `null`, `true`/`false`, the
/// decimal rendering of a number, a string's own text, `[object Object]`
/// for an object, and nothing for anything else.
pub open spec fn source_text(m: GlueModel, v: JSVal) -> Seq<char> {
    if v.holds_undefined() {
        "undefined"@
    } else if v.holds_null() {
        "null"@
    } else if v.holds_boolean() {
        if v.asBits_ == JSVAL_TRUE_BITS {
            "true"@
        } else {
            "false"@
        }
    } else if v.holds_number() {
        if v.tag() == JSVAL_INT32_TAG {
            decimal_text(low_i32(v.asBits_) as int)
        } else {
            decimal_text(low_u32(v.asBits_) as int)
        }
    } else if v.holds_string() {
        match text_of(m, v.string_handle()) {
            Some(t) => t,
            None => Seq::empty(),
        }
    } else if v.holds_object() {
        "[object Object]"@
    } else {
        Seq::empty()
    }
}

fn source_string(state: &GlueState, val: JSVal) -> (r: String)
    ensures
        r@ == source_text(state@, val),
{
    if val.is_undefined() {
        "undefined".to_owned()
    } else if val.is_null() {
        "null".to_owned()
    } else if val.is_boolean() {
        if val.to_boolean() {
            "true".to_owned()
        } else {
            "false".to_owned()
        }
    } else if val.is_number() {
        if val.asBits_ & JSVAL_TAG_MASK == JSVAL_INT32_TAG {
            i64_to_decimal(val.to_int32() as i64)
        } else {
            #[verifier::truncate]
            let u = (val.asBits_ & 0xffff_ffff) as u32;
            i64_to_decimal(u as i64)
        }
    } else if val.is_string() {
        match string_text(state, val.to_string()) {
            Some(t) => t,
            None => String::new(),
        }
    } else if val.is_object() {
        "[object Object]".to_owned()
    } else {
        String::new()
    }
}

/// A new string holding the source text of `val`.
pub fn value_to_source(state: &mut GlueState, val: JSVal) -> (s: u64)
    requires
        old(state).wf(),
        old(state).can_allocate(1),
        old(state)@.global_id is Some,
    ensures
        final(state).wf(),
        s == old(state)@.next_handle,
        s != 0,
        final(state)@ == after_store_string(old(state)@, s, source_text(old(state)@, val)),
{
    let text = source_string(state, val);
    store_string(state, text)
}

/// Whether `obj` is a live engine object; property definitions from specs
/// are accepted for such objects and otherwise fail.
pub fn define_property_by_id(state: &GlueState, obj: u64) -> (ok: bool)
    requires
        state@.global_id is Some,
    ensures
        ok == (obj != 0 && state@.objects.contains(obj)),
{
    obj != 0 && state.objects.contains(&obj)
}

/// Data descriptors are filled in by the lookup itself; there is nothing to
/// do here.
pub fn set_data_property_descriptor() {
}

/// Deleting properties is not supported; the request is ignored.
pub fn delete_property_ignoring_result(_obj: u64, _prop: Option<&str>) {
}

// ---------------------------------------------------------------------------
// Constructors
// ---------------------------------------------------------------------------

/// Links constructor `ctor` and prototype `proto`: `proto` becomes `ctor`'s
/// prototype, `ctor.prototype` is `proto` and `proto.constructor` is `ctor`.
/// Fails when either is null.
pub fn link_constructor_and_prototype(state: &mut GlueState, ctor: u64, proto: u64) -> (ok: bool)
    requires
        old(state).wf(),
    ensures
        final(state).wf(),
        ok == (ctor != 0 && proto != 0),
        !ok ==> final(state)@ == old(state)@,
        ok ==> final(state)@ == after_set_property(
            after_set_property(
                after_set_prototype(old(state)@, ctor, proto),
                ctor,
                "prototype"@,
                object_value(proto),
            ),
            proto,
            "constructor"@,
            object_value(ctor),
        ),
{
    if ctor == 0 || proto == 0 {
        return false;
    }
    set_prototype(state, ctor, proto);
    set_property(state, ctor, "prototype", JSVal::from_object(proto)) && set_property(
        state,
        proto,
        "constructor",
        JSVal::from_object(ctor),
    )
}

// ---------------------------------------------------------------------------
// Reserved slots and private data
// ---------------------------------------------------------------------------

/// The value in reserved slot `slot` of `obj`, or `undefined`.
pub open spec fn slot_value(m: GlueModel, obj: u64, slot: nat) -> JSVal {
    if obj != 0 && m.reserved_slots.contains_key(obj) && slot < m.reserved_slots[obj].len() {
        m.reserved_slots[obj][slot as int]
    } else {
        undefined_value()
    }
}

/// The reserved slots of `obj` after storing `val` in `slot`.
pub open spec fn slots_after_set(m: GlueModel, obj: u64, slot: nat, val: JSVal) -> Seq<JSVal> {
    elements_after_set(
        if m.reserved_slots.contains_key(obj) {
            m.reserved_slots[obj]
        } else {
            Seq::empty()
        },
        slot,
        val,
    )
}

/// The value in reserved slot `slot` of `obj` (`undefined` when unset).
pub fn get_reserved_slot(state: &GlueState, obj: u64, slot: u32) -> (v: JSVal)
    ensures
        v == slot_value(state@, obj, slot as nat),
{
    if obj == 0 {
        return JSVal::undefined();
    }
    match state.reserved_slots.get(&obj) {
        Some(values) => if (slot as usize) < values.len() {
            values[slot as usize]
        } else {
            JSVal::undefined()
        },
        None => JSVal::undefined(),
    }
}

/// Stores `val` in reserved slot `slot` of `obj`, extending its slots with
/// `undefined` as needed.  A null object is ignored.
pub fn set_reserved_slot(state: &mut GlueState, obj: u64, slot: u32, val: JSVal)
    requires
        old(state).wf(),
    ensures
        final(state).wf(),
        obj == 0 ==> final(state)@ == old(state)@,
        obj != 0 ==> final(state)@ == (GlueModel {
            reserved_slots: old(state)@.reserved_slots.insert(
                obj,
                slots_after_set(old(state)@, obj, slot as nat, val),
            ),
            ..old(state)@
        }),
{
    if obj == 0 {
        return;
    }
    let ghost m0 = state@;
    let mut values = match state.reserved_slots.remove(&obj) {
        Some(v) => v,
        None => Vec::new(),
    };
    let ghost start = values@;
    assert(start == (if m0.reserved_slots.contains_key(obj) {
        m0.reserved_slots[obj]
    } else {
        Seq::<JSVal>::empty()
    }));
    let i = slot as usize;
    if i < values.len() {
        values.set(i, val);
    } else {
        while values.len() < i
            invariant
                i >= start.len(),
                values.len() <= i,
                values@ == start + Seq::new((values.len() - start.len()) as nat, |k: int| undefined_value()),
            decreases i - values.len(),
        {
            values.push(JSVal::undefined());
            assert(values@ =~= start + Seq::new((values.len() - start.len()) as nat, |k: int| undefined_value()));
        }
        values.push(val);
    }
    assert(values@ =~= slots_after_set(m0, obj, slot as nat, val));
    let ghost elems = values@;
    state.reserved_slots.insert(obj, values);
    proof {
        assert(vec_view(state.reserved_slots@) =~= m0.reserved_slots.insert(obj, elems));
    }
}

/// Writes the value in reserved slot `slot` of `proxy` into `out`.
pub fn get_proxy_reserved_slot(state: &GlueState, proxy: u64, slot: u32, out: &mut JSVal)
    ensures
        *final(out) == slot_value(state@, proxy, slot as nat),
{
    *out = get_reserved_slot(state, proxy, slot);
}

/// Reserved-slot reads through this entry point are answered by
/// `get_reserved_slot`; there is nothing to do here.
pub fn js_get_reserved_slot() {
}

/// Proxy reserved slots are written through `set_reserved_slot`; there is
/// nothing to do here.
pub fn set_proxy_reserved_slot() {
}

/// Stores `val` in native-reserved slot `slot` of function object `obj`
/// (the slot number taken modulo 2^32).
pub fn set_function_native_reserved(state: &mut GlueState, obj: u64, slot: usize, val: JSVal)
    requires
        old(state).wf(),
    ensures
        final(state).wf(),
        obj == 0 ==> final(state)@ == old(state)@,
        obj != 0 ==> final(state)@ == (GlueModel {
            reserved_slots: old(state)@.reserved_slots.insert(
                obj,
                slots_after_set(old(state)@, obj, (slot as u32) as nat, val),
            ),
            ..old(state)@
        }),
{
    #[verifier::truncate]
    let s = slot as u32;
    set_reserved_slot(state, obj, s, val)
}

/// The value in native-reserved slot `slot` of function object `obj`.
pub fn get_function_native_reserved(state: &GlueState, obj: u64, slot: usize) -> (v: JSVal)
    ensures
        v == slot_value(state@, obj, (slot as u32) as nat),
{
    #[verifier::truncate]
    let s = slot as u32;
    get_reserved_slot(state, obj, s)
}

/// The private data pointer of `obj`, or null.
pub fn get_private(state: &GlueState, obj: u64) -> (p: u64)
    ensures
        p == if obj != 0 && state@.private_data.contains_key(obj) {
            state@.private_data[obj]
        } else {
            0
        },
{
    if obj == 0 {
        return 0;
    }
    match state.private_data.get(&obj) {
        Some(p) => *p,
        None => 0,
    }
}

/// Records `data` as the private data pointer of `obj`; a null object is
/// ignored.
pub fn set_private(state: &mut GlueState, obj: u64, data: u64)
    requires
        old(state).wf(),
    ensures
        final(state).wf(),
        obj == 0 ==> final(state)@ == old(state)@,
        obj != 0 ==> final(state)@ == (GlueModel {
            private_data: old(state)@.private_data.insert(obj, data),
            ..old(state)@
        }),
{
    if obj == 0 {
        return;
    }
    state.private_data.insert(obj, data);
}

// ---------------------------------------------------------------------------
// Pending exception
// ---------------------------------------------------------------------------

/// Whether an exception is pending.
pub fn is_exception_pending(state: &GlueState) -> (b: bool)
    ensures
        b == (state@.pending_exception is Some),
{
    state.pending_exception.is_some()
}

/// Clears the pending exception.
pub fn clear_pending_exception(state: &mut GlueState)
    requires
        old(state).wf(),
    ensures
        final(state).wf(),
        final(state)@ == (GlueModel { pending_exception: None, ..old(state)@ }),
{
    state.pending_exception = None;
}

/// The pending exception, if any.
pub fn get_pending_exception(state: &GlueState) -> (v: Option<JSVal>)
    ensures
        v == state@.pending_exception,
{
    state.pending_exception
}

/// Makes `val` the pending exception.
pub fn set_pending_exception(state: &mut GlueState, val: JSVal)
    requires
        old(state).wf(),
    ensures
        final(state).wf(),
        final(state)@ == (GlueModel { pending_exception: Some(val), ..old(state)@ }),
{
    state.pending_exception = Some(val);
}

// ---------------------------------------------------------------------------
// Functions
// ---------------------------------------------------------------------------

/// The model after creating function `fun` backed by object `obj`, with
/// native callback `native` and context `cx`.
pub open spec fn after_new_function(m: GlueModel, obj: u64, fun: u64, native: Option<u64>, cx: u64) -> GlueModel {
    let m1 = after_store_object(m, obj);
    GlueModel {
        next_handle: (fun + 1) as u64,
        function_natives: match native {
            Some(n) => m1.function_natives.insert(obj, n),
            None => m1.function_natives,
        },
        function_contexts: if cx != 0 {
            m1.function_contexts.insert(obj, cx)
        } else {
            m1.function_contexts
        },
        function_objects: m1.function_objects.insert(fun, obj),
        ..m1
    }
}

/// Creates a function: a new object that records the native callback
/// (when given) and the context (when not null), and a function handle
/// that refers to it.  Returns the function handle.
pub fn js_new_function(
    state: &mut GlueState,
    cx: u64,
    native: Option<u64>,
    _nargs: u32,
    _flags: u32,
    _name: Option<String>,
) -> (fun: u64)
    requires
        old(state).wf(),
        old(state).can_allocate(2),
        old(state)@.global_id is Some,
    ensures
        final(state).wf(),
        fun == old(state)@.next_handle + 1,
        final(state)@ == after_new_function(
            old(state)@,
            old(state)@.next_handle,
            fun,
            native,
            cx,
        ),
{
    let obj = js_new_object(state);
    match native {
        Some(n) => {
            state.function_natives.insert(obj, n);
        },
        None => {},
    }
    if cx != 0 {
        state.function_contexts.insert(obj, cx);
    }
    let fun = state.next_handle();
    state.function_objects.insert(fun, obj);
    fun
}

/// The object behind function `fun`, or null.
pub fn get_function_object(state: &GlueState, fun: u64) -> (obj: u64)
    ensures
        obj == if fun != 0 && state@.function_objects.contains_key(fun) {
            state@.function_objects[fun]
        } else {
            0
        },
{
    if fun == 0 {
        return 0;
    }
    match state.function_objects.get(&fun) {
        Some(o) => *o,
        None => 0,
    }
}

// ---------------------------------------------------------------------------
// Promises
// ---------------------------------------------------------------------------

/// The model after creating pending promise `obj`.
pub open spec fn after_new_promise(m: GlueModel, obj: u64) -> GlueModel {
    let m1 = after_store_object(m, obj);
    GlueModel { promise_states: m1.promise_states.insert(obj, PromiseState::Pending), ..m1 }
}

/// Creates a pending promise.
pub fn new_promise_object(state: &mut GlueState) -> (obj: u64)
    requires
        old(state).wf(),
        old(state).can_allocate(1),
        old(state)@.global_id is Some,
    ensures
        final(state).wf(),
        obj == old(state)@.next_handle,
        obj != 0,
        final(state)@ == after_new_promise(old(state)@, obj),
{
    let obj = js_new_object(state);
    state.promise_states.insert(obj, PromiseState::Pending);
    obj
}

/// Whether `obj` is a promise.
pub fn is_promise_object(state: &GlueState, obj: u64) -> (b: bool)
    ensures
        b == state@.promise_states.contains_key(obj),
{
    state.promise_states.contains_key(&obj)
}

/// The state of promise `obj`; anything that is not a promise reads as
/// pending.
pub fn get_promise_state(state: &GlueState, obj: u64) -> (s: PromiseState)
    ensures
        s == if state@.promise_states.contains_key(obj) {
            state@.promise_states[obj]
        } else {
            PromiseState::Pending
        },
{
    match state.promise_states.get(&obj) {
        Some(s) => *s,
        None => PromiseState::Pending,
    }
}

/// Records `st` as the state of `obj`.  Fails on null.
pub fn set_promise_state(state: &mut GlueState, obj: u64, st: PromiseState) -> (ok: bool)
    requires
        old(state).wf(),
    ensures
        final(state).wf(),
        ok == (obj != 0),
        ok ==> final(state)@ == (GlueModel {
            promise_states: old(state)@.promise_states.insert(obj, st),
            ..old(state)@
        }),
        !ok ==> final(state)@ == old(state)@,
{
    if obj == 0 {
        return false;
    }
    state.promise_states.insert(obj, st);
    true
}

/// Fulfils `promise` (the value is not kept).  Fails on null.
pub fn resolve_promise(state: &mut GlueState, promise: u64, _value: JSVal) -> (ok: bool)
    requires
        old(state).wf(),
    ensures
        final(state).wf(),
        ok == (promise != 0),
        ok ==> final(state)@ == (GlueModel {
            promise_states: old(state)@.promise_states.insert(promise, PromiseState::Fulfilled),
            ..old(state)@
        }),
        !ok ==> final(state)@ == old(state)@,
{
    set_promise_state(state, promise, PromiseState::Fulfilled)
}

/// Rejects `promise` (the reason is not kept).  Fails on null.
pub fn reject_promise(state: &mut GlueState, promise: u64, _value: JSVal) -> (ok: bool)
    requires
        old(state).wf(),
    ensures
        final(state).wf(),
        ok == (promise != 0),
        ok ==> final(state)@ == (GlueModel {
            promise_states: old(state)@.promise_states.insert(promise, PromiseState::Rejected),
            ..old(state)@
        }),
        !ok ==> final(state)@ == old(state)@,
{
    set_promise_state(state, promise, PromiseState::Rejected)
}

/// Promise results are not kept: always `undefined`.
pub fn get_promise_result(_promise: u64) -> (v: JSVal)
    ensures
        v == undefined_value(),
{
    JSVal::undefined()
}

/// Reactions are not tracked: returns a new pending promise.
pub fn add_promise_reactions(
    state: &mut GlueState,
    _promise: u64,
    _on_fulfilled: JSVal,
    _on_rejected: JSVal,
) -> (obj: u64)
    requires
        old(state).wf(),
        old(state).can_allocate(1),
        old(state)@.global_id is Some,
    ensures
        final(state).wf(),
        obj == old(state)@.next_handle,
        final(state)@ == after_new_promise(old(state)@, obj),
{
    new_promise_object(state)
}

/// A new pending promise (the reason is not kept).
pub fn call_original_promise_reject(state: &mut GlueState, _value: JSVal) -> (obj: u64)
    requires
        old(state).wf(),
        old(state).can_allocate(1),
        old(state)@.global_id is Some,
    ensures
        final(state).wf(),
        obj == old(state)@.next_handle,
        final(state)@ == after_new_promise(old(state)@, obj),
{
    new_promise_object(state)
}

/// A new pending promise (the value is not kept).
pub fn call_original_promise_resolve(state: &mut GlueState, _value: JSVal) -> (obj: u64)
    requires
        old(state).wf(),
        old(state).can_allocate(1),
        old(state)@.global_id is Some,
    ensures
        final(state).wf(),
        obj == old(state)@.next_handle,
        final(state)@ == after_new_promise(old(state)@, obj),
{
    new_promise_object(state)
}

/// Marking promises as handled is accepted and has no effect.
pub fn set_any_promise_is_handled(_obj: u64) -> (ok: bool)
    ensures
        ok,
{
    true
}

/// Every known promise counts as handled.
pub fn get_promise_is_handled(state: &GlueState, obj: u64) -> (b: bool)
    ensures
        b == (obj != 0 && state@.promise_states.contains_key(obj)),
{
    obj != 0 && state.promise_states.contains_key(&obj)
}

// ---------------------------------------------------------------------------
// Proxies
// ---------------------------------------------------------------------------

/// Registers `extra` for the proxy handler identified by `traps`, makes it
/// the most recent extra, and returns the handler (`traps` itself).
pub fn create_proxy_handler(state: &mut GlueState, traps: u64, extra: u64) -> (handler: u64)
    requires
        old(state).wf(),
    ensures
        final(state).wf(),
        handler == traps,
        final(state)@ == (GlueModel {
            proxy_handler_extras: old(state)@.proxy_handler_extras.insert(traps, extra),
            last_proxy_handler_extra: Some(extra),
            ..old(state)@
        }),
{
    state.proxy_handler_extras.insert(traps, extra);
    state.last_proxy_handler_extra = Some(extra);
    traps
}

/// The extra a proxy answers with: its own, else the most recent one
/// registered, else null.
pub open spec fn proxy_extra_of(m: GlueModel, proxy: u64) -> u64 {
    if m.proxy_object_extra.contains_key(proxy) {
        m.proxy_object_extra[proxy]
    } else {
        match m.last_proxy_handler_extra {
            Some(e) => e,
            None => 0,
        }
    }
}

/// The extra of proxy `proxy`.
pub fn get_proxy_handler_extra(state: &GlueState, proxy: u64) -> (e: u64)
    ensures
        e == proxy_extra_of(state@, proxy),
{
    match state.proxy_object_extra.get(&proxy) {
        Some(e) => *e,
        None => match state.last_proxy_handler_extra {
            Some(e) => e,
            None => 0,
        },
    }
}

/// The extra a new proxy with `handler` takes: the handler's own, else the
/// most recent one registered.
pub open spec fn handler_extra_of(m: GlueModel, handler: u64) -> Option<u64> {
    if m.proxy_handler_extras.contains_key(handler) {
        Some(m.proxy_handler_extras[handler])
    } else {
        m.last_proxy_handler_extra
    }
}

/// The model after creating proxy `obj` with `handler` and prototype
/// `proto`, before its prototype is set.
pub open spec fn after_new_proxy_object(m: GlueModel, obj: u64, handler: u64) -> GlueModel {
    let m1 = after_store_object(m, obj);
    GlueModel {
        object_classes: m1.object_classes.insert(obj, proxy_class()),
        proxy_object_extra: match handler_extra_of(m, handler) {
            Some(e) => m1.proxy_object_extra.insert(obj, e),
            None => m1.proxy_object_extra,
        },
        ..m1
    }
}

/// The model after creating proxy `obj`: a proxy-class object carrying its
/// handler's extra, recorded as the window proxy of `proto` when `proto` is
/// a DOM global, with `proto` as its prototype.
pub open spec fn after_new_proxy(m: GlueModel, obj: u64, handler: u64, proto: u64) -> GlueModel {
    let m1 = after_new_proxy_object(m, obj, handler);
    let m2 = if is_dom_global_spec(m1, proto) && proto != 0 {
        GlueModel {
            window_to_proxy: m1.window_to_proxy.insert(proto, obj),
            proxy_to_window: m1.proxy_to_window.insert(obj, proto),
            ..m1
        }
    } else {
        m1
    };
    after_set_prototype(m2, obj, proto)
}

/// Creates a proxy object for `handler` with prototype `proto`.  A proxy
/// whose prototype is a DOM global becomes that global's window proxy.
pub fn new_proxy_object(state: &mut GlueState, handler: u64, proto: u64, _flag: bool) -> (obj: u64)
    requires
        old(state).wf(),
        old(state).can_allocate(1),
        old(state)@.global_id is Some,
    ensures
        final(state).wf(),
        obj == old(state)@.next_handle,
        obj != 0,
        final(state)@ == after_new_proxy(old(state)@, obj, handler, proto),
{
    let extra = match state.proxy_handler_extras.get(&handler) {
        Some(e) => Some(*e),
        None => state.last_proxy_handler_extra,
    };
    let obj = js_new_object(state);
    state.object_classes.insert(obj, ClassRef::proxy());
    match extra {
        Some(e) => {
            state.proxy_object_extra.insert(obj, e);
        },
        None => {},
    }
    if is_dom_global(state, proto) {
        set_window_proxy(state, proto, obj);
    }
    set_prototype(state, obj, proto)
}

/// What calling a function value amounts to: the native callback to run,
/// the context to run it in, the argument count, and the values it gets
/// (`vp[0]` the return slot, `vp[1]` the callee, then the arguments).  The
/// embedder runs the callback and reads the result from `vp[0]`.
pub struct NativeCall {
    pub native: u64,
    pub cx: u64,
    pub argc: u32,
    pub vp: Vec<JSVal>,
}

/// Prepares calling `fun` with `args` in context `cx`: only a function
/// object with a native callback can be called; a null `cx` falls back to
/// the context the function was created in.  At most `u32::MAX` arguments
/// are passed.
pub fn call_function(state: &GlueState, cx: u64, fun: JSVal, args: &[JSVal]) -> (r: Option<NativeCall>)
    ensures
        ({
            let obj = fun.object_handle();
            if obj != 0 && state@.function_natives.contains_key(obj) {
                &&& r is Some
                &&& r.unwrap().native == state@.function_natives[obj]
                &&& r.unwrap().cx == if cx != 0 {
                    cx
                } else if state@.function_contexts.contains_key(obj) {
                    state@.function_contexts[obj]
                } else {
                    0
                }
                &&& r.unwrap().argc == clamp_u32(args@.len() as int)
                &&& r.unwrap().vp@ == seq![undefined_value(), object_value(obj)] + args@.take(
                    clamp_u32(args@.len() as int) as int,
                )
            } else {
                r is None
            }
        }),
{
    let obj = fun.to_object();
    if obj == 0 {
        return None;
    }
    let native = match state.function_natives.get(&obj) {
        Some(n) => *n,
        None => {
            return None;
        },
    };
    let argc = clamp_len(args.len());
    let mut vp: Vec<JSVal> = Vec::new();
    vp.push(JSVal::undefined());
    vp.push(JSVal::from_object(obj));
    let mut i: usize = 0;
    while i < argc as usize
        invariant
            argc as int <= args@.len(),
            i <= argc,
            vp@ == seq![undefined_value(), object_value(obj)] + args@.take(i as int),
        decreases argc - i,
    {
        vp.push(args[i]);
        i = i + 1;
        assert(vp@ =~= seq![undefined_value(), object_value(obj)] + args@.take(i as int));
    }
    let dispatch_cx = if cx != 0 {
        cx
    } else {
        match state.function_contexts.get(&obj) {
            Some(c) => *c,
            None => 0,
        }
    };
    Some(NativeCall { native, cx: dispatch_cx, argc, vp })
}

/// The bytes of string `s`, its text encoded in UTF-8; `None` for null or
/// an unknown string.
pub fn latin1_chars_and_len(state: &GlueState, s: u64) -> (r: Option<Vec<u8>>)
    ensures
        match text_of(state@, s) {
            Some(t) => r is Some && r.unwrap()@ == encode_utf8(t),
            None => r is None,
        },
{
    match string_text(state, s) {
        Some(t) => Some(slice_to_vec(t.as_str().as_bytes())),
        None => None,
    }
}

/// The UTF-16 code units of string `s`; `None` for null or an unknown
/// string.
pub fn two_byte_chars_and_len(state: &GlueState, s: u64) -> (r: Option<Vec<u16>>)
    ensures
        match text_of(state@, s) {
            Some(t) => r is Some && r.unwrap()@ == utf16_units(t),
            None => r is None,
        },
{
    match string_text(state, s) {
        Some(t) => Some(utf16_encode(t.as_str())),
        None => None,
    }
}

/// Proxy private data lives in reserved slots; there is nothing to do here.
pub fn get_proxy_private() {
}

/// Proxy private data lives in reserved slots; there is nothing to do here.
pub fn set_proxy_private() {
}

// ---------------------------------------------------------------------------
// Job queue, modules and regular expressions
// ---------------------------------------------------------------------------

/// Makes a job queue token: a fresh non-null handle.
pub fn create_job_queue(state: &mut GlueState) -> (q: u64)
    requires
        old(state).wf(),
        old(state).can_allocate(1),
    ensures
        final(state).wf(),
        q == old(state)@.next_handle,
        q != 0,
        final(state)@ == (GlueModel { next_handle: (q + 1) as u64, ..old(state)@ }),
{
    state.next_handle()
}

/// Releases a job queue token; nothing is kept for it.
pub fn delete_job_queue(_queue: u64) {
}

/// Module dynamic-import hooks are not supported; the hook is ignored.
pub fn set_module_dynamic_import_hook(_hook: u64) {
}

/// Module metadata hooks are not supported; the hook is ignored.
pub fn set_module_metadata_hook(_hook: u64) {
}

/// No module resolve hook is ever installed.
pub fn get_module_resolve_hook() -> (h: Option<u64>)
    ensures
        h is None,
{
    None
}

/// Module resolve hooks are not supported; the hook is ignored.
pub fn set_module_resolve_hook(_hook: u64) {
}

/// Module private-reference hooks are not supported; they are ignored.
pub fn set_module_private_reference_hooks(_get: u64, _set: u64) {
}

/// Modules have no requests: no specifier.
pub fn get_module_request_specifier(_module: u64, _index: u32) -> (s: u64)
    ensures
        s == 0,
{
    0
}

/// Modules have no requests: every request reads as JavaScript.
pub fn get_module_request_type(_module: u64, _index: u32) -> (t: ModuleType)
    ensures
        t == ModuleType::JavaScript,
{
    ModuleType::JavaScript
}

/// Modules have no requested modules: no specifier.
pub fn get_requested_module_specifier(_module: u64, _index: u32) -> (s: u64)
    ensures
        s == 0,
{
    0
}

/// Modules have no requested modules: every one reads as JavaScript.
pub fn get_requested_module_type(_module: u64, _index: u32) -> (t: ModuleType)
    ensures
        t == ModuleType::JavaScript,
{
    ModuleType::JavaScript
}

/// Modules have no requested modules.
pub fn get_requested_modules_count(_module: u64) -> (n: u32)
    ensures
        n == 0,
{
    0
}

/// No object is a cyclic module.
pub fn is_cyclic_module(_obj: u64) -> (b: bool)
    ensures
        !b,
{
    false
}

/// The private value of module `module`, or `undefined`.
pub fn get_module_private(state: &GlueState, module: u64) -> (v: JSVal)
    ensures
        v == if module != 0 && state@.module_privates.contains_key(module) {
            state@.module_privates[module]
        } else {
            undefined_value()
        },
{
    if module == 0 {
        return JSVal::undefined();
    }
    match state.module_privates.get(&module) {
        Some(v) => *v,
        None => JSVal::undefined(),
    }
}

/// Records `value` as the private value of `module`; null is ignored.
pub fn set_module_private(state: &mut GlueState, module: u64, value: JSVal)
    requires
        old(state).wf(),
    ensures
        final(state).wf(),
        module == 0 ==> final(state)@ == old(state)@,
        module != 0 ==> final(state)@ == (GlueModel {
            module_privates: old(state)@.module_privates.insert(module, value),
            ..old(state)@
        }),
{
    if module == 0 {
        return;
    }
    state.module_privates.insert(module, value);
}

/// Regular expression sources are accepted without a syntax check.
pub fn check_regexp_syntax(_source: &[u16]) -> (ok: bool)
    ensures
        ok,
{
    true
}

/// Regular expressions cannot be executed here: always fails.
pub fn execute_regexp_no_statics(_regexp: u64, _string: u64, _last_index: u32, _sticky: bool) -> (ok: bool)
    ensures
        !ok,
{
    false
}

/// No object is a regular expression: writes false and succeeds.
pub fn object_is_regexp(_obj: u64, out: &mut bool) -> (ok: bool)
    ensures
        ok,
        !*final(out),
{
    *out = false;
    true
}

// ---------------------------------------------------------------------------
// Scripts
// ---------------------------------------------------------------------------

/// Records `source` under a fresh id and returns the id.
pub fn store_source_text(state: &mut GlueState, source: &str) -> (id: u64)
    requires
        old(state).wf(),
        old(state).can_allocate(1),
    ensures
        final(state).wf(),
        id == old(state)@.next_handle,
        id != 0,
        final(state)@ == (GlueModel {
            next_handle: (id + 1) as u64,
            source_texts: old(state)@.source_texts.insert(id, source@),
            ..old(state)@
        }),
{
    let id = state.next_handle();
    let ghost m1 = state@;
    state.source_texts.insert(id, source.to_owned());
    proof {
        assert(text_view(state.source_texts@) =~= m1.source_texts.insert(id, source@));
    }
    id
}

/// Records a compiled script: when the engine accepted `source`
/// (`compiles`), a fresh script handle remembering the source; otherwise
/// null.  The engine's own compile check is made by the embedder.
pub fn compile_script(state: &mut GlueState, source: &str, compiles: bool) -> (script: u64)
    requires
        old(state).wf(),
        compiles ==> old(state).can_allocate(1),
    ensures
        final(state).wf(),
        !compiles ==> script == 0 && final(state)@ == old(state)@,
        compiles ==> script == old(state)@.next_handle && script != 0 && final(state)@ == (GlueModel {
            next_handle: (script + 1) as u64,
            script_sources: old(state)@.script_sources.insert(script, source@),
            ..old(state)@
        }),
{
    if !compiles {
        return 0;
    }
    let script = state.next_handle();
    let ghost m1 = state@;
    state.script_sources.insert(script, source.to_owned());
    proof {
        assert(text_view(state.script_sources@) =~= m1.script_sources.insert(script, source@));
    }
    script
}

/// The source a script handle was compiled from; `None` for null or an
/// unknown handle.  Running a script runs this source.
pub fn script_source(state: &GlueState, script: u64) -> (r: Option<String>)
    ensures
        match r {
            Some(t) => script != 0 && state@.script_sources.contains_key(script) && t@
                == state@.script_sources[script],
            None => script == 0 || !state@.script_sources.contains_key(script),
        },
{
    if script == 0 {
        return None;
    }
    match state.script_sources.get(&script) {
        Some(t) => Some(t.clone()),
        None => None,
    }
}

/// The source recorded under `id`, if any.
pub fn source_text_from_ptr(state: &GlueState, id: u64) -> (r: Option<String>)
    ensures
        match r {
            Some(t) => id != 0 && state@.source_texts.contains_key(id) && t@
                == state@.source_texts[id],
            None => id == 0 || !state@.source_texts.contains_key(id),
        },
{
    if id == 0 {
        return None;
    }
    match state.source_texts.get(&id) {
        Some(t) => Some(t.clone()),
        None => None,
    }
}

/// Records `value` as the private value of `script`; null is ignored.
pub fn set_script_private(state: &mut GlueState, script: u64, value: JSVal)
    requires
        old(state).wf(),
    ensures
        final(state).wf(),
        script == 0 ==> final(state)@ == old(state)@,
        script != 0 ==> final(state)@ == (GlueModel {
            script_privates: old(state)@.script_privates.insert(script, value),
            ..old(state)@
        }),
{
    if script == 0 {
        return;
    }
    state.script_privates.insert(script, value);
}

/// The private value of `script`, or `undefined`.
pub fn get_script_private(state: &GlueState, script: u64) -> (v: JSVal)
    ensures
        v == if script != 0 && state@.script_privates.contains_key(script) {
            state@.script_privates[script]
        } else {
            undefined_value()
        },
{
    if script == 0 {
        return JSVal::undefined();
    }
    match state.script_privates.get(&script) {
        Some(v) => *v,
        None => JSVal::undefined(),
    }
}

// ---------------------------------------------------------------------------
// Value types
// ---------------------------------------------------------------------------

/// The `typeof` class of a value.
pub open spec fn type_of_value(v: JSVal) -> JSType {
    if v.holds_undefined() {
        JSType::JSTYPE_UNDEFINED
    } else if v.holds_null() {
        JSType::JSTYPE_NULL
    } else if v.holds_boolean() {
        JSType::JSTYPE_BOOLEAN
    } else if v.holds_number() {
        JSType::JSTYPE_NUMBER
    } else if v.holds_string() {
        JSType::JSTYPE_STRING
    } else {
        JSType::JSTYPE_OBJECT
    }
}

/// The `typeof` class of `val`; anything that is not a primitive counts as
/// an object.
pub fn js_type_of_value(val: JSVal) -> (t: JSType)
    ensures
        t == type_of_value(val),
{
    if val.is_undefined() {
        JSType::JSTYPE_UNDEFINED
    } else if val.is_null() {
        JSType::JSTYPE_NULL
    } else if val.is_boolean() {
        JSType::JSTYPE_BOOLEAN
    } else if val.is_number() {
        JSType::JSTYPE_NUMBER
    } else if val.is_string() {
        JSType::JSTYPE_STRING
    } else {
        JSType::JSTYPE_OBJECT
    }
}

// ---------------------------------------------------------------------------
// JIT callbacks
// ---------------------------------------------------------------------------

/// JIT getters are not run; the caller falls back to the interpreted path.
pub fn call_jit_getter_op() -> (ok: bool)
    ensures
        !ok,
{
    false
}

/// JIT methods are not run; the caller falls back to the interpreted path.
pub fn call_jit_method_op() -> (ok: bool)
    ensures
        !ok,
{
    false
}

/// JIT setters are not run; the caller falls back to the interpreted path.
pub fn call_jit_setter_op() -> (ok: bool)
    ensures
        !ok,
{
    false
}

// ---------------------------------------------------------------------------
// Laws
// ---------------------------------------------------------------------------

/// A global that the current global handle resolves to is a DOM global.
proof fn lemma_creation_realm_is_dom_global(m: GlueModel)
    requires
        creation_realm(m) is Some,
    ensures
        is_dom_global_spec(m, creation_realm(m).unwrap()),
{
}

/// An object created while the current realm resolves to the global `g`
/// belongs to `g`: the glue reports `g` as its global (unless the new
/// handle or `g` itself was recorded as a window proxy beforehand).
pub proof fn law_new_object_belongs_to_creation_global(m: GlueModel, obj: u64)
    requires
        creation_realm(m) is Some,
        obj != 0,
        !m.object_classes.contains_key(obj),
        !m.proxy_to_window.contains_key(obj),
        !m.proxy_to_window.contains_key(creation_realm(m).unwrap()),
    ensures
        non_ccw_global_spec(after_store_object(m, obj), obj) == creation_realm(m).unwrap(),
{
    let g = creation_realm(m).unwrap();
    lemma_creation_realm_is_dom_global(m);
    let m2 = after_store_object(m, obj);
    assert(class_of(m2, obj) == proxy_class());
    assert(PROXY_CLASS_FLAGS & JSCLASS_IS_GLOBAL == 0) by (bit_vector);
    assert(!is_dom_global_spec(m2, obj));
    assert(realm_within(m2, obj, REALM_SEARCH_DEPTH as nat) == Some(g));
    assert(window_of(m2, g) == g);
    assert(is_dom_global_spec(m2, g));
}

/// A recorded window proxy stands for its window: the glue reports the
/// window as the proxy's global.
pub proof fn law_window_proxy_resolves_to_window(m: GlueModel, window: u64, proxy: u64)
    requires
        window != 0,
        proxy != 0,
    ensures
        non_ccw_global_spec(
            GlueModel {
                window_to_proxy: m.window_to_proxy.insert(window, proxy),
                proxy_to_window: m.proxy_to_window.insert(proxy, window),
                ..m
            },
            proxy,
        ) == window,
{
}

/// A proxy created with a DOM global as its prototype is that global's
/// window proxy.
pub proof fn law_proxy_of_global_is_window_proxy(m: GlueModel, obj: u64, handler: u64, global: u64)
    requires
        obj != 0,
        global != 0,
        global != obj,
        is_dom_global_spec(m, global),
    ensures
        after_new_proxy(m, obj, handler, global).proxy_to_window[obj] == global,
        non_ccw_global_spec(after_new_proxy(m, obj, handler, global), obj) == global,
{
    let m1 = after_new_proxy_object(m, obj, handler);
    assert(class_of(m1, global) == class_of(m, global));
}

/// Leaving a realm with what entering it returned restores the realm that
/// was current before.
pub proof fn law_leave_restores_entered_realm(m: GlueModel, global: u64)
    requires
        m.current_global_ptr == match m.current_global_handle {
            Some(g) => g,
            None => 0,
        },
    ensures
        ({
            let entered = if window_of(m, global) == 0 {
                m
            } else {
                GlueModel {
                    current_global_handle: Some(window_of(m, global)),
                    current_global_ptr: window_of(m, global),
                    ..m
                }
            };
            GlueModel {
                current_global_handle: m.current_global_handle,
                current_global_ptr: match m.current_global_handle {
                    Some(g) => g,
                    None => 0,
                },
                ..entered
            } == m
        }),
{
}

/// An object without a realm of its own that is given a prototype with a
/// realm takes that realm.
pub proof fn law_object_inherits_realm_of_prototype(m: GlueModel, obj: u64, proto: u64)
    requires
        obj != 0,
        proto != 0,
        m.object_realms.contains_key(proto),
        !m.object_realms.contains_key(obj),
    ensures
        object_realm_spec(after_set_prototype(m, obj, proto), obj) == Some(m.object_realms[proto]),
{
}

/// A property reads back as the value last stored under its name, and
/// storing it leaves every other property as it was.
pub proof fn law_property_read_after_write(m: GlueModel, obj: u64, name: Seq<char>, v: JSVal, obj2: u64, name2: Seq<char>)
    ensures
        property_of(after_set_property(m, obj, name, v), obj, name) == Some(v),
        (obj2, name2) != (obj, name) ==> property_of(after_set_property(m, obj, name, v), obj2, name2)
            == property_of(m, obj2, name2),
{
}

/// An array element reads back as the value last stored at its index;
/// other elements keep their values (or read as `undefined` when the array
/// grew past them), and "length" follows the new element count.
pub proof fn law_array_element_read_after_write(m: GlueModel, obj: u64, i: nat, v: JSVal, j: nat)
    requires
        m.arrays.contains_key(obj),
    ensures
        ({
            let m2 = after_set_element(m, obj, i, v);
            let old_elems = m.arrays[obj];
            &&& m2.arrays[obj][i as int] == v
            &&& m2.arrays[obj].len() == if i < old_elems.len() {
                old_elems.len()
            } else {
                i + 1
            }
            &&& (j != i && j < old_elems.len() ==> m2.arrays[obj][j as int] == old_elems[j as int])
            &&& (j != i && old_elems.len() <= j < i ==> m2.arrays[obj][j as int] == undefined_value())
            &&& property_of(m2, obj, "length"@) == Some(length_value(m2.arrays[obj].len()))
        }),
{
}

/// A reserved slot reads back as the value last stored in it; other slots
/// of the object keep their values or read as `undefined`.
pub proof fn law_reserved_slot_read_after_write(m: GlueModel, obj: u64, slot: nat, v: JSVal, other: nat)
    requires
        obj != 0,
    ensures
        ({
            let m2 = GlueModel {
                reserved_slots: m.reserved_slots.insert(obj, slots_after_set(m, obj, slot, v)),
                ..m
            };
            &&& slot_value(m2, obj, slot) == v
            &&& (other != slot ==> slot_value(m2, obj, other) == slot_value(m, obj, other))
        }),
{
}

/// A clone of part of a live buffer holds exactly the bytes of that part,
/// under a handle of its own; the source buffer keeps its bytes and stays
/// live.
pub proof fn law_clone_holds_the_range(m: GlueModel, obj: u64, offset: usize, len: usize, h: u64)
    requires
        clone_succeeds(m, obj, offset, len),
        h != 0,
        h != obj,
    ensures
        ({
            let m2 = after_new_buffer(m, h, m.array_buffers[obj].subrange(offset as int, offset + len));
            &&& buffer_len_of(m2, h) == len
            &&& forall|k: int|
                0 <= k < len ==> #[trigger] m2.array_buffers[h][k] == m.array_buffers[obj][offset + k]
            &&& m2.array_buffers[obj] == m.array_buffers[obj]
            &&& is_live_buffer(m2, obj)
        }),
{
}

/// A detached buffer can no longer be cloned or viewed.
pub proof fn law_detached_buffer_is_not_live(m: GlueModel, obj: u64, offset: usize, len: usize, off2: usize, l2: i64, ty: Type)
    requires
        obj != 0,
        m.array_buffers.contains_key(obj),
    ensures
        ({
            let m2 = GlueModel { detached_buffers: m.detached_buffers.insert(obj), ..m };
            &&& !clone_succeeds(m2, obj, offset, len)
            &&& !view_succeeds(m2, obj, off2, l2, ty)
        }),
{
}

/// A view that can be made lies inside its buffer: the bytes it covers are
/// exactly its range of the buffer.
pub proof fn law_view_lies_inside_its_buffer(m: GlueModel, buffer: u64, offset: usize, len: i64, ty: Type, h: u64)
    requires
        view_succeeds(m, buffer, offset, len, ty),
        m.array_buffers[buffer].len() <= usize::MAX,
        h != buffer,
    ensures
        ({
            let bl = view_byte_len(buffer_len_of(m, buffer), offset, len, element_size(ty).unwrap());
            let m2 = after_new_view(
                m,
                h,
                ArrayView { buffer, byte_offset: offset, byte_length: bl as usize, element_type: ty },
            );
            view_bytes(m2, h) == m.array_buffers[buffer].subrange(offset as int, offset + bl)
        }),
{
}

/// Settling a promise records its outcome, and a settled promise is still
/// a (handled) promise.
pub proof fn law_promise_settlement(m: GlueModel, p: u64, st: PromiseState)
    requires
        p != 0,
    ensures
        ({
            let m2 = GlueModel { promise_states: m.promise_states.insert(p, st), ..m };
            &&& m2.promise_states[p] == st
            &&& m2.promise_states.contains_key(p)
        }),
{
}

/// The current global handle, if a realm was entered.
pub fn current_global_handle(state: &GlueState) -> (g: Option<u64>)
    ensures
        g == state@.current_global_handle,
{
    state.current_global_handle
}


/// Looking deeper along the prototype chain finds whatever a shallower
/// search found.
proof fn lemma_realm_within_deeper(m: GlueModel, obj: u64, d: nat, e: nat)
    requires
        d <= e,
        realm_within(m, obj, d) is Some,
    ensures
        realm_within(m, obj, e) == realm_within(m, obj, d),
    decreases d,
{
    if d > 0 && !m.object_realms.contains_key(obj) {
        let proto = prototype_of(m, obj);
        lemma_realm_within_deeper(m, proto, (d - 1) as nat, (e - 1) as nat);
    }
}

/// An object with no realm of its own belongs to the global its prototype
/// chain leads to: when the realm `g` is found on the chain of its
/// prototype within the search depth, the glue reports `g` as its global,
/// whichever realm is current and also once every realm has been left.
pub proof fn law_realm_found_through_prototype_chain(m: GlueModel, obj: u64, proto: u64, g: u64, d: nat)
    requires
        obj != 0,
        proto != 0,
        proto != obj,
        !m.object_realms.contains_key(obj),
        prototype_of(m, obj) == proto,
        d < REALM_SEARCH_DEPTH,
        realm_within(m, proto, d) == Some(g),
        g != 0,
        is_dom_global_spec(m, g),
        !is_dom_global_spec(m, obj),
        !m.proxy_to_window.contains_key(obj),
        !m.proxy_to_window.contains_key(g),
    ensures
        object_realm_spec(m, obj) == Some(g),
        non_ccw_global_spec(m, obj) == g,
        non_ccw_global_spec(GlueModel { current_global_handle: None, current_global_ptr: 0, ..m }, obj) == g,
{
    lemma_realm_within_deeper(m, proto, d, (REALM_SEARCH_DEPTH - 1) as nat);
    assert(realm_within(m, obj, REALM_SEARCH_DEPTH as nat) == realm_within(
        m,
        proto,
        (REALM_SEARCH_DEPTH - 1) as nat,
    ));
    assert(window_of(m, g) == g);
    let left = GlueModel { current_global_handle: None, current_global_ptr: 0, ..m };
    assert(realm_within(left, proto, d) == realm_within(m, proto, d)) by {
        lemma_realm_within_same_links(m, left, proto, d);
    }
    lemma_realm_within_deeper(left, proto, d, (REALM_SEARCH_DEPTH - 1) as nat);
    assert(window_of(left, g) == g);
}

/// Two models with the same recorded realms, prototypes and classes find
/// the same realm along a prototype chain.
proof fn lemma_realm_within_same_links(m: GlueModel, n: GlueModel, obj: u64, d: nat)
    requires
        n.object_realms == m.object_realms,
        n.prototypes == m.prototypes,
    ensures
        realm_within(n, obj, d) == realm_within(m, obj, d),
    decreases d,
{
    if d > 0 && !m.object_realms.contains_key(obj) {
        lemma_realm_within_same_links(m, n, prototype_of(m, obj), (d - 1) as nat);
    }
}

/// An object created while the realm of a window proxy is entered belongs
/// to the proxy's window, also after the realm is left; and the proxy
/// itself resolves to its window.
pub proof fn law_window_proxy_realm_creates_in_window(m: GlueModel, w: u64, p: u64, o: u64)
    requires
        w != 0,
        p != 0,
        o != 0,
        p != w,
        o != w,
        o != p,
        is_dom_global_spec(m, w),
        !m.proxy_to_window.contains_key(w),
        !m.proxy_to_window.contains_key(o),
        !m.object_classes.contains_key(o),
    ensures
        ({
            let m1 = GlueModel {
                window_to_proxy: m.window_to_proxy.insert(w, p),
                proxy_to_window: m.proxy_to_window.insert(p, w),
                ..m
            };
            let m2 = GlueModel {
                current_global_handle: Some(window_of(m1, p)),
                current_global_ptr: window_of(m1, p),
                ..m1
            };
            let m3 = after_store_object(m2, o);
            let m4 = GlueModel { current_global_handle: None, current_global_ptr: 0, ..m3 };
            &&& window_of(m1, p) == w
            &&& creation_realm(m2) == Some(w)
            &&& non_ccw_global_spec(m4, o) == w
            &&& non_ccw_global_spec(m4, p) == w
            &&& non_ccw_global_spec(m4, 0) == 0
        }),
{
    let m1 = GlueModel {
        window_to_proxy: m.window_to_proxy.insert(w, p),
        proxy_to_window: m.proxy_to_window.insert(p, w),
        ..m
    };
    let m2 = GlueModel {
        current_global_handle: Some(window_of(m1, p)),
        current_global_ptr: window_of(m1, p),
        ..m1
    };
    assert(window_of(m1, p) == w);
    assert(window_of(m2, w) == w);
    assert(class_of(m2, w) == class_of(m, w));
    assert(resolve_object_global_spec(m2, w) == w);
    assert(creation_realm(m2) == Some(w));
    let m3 = after_store_object(m2, o);
    let m4 = GlueModel { current_global_handle: None, current_global_ptr: 0, ..m3 };
    assert(class_of(m4, o) == proxy_class());
    assert(PROXY_CLASS_FLAGS & JSCLASS_IS_GLOBAL == 0) by (bit_vector);
    assert(!is_dom_global_spec(m4, o));
    assert(m4.object_realms[o] == w);
    assert(realm_within(m4, o, REALM_SEARCH_DEPTH as nat) == Some(w));
    assert(window_of(m4, w) == w);
    assert(class_of(m4, w) == class_of(m, w));
    assert(is_dom_global_spec(m4, w));
}

/// A typed array made over a buffer describes exactly the view asked for:
/// its buffer, offset, byte length (the rest of the buffer for a negative
/// length, else the element count times the element size) and element
/// type; its length in elements is its byte length over the element size.
pub proof fn law_new_typed_array_describes_its_view(m: GlueModel, buffer: u64, offset: usize, len: i64, ty: Type, h: u64)
    requires
        view_succeeds(m, buffer, offset, len, ty),
        m.array_buffers[buffer].len() <= usize::MAX,
    ensures
        ({
            let size = element_size(ty).unwrap();
            let bl = view_byte_len(buffer_len_of(m, buffer), offset, len, size);
            let v = ArrayView { buffer, byte_offset: offset, byte_length: bl as usize, element_type: ty };
            let m2 = after_new_view(m, h, v);
            &&& view_of(m2, h) == Some(v)
            &&& size > 0
            &&& (v.byte_length as nat) / size == bl / (size as int)
            &&& offset + bl <= buffer_len_of(m, buffer)
        }),
{
}


/// The source text of a string value is the text of the string it refers
/// to, so rendering a string gives a new string holding the same text.
pub proof fn law_string_source_is_its_text(m: GlueModel, v: JSVal, t: Seq<char>, h: u64)
    requires
        v.holds_string(),
        text_of(m, v.string_handle()) == Some(t),
        h != 0,
    ensures
        source_text(m, v) == t,
        text_of(after_store_string(m, h, source_text(m, v)), h) == Some(t),
{
    let b = v.asBits_;
    assert(b & 0xff00_0000_0000_0000u64 == 0x0500_0000_0000_0000u64 ==> b != 0u64
        && b != 0x0100_0000_0000_0000u64 && b != 0x0200_0000_0000_0000u64
        && b != 0x0300_0000_0000_0000u64) by (bit_vector);
}

/// A string handle carried in a value renders as that string's text.
pub proof fn law_string_value_source_is_its_text(m: GlueModel, s: u64, t: Seq<char>)
    requires
        crate::jsval::fits_jsval_payload(s),
        text_of(m, s) == Some(t),
    ensures
        source_text(m, string_value(s)) == t,
{
    crate::jsval::law_string_value_roundtrip(s);
    law_string_source_is_its_text(m, string_value(s), t, 1);
}

/// An object that belongs to no global through a window proxy, its own
/// class or a realm on its prototype chain is reported as belonging to the
/// current global when that is a DOM global, and as itself otherwise; so
/// entering the realm of a DOM global `g` makes such an object report `g`.
pub proof fn law_object_without_realm_falls_back_to_current_global(m: GlueModel, obj: u64, g: u64)
    requires
        obj != 0,
        !m.proxy_to_window.contains_key(obj),
        !is_dom_global_spec(m, obj),
        object_realm_spec(m, obj) is None,
    ensures
        m.current_global_ptr != 0 && is_dom_global_spec(m, m.current_global_ptr) ==> non_ccw_global_spec(m, obj)
            == m.current_global_ptr,
        !(m.current_global_ptr != 0 && is_dom_global_spec(m, m.current_global_ptr)) ==> non_ccw_global_spec(
            m,
            obj,
        ) == obj,
        g != 0 && is_dom_global_spec(m, g) ==> non_ccw_global_spec(
            GlueModel { current_global_handle: Some(g), current_global_ptr: g, ..m },
            obj,
        ) == g,
{
    let m2 = GlueModel { current_global_handle: Some(g), current_global_ptr: g, ..m };
    assert(realm_within(m2, obj, REALM_SEARCH_DEPTH as nat) == realm_within(m, obj, REALM_SEARCH_DEPTH as nat)) by {
        lemma_realm_within_same_links(m, m2, obj, REALM_SEARCH_DEPTH as nat);
    }
    assert(window_of(m, obj) == obj);
    assert(class_of(m2, obj) == class_of(m, obj));
    assert(class_of(m2, g) == class_of(m, g));
}


/// Rendering a value gives the source text its kind calls for, and agrees
/// with its `typeof` class: `undefined`, `null`, `true`/`false`, the decimal
/// digits of an integer, a string's own text, and `[object Object]` for an
/// object.
pub proof fn law_source_text_follows_the_value_kind(m: GlueModel, b: bool, i: i32, obj: u64, s: u64, t: Seq<char>)
    requires
        crate::jsval::fits_jsval_payload(obj),
        crate::jsval::fits_jsval_payload(s),
        text_of(m, s) == Some(t),
    ensures
        source_text(m, undefined_value()) == "undefined"@ && type_of_value(undefined_value()) == JSType::JSTYPE_UNDEFINED,
        source_text(m, crate::jsval::null_value()) == "null"@ && type_of_value(crate::jsval::null_value()) == JSType::JSTYPE_NULL,
        source_text(m, crate::jsval::bool_value(b)) == (if b { "true"@ } else { "false"@ })
            && type_of_value(crate::jsval::bool_value(b)) == JSType::JSTYPE_BOOLEAN,
        source_text(m, int32_value(i)) == decimal_text(i as int) && type_of_value(int32_value(i)) == JSType::JSTYPE_NUMBER,
        source_text(m, object_value(obj)) == "[object Object]"@ && type_of_value(object_value(obj)) == JSType::JSTYPE_OBJECT,
        source_text(m, string_value(s)) == t && type_of_value(string_value(s)) == JSType::JSTYPE_STRING,
{
    crate::jsval::law_constants_are_distinct(b);
    crate::jsval::law_int32_value_roundtrip(i);
    crate::jsval::law_object_value_roundtrip(obj);
    crate::jsval::law_string_value_roundtrip(s);
    law_string_value_source_is_its_text(m, s, t);
    let ib = int32_value(i).asBits_;
    let iu = (i as u32) as u64;
    assert(ib == 0x0700_0000_0000_0000u64 | iu);
    assert(iu <= 0xffff_ffffu64 ==> (0x0700_0000_0000_0000u64 | iu) & 0xff00_0000_0000_0000u64
        == 0x0700_0000_0000_0000u64) by (bit_vector);
    assert(ib & 0xff00_0000_0000_0000u64 == 0x0700_0000_0000_0000u64 ==> ib != 0x0100_0000_0000_0000u64
        && ib != 0x0200_0000_0000_0000u64 && ib != 0x0300_0000_0000_0000u64) by (bit_vector);
    let ob = object_value(obj).asBits_;
    assert(ob & 0xff00_0000_0000_0000u64 == 0x0400_0000_0000_0000u64 ==> ob != 0x0200_0000_0000_0000u64
        && ob != 0x0300_0000_0000_0000u64) by (bit_vector);
    let sb = string_value(s).asBits_;
    assert(sb & 0xff00_0000_0000_0000u64 == 0x0500_0000_0000_0000u64 ==> sb != 0u64
        && sb != 0x0100_0000_0000_0000u64 && sb != 0x0200_0000_0000_0000u64
        && sb != 0x0300_0000_0000_0000u64) by (bit_vector);
}

} // verus!
