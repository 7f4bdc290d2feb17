use soliloquy_js::descriptor::{PropertyDescriptor, JSPROP_ENUMERATE};
use soliloquy_js::jsval::{jsid, JSVal};
use soliloquy_js::types::{ClassRef, PromiseState, Type, JSCLASS_IS_DOMJSCLASS, JSCLASS_IS_GLOBAL};
use soliloquy_js::v8_glue::{
    array_buffer_len, array_length, array_view_bytes, array_view_byte_length, atomize_string_n,
    clone_array_buffer, create_dom_global, detach_array_buffer, get_array_element,
    get_promise_state, get_property_by_jsid, get_property_by_name, get_property_descriptor_by_jsid,
    get_property_keys, get_reserved_slot, has_latin1_chars, has_own_property_by_id,
    id_to_string, id_to_value, is_array_object, js_new_object, js_type_of_value,
    link_constructor_and_prototype, linear_string_char_at, new_array_buffer_with_bytes,
    new_array_object, new_promise_object, new_typed_array_from_bytes, new_typed_array_with_buffer,
    reject_promise, resolve_promise, set_array_element, set_property, set_property_by_jsid,
    set_reserved_slot, string_len, string_text, typed_array_length, value_to_source, GlueState,
};
use soliloquy_js::jsval::JSType;

fn ready_state() -> GlueState {
    let mut state = GlueState::new();
    create_dom_global(&mut state, ClassRef { addr: 0x1000, flags: JSCLASS_IS_DOMJSCLASS | JSCLASS_IS_GLOBAL });
    state
}

#[test]
fn property_reads_back_what_was_written() {
    let mut state = ready_state();
    let obj = js_new_object(&mut state);
    assert!(set_property(&mut state, obj, "answer", JSVal::from_int32(42)));
    assert_eq!(get_property_by_name(&state, obj, Some("answer")), Some(JSVal::from_int32(42)));
    assert_eq!(get_property_by_name(&state, obj, Some("other")), None);
    assert_eq!(get_property_by_name(&state, obj, None), None);
    assert!(!set_property(&mut state, 0, "answer", JSVal::null()));
}

#[test]
fn array_elements_grow_with_undefined_and_update_length() {
    let mut state = ready_state();
    let arr = new_array_object(&mut state, vec![JSVal::from_int32(1)]);
    assert!(is_array_object(&state, arr));
    assert_eq!(array_length(&state, arr), 1);
    assert_eq!(get_property_by_name(&state, arr, Some("length")), Some(JSVal::from_uint32(1)));
    assert!(set_array_element(&mut state, arr, 3, JSVal::from_bool(true)));
    assert_eq!(array_length(&state, arr), 4);
    assert_eq!(get_array_element(&state, arr, 2), Some(JSVal::undefined()));
    assert_eq!(get_array_element(&state, arr, 3), Some(JSVal::from_bool(true)));
    assert_eq!(get_array_element(&state, arr, 4), None);
    assert_eq!(get_property_by_name(&state, arr, Some("length")), Some(JSVal::from_uint32(4)));
    let plain = js_new_object(&mut state);
    assert!(!set_array_element(&mut state, plain, 0, JSVal::null()));
}

#[test]
fn integer_ids_address_elements_and_string_ids_names() {
    let mut state = ready_state();
    let arr = new_array_object(&mut state, vec![]);
    assert!(set_property_by_jsid(&mut state, arr, jsid::from_int(0), JSVal::from_int32(5)));
    assert_eq!(get_property_by_jsid(&state, arr, jsid::from_int(0)), Some(JSVal::from_int32(5)));
    let name = atomize_string_n(&mut state, Some("color".as_bytes()));
    let id = jsid::from_string(name);
    assert!(set_property_by_jsid(&mut state, arr, id, JSVal::from_int32(9)));
    assert_eq!(get_property_by_name(&state, arr, Some("color")), Some(JSVal::from_int32(9)));
    assert!(has_own_property_by_id(&state, arr, id));
    assert!(has_own_property_by_id(&state, arr, jsid::from_int(0)));
    assert!(!has_own_property_by_id(&state, arr, jsid::from_int(1)));
}

#[test]
fn property_keys_list_indices_then_names_in_order() {
    let mut state = ready_state();
    let arr = new_array_object(&mut state, vec![JSVal::null(), JSVal::null()]);
    assert!(set_property(&mut state, arr, "b", JSVal::null()));
    assert!(set_property(&mut state, arr, "a", JSVal::null()));
    let mut ids = Vec::new();
    assert!(get_property_keys(&mut state, arr, &mut ids));
    assert_eq!(ids.len(), 5);
    assert_eq!(ids[0], jsid::from_int(0));
    assert_eq!(ids[1], jsid::from_int(1));
    let names: Vec<String> = ids[2..].iter().map(|id| string_text(&state, id.to_string()).unwrap()).collect();
    assert_eq!(names, vec!["length".to_string(), "b".to_string(), "a".to_string()]);
}

#[test]
fn descriptors_describe_stored_values() {
    let mut state = ready_state();
    let obj = js_new_object(&mut state);
    assert!(set_property(&mut state, obj, "x", JSVal::from_int32(1)));
    let name = atomize_string_n(&mut state, Some("x".as_bytes()));
    let mut desc = PropertyDescriptor::default();
    let is_none = get_property_descriptor_by_jsid(&state, obj, jsid::from_string(name), &mut desc);
    assert!(!is_none);
    assert_eq!(desc.value(), JSVal::from_int32(1));
    assert!(desc.hasValue_());
    assert!(desc.enumerable_());
    assert_eq!(desc.attrs, JSPROP_ENUMERATE);
    let missing = atomize_string_n(&mut state, Some("y".as_bytes()));
    assert!(get_property_descriptor_by_jsid(&state, obj, jsid::from_string(missing), &mut desc));
    assert!(!desc.hasValue_());
}

#[test]
fn strings_measure_utf16_and_latin1() {
    let mut state = ready_state();
    let s = atomize_string_n(&mut state, Some("é😀".as_bytes()));
    assert_eq!(string_len(&state, s), 3);
    assert_eq!(linear_string_char_at(&state, s, 0), 0xe9);
    assert_eq!(linear_string_char_at(&state, s, 1), 0xd83d);
    assert_eq!(linear_string_char_at(&state, s, 3), 0);
    assert!(!has_latin1_chars(&state, s));
    let t = atomize_string_n(&mut state, Some("abc".as_bytes()));
    assert!(has_latin1_chars(&state, t));
    assert_eq!(atomize_string_n(&mut state, Some(&[0xff, 0xfe])), 0);
    assert_eq!(atomize_string_n(&mut state, None), 0);
}

#[test]
fn ids_turn_into_strings_and_values() {
    let mut state = ready_state();
    let s = id_to_string(&mut state, jsid::from_int(-12));
    assert_eq!(string_text(&state, s), Some("-12".to_string()));
    let mut v = JSVal::undefined();
    assert!(id_to_value(jsid::from_int(7), &mut v));
    assert_eq!(v, JSVal::from_int32(7));
    assert!(!id_to_value(soliloquy_js::jsval::jsid(0), &mut v));
    assert_eq!(v, JSVal::from_int32(7));
}

#[test]
fn values_render_their_source() {
    let mut state = ready_state();
    let cases = [
        (JSVal::undefined(), "undefined"),
        (JSVal::null(), "null"),
        (JSVal::from_bool(true), "true"),
        (JSVal::from_int32(-5), "-5"),
        (JSVal::from_uint32(4_000_000_000), "4000000000"),
    ];
    for (value, text) in cases {
        let s = value_to_source(&mut state, value);
        assert_eq!(string_text(&state, s), Some(text.to_string()));
    }
    let obj = js_new_object(&mut state);
    let s = value_to_source(&mut state, JSVal::from_object(obj));
    assert_eq!(string_text(&state, s), Some("[object Object]".to_string()));
    assert_eq!(js_type_of_value(JSVal::from_int32(1)), JSType::JSTYPE_NUMBER);
    assert_eq!(js_type_of_value(JSVal::null()), JSType::JSTYPE_NULL);
}

#[test]
fn buffers_clone_ranges_and_refuse_when_detached() {
    let mut state = ready_state();
    let buf = new_array_buffer_with_bytes(&mut state, &[1, 2, 3, 4, 5]);
    assert_eq!(array_buffer_len(&state, buf), 5);
    let copy = clone_array_buffer(&mut state, buf, 1, 3);
    assert_ne!(copy, 0);
    assert_eq!(array_view_bytes(&state, copy), vec![2, 3, 4]);
    assert_ne!(copy, buf);
    assert_eq!(array_view_bytes(&state, buf), vec![1, 2, 3, 4, 5]);
    assert_eq!(clone_array_buffer(&mut state, buf, 4, 2), 0);
    assert!(detach_array_buffer(&mut state, buf));
    assert_eq!(clone_array_buffer(&mut state, buf, 0, 1), 0);
}

#[test]
fn typed_arrays_stay_inside_their_buffer() {
    let mut state = ready_state();
    let buf = new_array_buffer_with_bytes(&mut state, &[0, 1, 2, 3, 4, 5, 6, 7]);
    let view = new_typed_array_with_buffer(&mut state, buf, 2, 4, Type::Uint16);
    assert_eq!(view, 0);
    let view = new_typed_array_with_buffer(&mut state, buf, 2, 2, Type::Uint16);
    assert_ne!(view, 0);
    assert_eq!(array_view_byte_length(&state, view), 4);
    assert_eq!(typed_array_length(&state, view), 2);
    assert_eq!(array_view_bytes(&state, view), vec![2, 3, 4, 5]);
    let rest = new_typed_array_with_buffer(&mut state, buf, 3, -1, Type::Uint8);
    assert_eq!(array_view_bytes(&state, rest), vec![3, 4, 5, 6, 7]);
    assert_eq!(new_typed_array_with_buffer(&mut state, buf, 0, 1, Type::Int64), 0);
    let whole = new_typed_array_from_bytes(&mut state, &[9, 8], Type::Uint8);
    assert_eq!(array_view_bytes(&state, whole), vec![9, 8]);
}

#[test]
fn promises_settle() {
    let mut state = ready_state();
    let p = new_promise_object(&mut state);
    assert_eq!(get_promise_state(&state, p), PromiseState::Pending);
    assert!(resolve_promise(&mut state, p, JSVal::undefined()));
    assert_eq!(get_promise_state(&state, p), PromiseState::Fulfilled);
    assert!(reject_promise(&mut state, p, JSVal::undefined()));
    assert_eq!(get_promise_state(&state, p), PromiseState::Rejected);
    assert!(!resolve_promise(&mut state, 0, JSVal::undefined()));
}

#[test]
fn reserved_slots_read_back() {
    let mut state = ready_state();
    let obj = js_new_object(&mut state);
    set_reserved_slot(&mut state, obj, 2, JSVal::from_int32(3));
    assert_eq!(get_reserved_slot(&state, obj, 2), JSVal::from_int32(3));
    assert_eq!(get_reserved_slot(&state, obj, 0), JSVal::undefined());
    assert_eq!(get_reserved_slot(&state, obj, 9), JSVal::undefined());
}

#[test]
fn constructors_and_prototypes_link_both_ways() {
    let mut state = ready_state();
    let ctor = js_new_object(&mut state);
    let proto = js_new_object(&mut state);
    assert!(link_constructor_and_prototype(&mut state, ctor, proto));
    assert_eq!(get_property_by_name(&state, ctor, Some("prototype")), Some(JSVal::from_object(proto)));
    assert_eq!(get_property_by_name(&state, proto, Some("constructor")), Some(JSVal::from_object(ctor)));
    assert!(!link_constructor_and_prototype(&mut state, 0, proto));
}

#[test]
fn script_private_roundtrip() {
    let mut state = ready_state();
    let script = soliloquy_js::v8_glue::compile_script(&mut state, "0", true);
    assert_ne!(script, 0);
    soliloquy_js::v8_glue::set_script_private(&mut state, script, JSVal::from_int32(7));
    assert_eq!(soliloquy_js::v8_glue::get_script_private(&state, script).to_int32(), 7);
    assert_eq!(
        soliloquy_js::v8_glue::script_source(&state, script),
        Some("0".to_string())
    );
    assert_eq!(soliloquy_js::v8_glue::compile_script(&mut state, "(", false), 0);
}

#[test]
fn numbers_read_back_as_integers() {
    assert_eq!(JSVal::from_int32(-5).number_value(), -5);
    assert_eq!(JSVal::from_uint32(4_000_000_000).number_value(), 4_000_000_000);
    assert_eq!(JSVal::from_bool(true).number_value(), 0);
    assert_eq!(JSVal::undefined().number_value(), 0);
}

#[test]
fn for_of_visits_nothing_and_succeeds() {
    let result: Result<(), soliloquy_js::runtime::ForOfIterationFailure<()>> =
        soliloquy_js::runtime::for_of(JSVal::undefined(), |_: JSVal| ());
    assert!(result.is_ok());
    let mut ran = false;
    soliloquy_js::runtime::wrap_panic(|| ran = true);
    assert!(ran);
}

#[test]
fn heap_cells_read_back_what_they_hold() {
    let mut cell = soliloquy_js::gc::Heap::new(5u32);
    assert_eq!(cell.get(), 5);
    cell.set(9);
    assert_eq!(cell.get(), 9);
    assert_eq!(soliloquy_js::gc::Heap::<u32>::default().get(), 0);
    assert_eq!(soliloquy_js::gc::Heap::boxed(-3i64).get(), -3);
    assert_eq!(soliloquy_js::gc::Heap::<JSVal>::default().get(), JSVal::undefined());
    let mut value = soliloquy_js::gc::Heap::new(JSVal::from_int32(1));
    value.set(JSVal::from_bool(true));
    assert_eq!(value.get(), JSVal::from_bool(true));
    assert_eq!(soliloquy_js::gc::Heap::<u64>::default().get(), 0);
    assert!(!soliloquy_js::gc::Heap::<bool>::default().get());
}
