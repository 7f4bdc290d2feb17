use soliloquy_js::descriptor::ObjectOpResult;
use soliloquy_js::glue::RustJSPrincipals;
use soliloquy_js::jsapi::{
    Call, DefineFunctionWithReserved, ESClass, GetArrayLength, GetBuiltinClass,
    JS_AtomizeAndPinString, JS_DefineFunctions, JS_GetProperty, JS_GetScriptPrivate,
    JS_NewGlobalObject, JS_SetImmutablePrototype, JS_SetProperty, NewArrayObject, NewWindowProxy,
    ObjectIsDate, ObjectIsRegExp, SetPropertyIgnoringNamedGetter, transform_str_to_source_text,
    transform_u16_to_source_text,
};
use soliloquy_js::jsval::{jsid, JSVal, ObjectOrNullValue};
use soliloquy_js::runtime::JSFunctionSpec;
use soliloquy_js::types::{ClassRef, JSCLASS_IS_DOMJSCLASS, JSCLASS_IS_GLOBAL};
use soliloquy_js::v8_glue::{
    call_function, compile_script, get_function_object, get_property_by_name, is_window_proxy,
    js_new_function, js_new_object, latin1_chars_and_len, set_script_private,
    source_text_from_ptr, string_text, two_byte_chars_and_len, GlueState,
};

fn ready_state() -> GlueState {
    let mut state = GlueState::new();
    let global = JS_NewGlobalObject(
        &mut state,
        ClassRef { addr: 0x2000, flags: JSCLASS_IS_DOMJSCLASS | JSCLASS_IS_GLOBAL },
    );
    assert_ne!(global, 0);
    state
}

#[test]
fn get_property_reads_undefined_for_missing_names() {
    let mut state = ready_state();
    let obj = js_new_object(&mut state);
    assert!(JS_SetProperty(&mut state, obj, Some("x"), JSVal::from_int32(5)));
    assert!(!JS_SetProperty(&mut state, obj, None, JSVal::from_int32(5)));
    assert!(!JS_SetProperty(&mut state, 0, Some("x"), JSVal::from_int32(5)));
    let mut vp = JSVal::null();
    assert!(JS_GetProperty(&state, obj, Some("x"), &mut vp));
    assert_eq!(vp, JSVal::from_int32(5));
    assert!(JS_GetProperty(&state, obj, Some("y"), &mut vp));
    assert_eq!(vp, JSVal::undefined());
}

#[test]
fn atomized_strings_hold_their_text() {
    let mut state = ready_state();
    let s = JS_AtomizeAndPinString(&mut state, Some(b"length"));
    assert_ne!(s, 0);
    assert_eq!(string_text(&state, s), Some("length".to_string()));
    assert_eq!(JS_AtomizeAndPinString(&mut state, None), 0);
    assert_eq!(JS_AtomizeAndPinString(&mut state, Some(&[0xff, 0xfe])), 0);
}

#[test]
fn prototypes_are_made_immutable() {
    let mut succeeded = false;
    assert!(JS_SetImmutablePrototype(&mut succeeded));
    assert!(succeeded);
}

#[test]
fn principals_keep_their_private_value_until_destroyed() {
    let mut principals = RustJSPrincipals::new();
    assert_eq!(principals.GetRustJSPrincipalsPrivate(12345), 0);
    let a = principals.CreateRustJSPrincipals(0x10);
    let b = principals.CreateRustJSPrincipals(0x20);
    assert_ne!(a, 0);
    assert_ne!(a, b);
    assert_eq!(principals.GetRustJSPrincipalsPrivate(a), 0x10);
    assert_eq!(principals.GetRustJSPrincipalsPrivate(b), 0x20);
    principals.DestroyRustJSPrincipals(a);
    assert_eq!(principals.GetRustJSPrincipalsPrivate(a), 0);
    assert_eq!(principals.GetRustJSPrincipalsPrivate(b), 0x20);
    principals.DestroyRustJSPrincipals(0);
    assert_eq!(principals.GetRustJSPrincipalsPrivate(0), 0);
}

#[test]
fn functions_defined_with_reserved_become_properties() {
    let mut state = ready_state();
    let obj = js_new_object(&mut state);
    let fun = DefineFunctionWithReserved(&mut state, obj, Some("run"), Some(9), 1, 0);
    assert_ne!(fun, 0);
    let fun_obj = get_function_object(&state, fun);
    assert_ne!(fun_obj, 0);
    assert_eq!(get_property_by_name(&state, obj, Some("run")), Some(JSVal::from_object(fun_obj)));
    assert_eq!(DefineFunctionWithReserved(&mut state, obj, None, Some(9), 1, 0), 0);
    assert_eq!(DefineFunctionWithReserved(&mut state, 0, Some("run"), Some(9), 1, 0), 0);
}

#[test]
fn define_functions_stops_at_the_first_unnamed_method() {
    let mut state = ready_state();
    let obj = js_new_object(&mut state);
    let spec = |name: Option<&str>| JSFunctionSpec {
        name: name.map(|n| n.to_string()),
        call: Some(1),
        nargs: 0,
        flags: 0,
    };
    let methods = [spec(Some("a")), spec(Some("b")), spec(None), spec(Some("c"))];
    assert!(JS_DefineFunctions(&mut state, obj, Some(&methods)));
    assert!(get_property_by_name(&state, obj, Some("a")).is_some());
    assert!(get_property_by_name(&state, obj, Some("b")).is_some());
    assert!(get_property_by_name(&state, obj, Some("c")).is_none());
    assert!(JS_DefineFunctions(&mut state, obj, None));
    assert!(!JS_DefineFunctions(&mut state, 0, Some(&methods)));
}

#[test]
fn calling_a_function_prepares_its_native_call() {
    let mut state = ready_state();
    let fun = js_new_function(&mut state, 77, Some(5), 2, 0, None);
    let fun_obj = get_function_object(&state, fun);
    let args = [JSVal::from_int32(1), JSVal::from_int32(2)];
    let call = Call(&state, fun_obj, &args).expect("a native function");
    assert_eq!(call.native, 5);
    assert_eq!(call.cx, 77);
    assert_eq!(call.argc, 2);
    assert_eq!(
        call.vp,
        vec![JSVal::undefined(), JSVal::from_object(fun_obj), JSVal::from_int32(1), JSVal::from_int32(2)]
    );
    let explicit = call_function(&state, 12, JSVal::from_object(fun_obj), &[]).unwrap();
    assert_eq!(explicit.cx, 12);
    assert_eq!(explicit.argc, 0);
    let plain = js_new_object(&mut state);
    assert!(Call(&state, plain, &args).is_none());
    assert!(call_function(&state, 0, JSVal::from_int32(3), &args).is_none());
}

#[test]
fn string_chars_come_as_utf8_and_utf16() {
    let mut state = ready_state();
    let s = JS_AtomizeAndPinString(&mut state, Some("é𝄞".as_bytes()));
    assert_eq!(latin1_chars_and_len(&state, s), Some("é𝄞".as_bytes().to_vec()));
    assert_eq!(two_byte_chars_and_len(&state, s), Some("é𝄞".encode_utf16().collect::<Vec<u16>>()));
    assert_eq!(latin1_chars_and_len(&state, 0), None);
    assert_eq!(two_byte_chars_and_len(&state, 0), None);
}

#[test]
fn arrays_report_their_length_and_class() {
    let mut state = ready_state();
    let arr = NewArrayObject(&mut state, Some(vec![JSVal::null(), JSVal::null(), JSVal::null()]));
    assert_ne!(arr, 0);
    assert_eq!(NewArrayObject(&mut state, None), 0);
    let mut len = 99;
    assert!(GetArrayLength(&state, arr, &mut len));
    assert_eq!(len, 3);
    let obj = js_new_object(&mut state);
    assert!(GetArrayLength(&state, obj, &mut len));
    assert_eq!(len, 0);
    let mut class = ESClass::Other;
    assert!(GetBuiltinClass(&state, arr, &mut class));
    assert_eq!(class, ESClass::Array);
    assert!(GetBuiltinClass(&state, obj, &mut class));
    assert_eq!(class, ESClass::Object);
    let mut is = true;
    assert!(ObjectIsRegExp(&mut is));
    assert!(!is);
    is = true;
    assert!(ObjectIsDate(&mut is));
    assert!(!is);
}

#[test]
fn window_proxies_wrap_their_window() {
    let mut state = GlueState::new();
    let window = JS_NewGlobalObject(
        &mut state,
        ClassRef { addr: 0x2000, flags: JSCLASS_IS_DOMJSCLASS | JSCLASS_IS_GLOBAL },
    );
    let proxy = NewWindowProxy(&mut state, window, 0x40);
    assert_ne!(proxy, 0);
    assert!(is_window_proxy(&state, proxy));
}

#[test]
fn properties_set_by_id_record_success() {
    let mut state = ready_state();
    let obj = js_new_object(&mut state);
    let name = JS_AtomizeAndPinString(&mut state, Some(b"k"));
    let mut result = ObjectOpResult { code_: 7 };
    assert!(SetPropertyIgnoringNamedGetter(&mut state, obj, jsid::from_string(name), JSVal::from_int32(4), &mut result));
    assert_eq!(result.code_, 0);
    assert_eq!(get_property_by_name(&state, obj, Some("k")), Some(JSVal::from_int32(4)));
    let mut failed = ObjectOpResult { code_: 7 };
    assert!(!SetPropertyIgnoringNamedGetter(&mut state, 0, jsid::from_string(name), JSVal::null(), &mut failed));
    assert_eq!(failed.code_, 7);
}

#[test]
fn source_texts_and_script_privates_are_kept() {
    let mut state = ready_state();
    let id = transform_str_to_source_text(&mut state, "let x = 1;");
    assert_eq!(source_text_from_ptr(&state, id), Some("let x = 1;".to_string()));
    let empty = transform_u16_to_source_text(&mut state, &[0x61]);
    assert_eq!(source_text_from_ptr(&state, empty), Some(String::new()));
    let script = compile_script(&mut state, "x", true);
    set_script_private(&mut state, script, JSVal::from_int32(3));
    let mut value = JSVal::null();
    JS_GetScriptPrivate(&state, script, &mut value);
    assert_eq!(value, JSVal::from_int32(3));
    JS_GetScriptPrivate(&state, 0, &mut value);
    assert_eq!(value, JSVal::undefined());
}

#[test]
fn object_or_null_values() {
    assert_eq!(ObjectOrNullValue(0), JSVal::null());
    assert_eq!(ObjectOrNullValue(42), JSVal::from_object(42));
}
