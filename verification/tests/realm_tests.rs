use soliloquy_js::jsval::JSVal;
use soliloquy_js::types::{ClassRef, JSCLASS_IS_DOMJSCLASS, JSCLASS_IS_GLOBAL};
use soliloquy_js::v8_glue::{
    create_dom_global, enter_realm, get_non_ccw_object_global, get_prototype, js_new_object,
    js_new_object_with_proto, leave_realm, new_proxy_object, set_window_proxy, GlueState,
};

fn global_class() -> ClassRef {
    ClassRef { addr: 0x1000, flags: JSCLASS_IS_DOMJSCLASS | JSCLASS_IS_GLOBAL }
}

#[test]
fn non_global_objects_resolve_to_creation_global() {
    let mut state = GlueState::new();
    let global = create_dom_global(&mut state, global_class());
    let object = js_new_object(&mut state);
    leave_realm(&mut state, None);

    assert_eq!(get_non_ccw_object_global(&state, object), global);
}

#[test]
fn objects_created_in_window_proxy_realm_resolve_to_window() {
    let mut state = GlueState::new();
    let window = create_dom_global(&mut state, global_class());
    let proxy = js_new_object(&mut state);
    assert!(set_window_proxy(&mut state, window, proxy));
    enter_realm(&mut state, proxy);
    let object = js_new_object(&mut state);
    leave_realm(&mut state, None);

    assert_eq!(get_non_ccw_object_global(&state, object), window);
}

#[test]
fn window_proxy_creation_maps_proxy_to_window() {
    let mut state = GlueState::new();
    let window = create_dom_global(&mut state, global_class());
    let proxy = new_proxy_object(&mut state, 0, window, false);

    assert_eq!(get_non_ccw_object_global(&state, proxy), window);
}

#[test]
fn objects_inherit_realm_from_prototype() {
    let mut state = GlueState::new();
    let global = create_dom_global(&mut state, global_class());
    let proto = js_new_object(&mut state);
    leave_realm(&mut state, None);
    let object = js_new_object_with_proto(&mut state, ClassRef::null(), proto);

    assert_eq!(get_non_ccw_object_global(&state, object), global);
}

#[test]
fn objects_resolve_realm_through_prototype_chain() {
    let mut state = GlueState::new();
    let global = create_dom_global(&mut state, global_class());
    let proto = js_new_object(&mut state);
    let child_proto = js_new_object_with_proto(&mut state, ClassRef::null(), proto);
    leave_realm(&mut state, None);
    let object = js_new_object_with_proto(&mut state, ClassRef::null(), child_proto);

    assert_eq!(get_non_ccw_object_global(&state, object), global);
    assert_eq!(get_prototype(&state, object), child_proto);
}

#[test]
fn object_created_outside_any_realm_falls_back_to_itself() {
    let mut state = GlueState::new();
    let _global = create_dom_global(&mut state, global_class());
    leave_realm(&mut state, None);
    let object = js_new_object(&mut state);
    assert_eq!(get_non_ccw_object_global(&state, object), object);
    assert_eq!(get_non_ccw_object_global(&state, 0), 0);
}

#[test]
fn leave_realm_restores_the_entered_realm() {
    let mut state = GlueState::new();
    let window = create_dom_global(&mut state, global_class());
    let other = js_new_object(&mut state);
    let previous = enter_realm(&mut state, other);
    assert_eq!(previous, Some(window));
    assert_eq!(soliloquy_js::v8_glue::current_global_object(&state), other);
    leave_realm(&mut state, previous);
    assert_eq!(soliloquy_js::v8_glue::current_global_object(&state), window);
    let _ = JSVal::undefined();
}
