use soliloquy_js::jsval::JSVal;
use soliloquy_js::record::{safe_from_jsval, ConversionResult, Record};
use soliloquy_js::types::{ClassRef, JSCLASS_IS_DOMJSCLASS, JSCLASS_IS_GLOBAL};
use soliloquy_js::v8_glue::{create_dom_global, js_new_object, new_array_object, set_property, GlueState};

fn ready_state() -> GlueState {
    let mut state = GlueState::new();
    create_dom_global(&mut state, ClassRef { addr: 0x1000, flags: JSCLASS_IS_DOMJSCLASS | JSCLASS_IS_GLOBAL });
    state
}

fn entries(record: &Record) -> Vec<(String, JSVal)> {
    let mut out = Vec::new();
    let mut i = 0;
    while let Some(kv) = record.get_index(i) {
        out.push(kv);
        i += 1;
    }
    out
}

#[test]
fn record_from_non_object_is_a_failure() {
    let mut state = ready_state();
    match safe_from_jsval(&mut state, JSVal::from_int32(3)) {
        Ok(ConversionResult::Failure(message)) => {
            assert_eq!(message, "Record value was not an object")
        },
        _ => panic!("expected a conversion failure"),
    }
}

#[test]
fn record_from_null_object_is_an_error() {
    let mut state = ready_state();
    assert!(safe_from_jsval(&mut state, JSVal::from_object(0)).is_err());
}

#[test]
fn record_reads_properties_in_definition_order() {
    let mut state = ready_state();
    let obj = js_new_object(&mut state);
    assert!(set_property(&mut state, obj, "b", JSVal::from_int32(2)));
    assert!(set_property(&mut state, obj, "a", JSVal::from_int32(1)));
    let record = match safe_from_jsval(&mut state, JSVal::from_object(obj)) {
        Ok(ConversionResult::Success(record)) => record,
        _ => panic!("expected a record"),
    };
    assert_eq!(
        entries(&record),
        vec![("b".to_string(), JSVal::from_int32(2)), ("a".to_string(), JSVal::from_int32(1))]
    );
    assert_eq!(record.get("a"), Some(JSVal::from_int32(1)));
    assert_eq!(record.get("c"), None);
}

#[test]
fn record_reads_array_elements_under_their_indices() {
    let mut state = ready_state();
    let arr = new_array_object(&mut state, vec![JSVal::from_int32(7), JSVal::from_int32(8)]);
    let record = match safe_from_jsval(&mut state, JSVal::from_object(arr)) {
        Ok(ConversionResult::Success(record)) => record,
        _ => panic!("expected a record"),
    };
    assert_eq!(record.get("0"), Some(JSVal::from_int32(7)));
    assert_eq!(record.get("1"), Some(JSVal::from_int32(8)));
}

#[test]
fn record_insert_keeps_first_position() {
    let mut record = Record::new();
    record.insert("x".to_string(), JSVal::from_int32(1));
    record.insert("y".to_string(), JSVal::from_int32(2));
    record.insert("x".to_string(), JSVal::from_int32(3));
    assert_eq!(record.len(), 2);
    assert_eq!(
        entries(&record),
        vec![("x".to_string(), JSVal::from_int32(3)), ("y".to_string(), JSVal::from_int32(2))]
    );
}

#[test]
fn empty_record_converts_to_a_new_object() {
    let mut state = ready_state();
    let record = Record::default();
    let mut rval = JSVal::undefined();
    record.safe_to_jsval(&mut state, &mut rval);
    assert!(rval.is_object());
    assert_ne!(rval.to_object(), 0);
}
