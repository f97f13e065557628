use weblab_interpreter::environment::{ClosedEnvironment, Environments, Lookup};
use weblab_interpreter::error::ErrorKind;
use weblab_interpreter::globals::in_global_this;
use weblab_interpreter::scope::Scope;
use weblab_interpreter::store::Store;
use weblab_interpreter::value::{Function, Value};
use weblab_interpreter::{get_type, list_properties};
use weblab_interpreter::session::Listing;

fn number(x: f64) -> Value {
    Value::Number(x.to_bits())
}

fn read(store: &Store, envs: &Environments, name: &str) -> Value {
    match envs.get(name) {
        Lookup::Bound(cell) => store.read(cell).unwrap().clone(),
        other => panic!("{} resolves to {:?}", name, other),
    }
}

fn is_number(value: &Value, x: f64) -> bool {
    matches!(value, Value::Number(bits) if *bits == x.to_bits())
}

fn session() -> (Store, Environments) {
    let mut store = Store::new();
    let envs = Environments::new(&mut store, Value::Object(1), Value::Object(2));
    (store, envs)
}

#[test]
fn a_scope_maps_names_to_cells() {
    let mut scope = Scope::new();
    assert_eq!(scope.get("a"), None);
    assert_eq!(scope.insert("a", 1), None);
    assert_eq!(scope.insert("b", 2), None);
    assert_eq!(scope.get("a"), Some(1));
    assert_eq!(scope.get("b"), Some(2));
    assert_eq!(scope.get("ab"), None);
    assert_eq!(scope.insert("a", 3), Some(1));
    assert_eq!(scope.get("a"), Some(3));
    assert_eq!(scope.len(), 2);
    assert!(scope.contains_key("b"));
    assert!(!scope.contains_key("c"));
}

#[test]
fn a_new_session_binds_the_global_names() {
    let (store, envs) = session();
    assert_eq!(envs.depth(), 1);
    for name in ["globalThis", "self", "window", "this"] {
        assert!(matches!(read(&store, &envs, name), Value::Object(1)));
    }
    assert!(matches!(read(&store, &envs, "document"), Value::Object(2)));
    assert_eq!(envs.get("globalThis"), envs.get("window"));
}

#[test]
fn insert_writes_into_the_innermost_frame_and_shadows() {
    let (mut store, mut envs) = session();
    envs.insert(&mut store, "x", number(1.0)).unwrap();
    envs.push_env();
    envs.insert(&mut store, "x", number(2.0)).unwrap();
    assert!(is_number(&read(&store, &envs, "x"), 2.0));
    envs.pop_env();
    assert!(is_number(&read(&store, &envs, "x"), 1.0));
}

#[test]
fn insert_fails_without_a_frame() {
    let mut store = Store::new();
    let mut envs = Environments::empty();
    let error = envs.insert(&mut store, "x", number(1.0)).unwrap_err();
    assert_eq!(error.kind, ErrorKind::Name);
    assert_eq!(store.len(), 0);
    let error = envs.set(&mut store, "x", number(1.0)).unwrap_err();
    assert_eq!(error.kind, ErrorKind::Name);
    envs.pop_env();
    assert_eq!(envs.depth(), 0);
}

#[test]
fn get_searches_from_the_innermost_frame_outwards() {
    let (mut store, mut envs) = session();
    envs.insert(&mut store, "outer", number(1.0)).unwrap();
    envs.push_env();
    envs.push_env();
    assert!(is_number(&read(&store, &envs, "outer"), 1.0));
}

#[test]
fn a_name_that_no_frame_binds_falls_back_to_the_allowed_globals() {
    let (_, envs) = session();
    let global = match envs.get("globalThis") {
        Lookup::Bound(cell) => cell,
        other => panic!("{:?}", other),
    };
    assert_eq!(envs.get("Math"), Lookup::Global(global));
    assert_eq!(envs.get("JSON"), Lookup::Global(global));
    assert_eq!(envs.get("eval"), Lookup::Absent);
    assert_eq!(envs.get("localStorage"), Lookup::Absent);
    let empty = Environments::empty();
    assert_eq!(empty.get("Math"), Lookup::Absent);
}

#[test]
fn the_allowed_globals_are_a_closed_list() {
    for name in [
        "fetch", "console", "undefined", "Number", "Boolean", "Object", "Function", "String",
        "Generator", "Iterator", "Symbol", "Math", "Date", "RegExp", "Array", "Int8Array",
        "Uint8Array", "Uint8ClampedArray", "Int16Array", "Uint16Array", "Int32Array",
        "Uint32Array", "Float32Array", "Float64Array", "BigInt64Array", "BigUint64Array",
        "Promise", "Map", "Set", "WeakMap", "WeakSet", "ArrayBuffer", "SharedArrayBuffer",
        "Error", "EvalError", "RangeError", "ReferenceError", "SyntaxError", "TypeError",
        "DataView", "JSON", "parseFloat", "parseInt", "NaN", "isNaN", "Infinity", "isFinite",
        "ImageData", "URL", "createImageBitmap", "setTimeout", "clearTimeout", "setInterval",
        "clearInterval", "TextEncoder", "TextDecoder",
    ] {
        assert!(in_global_this(name), "{}", name);
    }
    for name in ["window", "document", "eval", "globalThis", "math", "Math ", "", "XMLHttpRequest"] {
        assert!(!in_global_this(name), "{}", name);
    }
}

#[test]
fn set_writes_a_primitive_into_the_cell_that_the_name_has() {
    let (mut store, mut envs) = session();
    let cell = envs.insert(&mut store, "n", number(1.0)).unwrap();
    let snapshot = envs.closure();
    envs.push_env();
    let cells = store.len();
    assert_eq!(envs.set(&mut store, "n", number(2.0)).unwrap(), cell);
    assert_eq!(store.len(), cells);
    assert_eq!(envs.get("n"), Lookup::Bound(cell));
    assert_eq!(snapshot.get("n"), Lookup::Bound(cell));
    assert!(is_number(store.read(cell).unwrap(), 2.0));
}

#[test]
fn set_gives_an_object_a_new_cell_where_the_name_is_bound() {
    let (mut store, mut envs) = session();
    let cell = envs.insert(&mut store, "o", Value::Object(10)).unwrap();
    let snapshot = envs.closure();
    envs.push_env();
    let fresh = envs.set(&mut store, "o", Value::Object(11)).unwrap();
    assert_ne!(fresh, cell);
    assert_eq!(envs.get("o"), Lookup::Bound(fresh));
    envs.pop_env();
    assert_eq!(envs.get("o"), Lookup::Bound(fresh));
    assert_eq!(snapshot.get("o"), Lookup::Bound(cell));
    assert!(matches!(store.read(cell).unwrap(), Value::Object(10)));
    assert!(matches!(store.read(fresh).unwrap(), Value::Object(11)));
}

#[test]
fn set_declares_in_the_innermost_frame_what_is_bound_nowhere() {
    let (mut store, mut envs) = session();
    envs.push_env();
    envs.set(&mut store, "fresh", number(7.0)).unwrap();
    assert!(is_number(&read(&store, &envs, "fresh"), 7.0));
    envs.pop_env();
    assert_eq!(envs.get("fresh"), Lookup::Absent);
}

#[test]
fn a_closure_flattens_the_frames_with_inner_bindings_winning() {
    let (mut store, mut envs) = session();
    envs.insert(&mut store, "a", number(1.0)).unwrap();
    envs.insert(&mut store, "b", number(2.0)).unwrap();
    envs.push_env();
    let inner = envs.insert(&mut store, "a", number(3.0)).unwrap();
    let snapshot = envs.closure();
    assert_eq!(snapshot.get("a"), Lookup::Bound(inner));
    assert_eq!(snapshot.get("b"), envs.get("b"));
    assert_eq!(snapshot.get("Math"), envs.get("Math"));
    assert_eq!(snapshot.get("nothing"), Lookup::Absent);
    // What is declared afterwards is not part of the snapshot.
    envs.insert(&mut store, "late", number(4.0)).unwrap();
    assert_eq!(snapshot.get("late"), Lookup::Absent);
    let called = Environments::from_closed_env(snapshot.clone());
    assert_eq!(called.depth(), 1);
    assert_eq!(called.get("a"), Lookup::Bound(inner));
}

#[test]
fn a_closed_environment_can_be_built_by_hand() {
    let mut env = ClosedEnvironment::new();
    assert_eq!(env.get("x"), Lookup::Absent);
    env.insert("x", 4);
    env.insert("x", 5);
    assert_eq!(env.get("x"), Lookup::Bound(5));
    assert_eq!(env.bindings().get("x"), Some(5));
    assert_eq!(env.get("Math"), Lookup::Absent);
    env.insert("globalThis", 0);
    assert_eq!(env.get("Math"), Lookup::Global(0));
}

#[test]
fn the_store_hands_out_cells_and_closures_in_order() {
    let mut store = Store::new();
    assert_eq!(store.allocate(number(1.0)), 0);
    assert_eq!(store.allocate(Value::Null), 1);
    assert!(store.read(2).is_none());
    store.write(0, Value::Bool(true)).unwrap();
    assert!(matches!(store.read(0).unwrap(), Value::Bool(true)));
    assert_eq!(store.write(2, Value::Null).unwrap_err().kind, ErrorKind::Protocol);
    let f = Function::new(
        vec!["a".to_string()],
        3,
        ClosedEnvironment::new(),
        false,
        Some(9),
        None,
    );
    assert_eq!(f.jsfunction, Some(9));
    assert_eq!(store.add_closure(f), 0);
    assert_eq!(store.closure(0).unwrap().body, 3);
    assert!(store.closure(1).is_none());
}

#[test]
fn the_global_scope_is_listed_with_the_kinds_of_its_values() {
    let (mut store, mut envs) = session();
    envs.insert(&mut store, "n", number(1.0)).unwrap();
    envs.insert(&mut store, "s", Value::String("x".to_string())).unwrap();
    envs.insert(&mut store, "nothing", Value::Null).unwrap();
    match list_properties(&envs, &store, "window") {
        Listing::Names(names) => {
            let find = |name: &str| {
                names.iter().find(|(n, _)| n == name).map(|(_, k)| k.clone()).unwrap()
            };
            assert_eq!(names.len(), 8);
            assert_eq!(find("n"), "number");
            assert_eq!(find("s"), "string");
            assert_eq!(find("nothing"), "object");
            assert_eq!(find("document"), "object");
        }
        other => panic!("{:?}", other),
    }
    assert!(matches!(list_properties(&envs, &store, "document"), Listing::Object(Value::Object(2))));
    assert!(matches!(list_properties(&envs, &store, "n"), Listing::Nothing));
    assert!(matches!(list_properties(&envs, &store, "missing"), Listing::Nothing));
    assert_eq!(get_type(&envs, &store, "n"), "number");
    assert_eq!(get_type(&envs, &store, "nothing"), "object");
    assert_eq!(get_type(&envs, &store, "missing"), "undefined");
    assert_eq!(get_type(&Environments::empty(), &store, "n"), "undefined");
}
