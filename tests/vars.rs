use june_vm::var::{var_deref, var_deref_forced, var_deref_unmanaged};
use june_vm::{
    Func, FuncSpan, Native, NativeFeature, NativeTypeId, State, Value, Var, VarError, VarInfo,
    VarMap,
};

fn state(indexing: bool) -> State<VarMap> {
    State::new(8, &vec!["prog".to_string(), "arg".to_string()], indexing)
}

fn ints(xs: &[isize]) -> Value<VarMap> {
    Value::Vector(xs.iter().map(|x| Value::Integer(*x)).collect())
}

#[test]
fn new_var_has_count_one() {
    let v: Var<VarMap> = Var::new(3, 7, VarInfo::empty(), Value::Integer(1));
    assert_eq!(v.ref_count(), 1);
    assert_eq!(v.src_id, 3);
    assert_eq!(v.idx, 7);
    let u: Var<VarMap> = Var::new(0, 0, VarInfo::unmanaged(), Value::Nil);
    assert_eq!(u.ref_count(), 1);
}

#[test]
fn iref_then_dref_restores_count() {
    let mut v: Var<VarMap> = Var::new(0, 0, VarInfo::empty(), Value::Nil);
    v.iref();
    assert_eq!(v.ref_count(), 2);
    v.dref();
    assert_eq!(v.ref_count(), 1);
}

#[test]
fn deref_releases_exactly_once() {
    let mut v: Var<VarMap> = Var::new(0, 0, VarInfo::empty(), Value::Integer(4));
    v.iref();
    v.iref();
    let v = var_deref(v).expect("alive after first deref");
    assert_eq!(v.ref_count(), 2);
    let v = var_deref(v).expect("alive after second deref");
    assert_eq!(v.ref_count(), 1);
    assert!(var_deref(v).is_none());
}

#[test]
fn unmanaged_count_is_fixed() {
    let mut v: Var<VarMap> = Var::new(0, 0, VarInfo::unmanaged(), Value::Boolean(true));
    v.iref();
    v.iref();
    assert_eq!(v.ref_count(), 1);
    v.dref();
    assert_eq!(v.ref_count(), 1);
    let v = var_deref(v).expect("unmanaged variables are not released");
    assert_eq!(v.ref_count(), 1);
}

#[test]
fn forced_transition_releases_at_one() {
    let v: Var<VarMap> = Var::new(0, 0, VarInfo::unmanaged(), Value::Integer(9));
    assert!(var_deref_forced(v).is_none());

    let mut w: Var<VarMap> = Var::new(0, 0, VarInfo::unmanaged(), Value::Integer(9));
    w.info.remove(VarInfo::unmanaged());
    w.iref();
    w.info.insert(VarInfo::unmanaged());
    let w = var_deref_forced(w).expect("count two survives one deref");
    assert_eq!(w.ref_count(), 1);
    assert!(!w.info.unmanaged);
    assert_eq!(w.value, Value::Integer(9));
}

#[test]
fn unmanaged_force_release_neutralises() {
    let info = VarInfo::unmanaged().union(VarInfo::callable());
    let mut v: Var<VarMap> = Var::new(2, 5, info, Value::String("handle".to_string()));
    var_deref_unmanaged(&mut v);
    assert_eq!(v.value, Value::Nil);
    assert!(!v.info.unmanaged);
    assert!(v.info.callable);
    assert_eq!(v.ref_count(), 1);
    assert_eq!(v.src_id, 2);
    assert_eq!(v.idx, 5);
}

#[test]
fn vector_index_in_range() {
    let mut s = state(true);
    let v: Var<VarMap> = Var::new(0, 0, VarInfo::callable(), ints(&[10, 20, 30]));
    assert_eq!(v.call(&mut s, &[Value::Integer(0)]), Ok(Value::Integer(10)));
    assert_eq!(v.call(&mut s, &[Value::Integer(2)]), Ok(Value::Integer(30)));
}

#[test]
fn vector_index_out_of_bounds() {
    let mut s = state(true);
    let v: Var<VarMap> = Var::new(0, 0, VarInfo::callable(), ints(&[10, 20, 30]));
    assert_eq!(v.call(&mut s, &[Value::Integer(3)]), Err(VarError::IndexOutOfBounds));
    assert_eq!(v.call(&mut s, &[Value::Integer(-1)]), Err(VarError::IndexOutOfBounds));
    let empty: Var<VarMap> = Var::new(0, 0, VarInfo::callable(), ints(&[]));
    assert_eq!(empty.call(&mut s, &[Value::Integer(0)]), Err(VarError::IndexOutOfBounds));
}

#[test]
fn vector_index_type_and_arity_errors() {
    let mut s = state(true);
    let v: Var<VarMap> = Var::new(0, 0, VarInfo::callable(), ints(&[10, 20]));
    assert_eq!(v.call(&mut s, &[Value::Boolean(true)]), Err(VarError::IndexNotInteger));
    assert_eq!(v.call(&mut s, &[]), Err(VarError::IndexArity));
    assert_eq!(
        v.call(&mut s, &[Value::Integer(0), Value::Integer(1)]),
        Err(VarError::IndexArity)
    );
}

#[test]
fn vector_index_copies_nested_vectors() {
    let mut s = state(true);
    let inner = ints(&[1, 2]);
    let v: Var<VarMap> = Var::new(0, 0, VarInfo::empty(), Value::Vector(vec![Value::Nil, inner]));
    assert_eq!(v.call(&mut s, &[Value::Integer(1)]), Ok(ints(&[1, 2])));
}

#[test]
fn vector_not_callable_without_indexing() {
    let mut s = state(false);
    let v: Var<VarMap> = Var::new(0, 0, VarInfo::callable(), ints(&[10]));
    assert_eq!(v.call(&mut s, &[Value::Integer(0)]), Err(VarError::NotCallable));
}

#[test]
fn plain_values_are_not_callable_or_attr_based() {
    let mut s = state(true);
    let mut v: Var<VarMap> = Var::new(0, 0, VarInfo::empty(), Value::Integer(1));
    assert_eq!(v.call(&mut s, &[]), Err(VarError::NotCallable));
    assert!(!v.attr_exists("x"));
    assert_eq!(v.attr_get("x"), Err(VarError::NotAttrBased));
    assert_eq!(v.attr_set("x", Value::Nil), Err(VarError::NotAttrBased));
}

#[test]
fn var_map_set_then_get() {
    let mut m = VarMap::new();
    assert!(m.attr_set("x", Value::Integer(5)).is_ok());
    assert_eq!(m.attr_get("x"), Ok(&Value::Integer(5)));
    assert!(m.attr_exists("x"));
    assert!(!m.attr_exists("y"));
    assert_eq!(m.attr_get("y"), Err(VarError::NoSuchAttribute));
    assert!(m.attr_set("x", Value::Integer(6)).is_ok());
    assert_eq!(m.attr_get("x"), Ok(&Value::Integer(6)));
}

#[test]
fn var_map_empty_has_no_attribute() {
    let m = VarMap::default();
    assert_eq!(m.attr_get("y"), Err(VarError::NoSuchAttribute));
    assert_eq!(m.attr_get("y").unwrap_err().message(), "no such attribute");
    assert!(!m.attr_exists("y"));
}

#[test]
fn var_map_features() {
    let m = VarMap::new();
    assert!(m.is_feature_supported(NativeFeature::AttrBased));
    assert!(!m.is_feature_supported(NativeFeature::Callable));
    assert!(!m.is_feature_supported(NativeFeature::LoadAsRef));
    assert!(!m.is_feature_supported(NativeFeature::Unmanaged));
    assert_eq!(m.type_id().name, Some("VarMap".to_string()));
}

#[test]
fn native_var_delegates_to_object() {
    let mut s = state(true);
    let mut v: Var<VarMap> = Var::new(0, 0, VarInfo::empty(), Value::Native(VarMap::new()));
    assert!(v.is_feature_supported(NativeFeature::AttrBased));
    assert!(!v.is_feature_supported(NativeFeature::Callable));
    assert!(v.attr_set("k", Value::Boolean(true)).is_ok());
    assert!(v.attr_exists("k"));
    assert_eq!(v.attr_get("k"), Ok(&Value::Boolean(true)));
    assert_eq!(v.call(&mut s, &[]), Err(VarError::NativeNotCallable));
}

#[derive(Debug)]
struct Bare;

impl Native for Bare {
    fn duplicate(&self) -> Bare {
        Bare
    }

    fn type_id(&self) -> NativeTypeId {
        NativeTypeId::of::<Bare>(None)
    }
}

#[test]
fn default_native_reports_and_fails() {
    let mut b = Bare;
    for f in [
        NativeFeature::Callable,
        NativeFeature::AttrBased,
        NativeFeature::LoadAsRef,
        NativeFeature::Unmanaged,
    ] {
        assert!(!b.is_feature_supported(f));
    }
    let mut s: State<Bare> = State::new(4, &vec![], true);
    let e = b.call(&mut s, &[]).unwrap_err();
    assert_eq!(e, VarError::NativeNotCallable);
    assert_eq!(e.message(), "Native type not callable");
    assert!(!b.attr_exists("a"));
    let e = b.attr_get("a").unwrap_err();
    assert_eq!(e.message(), "Native type not attr based");
    let e = b.attr_set("a", Value::Nil).unwrap_err();
    assert_eq!(e, VarError::NativeNotAttrBased);
}

#[test]
fn feature_flags_follow_info() {
    let info = VarInfo::callable().union(VarInfo::load_as_ref());
    let v: Var<VarMap> = Var::new(0, 0, info, Value::Integer(1));
    assert!(v.is_feature_supported(NativeFeature::Callable));
    assert!(v.is_feature_supported(NativeFeature::LoadAsRef));
    assert!(!v.is_feature_supported(NativeFeature::AttrBased));
    assert!(!v.is_feature_supported(NativeFeature::Unmanaged));
}

#[test]
fn var_info_bits_and_sets() {
    assert_eq!(VarInfo::empty().bits(), 0);
    assert_eq!(VarInfo::callable().bits(), 1);
    assert_eq!(VarInfo::attr_based().bits(), 2);
    assert_eq!(VarInfo::load_as_ref().bits(), 4);
    assert_eq!(VarInfo::unmanaged().bits(), 8);
    let mut i = VarInfo::callable().union(VarInfo::unmanaged());
    assert_eq!(i.bits(), 9);
    assert!(i.contains(VarInfo::unmanaged()));
    assert!(!i.contains(VarInfo::attr_based()));
    i.remove(VarInfo::unmanaged());
    assert_eq!(i.bits(), 1);
    i.insert_feature(NativeFeature::AttrBased);
    assert!(i.has_feature(NativeFeature::AttrBased));
    i.remove_feature(NativeFeature::Callable);
    assert_eq!(i.bits(), 2);
}

#[test]
fn builtin_type_names() {
    let cases: Vec<(Value<VarMap>, &str)> = vec![
        (Value::Nil, "nil"),
        (Value::Integer(1), "int"),
        (Value::Float(0), "float"),
        (Value::String(String::new()), "string"),
        (Value::Boolean(false), "bool"),
        (ints(&[]), "Vec"),
        (Value::Func(Func::Bytecode(FuncSpan { start: 0, end: 4 })), "Func"),
    ];
    for (value, name) in cases {
        let v = Var::new(0, 0, VarInfo::empty(), value);
        assert_eq!(v.type_id().name, Some(name.to_string()));
    }
}

#[test]
fn error_messages() {
    assert_eq!(VarError::NotCallable.message(), "not callable");
    assert_eq!(VarError::NotAttrBased.message(), "not attr based");
    assert_eq!(
        VarError::IndexArity.message(),
        "callable indexing must contain only one argument"
    );
    assert_eq!(
        VarError::IndexNotInteger.message(),
        "callable indexing must contain an integer"
    );
    assert_eq!(VarError::IndexOutOfBounds.message(), "callable indexing out of bounds");
    assert_eq!(VarError::Custom("boom".to_string()).message(), "boom");
}

#[test]
fn deep_clone_is_equal() {
    let mut m = VarMap::new();
    m.attr_set("a", ints(&[1])).unwrap();
    let v: Value<VarMap> = Value::Vector(vec![Value::Native(m), Value::String("s".to_string())]);
    let c = v.deep_clone();
    assert_eq!(c, v);
}

#[test]
fn type_identity_tokens() {
    let a = NativeTypeId::of::<u8>(Some("byte".to_string()));
    let b = NativeTypeId::of::<u8>(None);
    let c = NativeTypeId::of::<u16>(None);
    assert_eq!(a.name, Some("byte".to_string()));
    assert_eq!(b.name, None);
    assert_eq!(a.id, b.id);
    assert_ne!(a.id, c.id);
}
