//! Variables: reference-counted owners of values, and their release disciplines.
use vstd::prelude::*;

use crate::state::State;
use crate::value::{Func, Native, NativeFeature, NativeTypeId, Value, VarError, VarInfo};

verus! {

/// The owned, reference-counted handle through which the interpreter reaches a value.
///
/// The count starts at one and is changed only by `iref` and `dref`. While the
/// `unmanaged` flag is set, both leave it alone.
#[verifier::reject_recursive_types(N)]
#[derive(Debug)]
pub struct Var<N> {
    pub value: Value<N>,
    pub src_id: usize,
    pub idx: usize,
    pub info: VarInfo,
    ref_count: usize,
}

/// The mathematical picture of a variable: its public parts and its count.
#[verifier::reject_recursive_types(N)]
pub struct VarModel<N> {
    pub value: Value<N>,
    pub src_id: usize,
    pub idx: usize,
    pub info: VarInfo,
    pub count: nat,
}

impl<N> View for Var<N> {
    type V = VarModel<N>;

    closed spec fn view(&self) -> VarModel<N> {
        VarModel {
            value: self.value,
            src_id: self.src_id,
            idx: self.idx,
            info: self.info,
            count: self.ref_count as nat,
        }
    }
}

/// The name that the built-in kinds report as their type.
pub open spec fn builtin_type_name<N>(v: Value<N>) -> Seq<char> {
    match v {
        Value::Nil => "nil"@,
        Value::Integer(_) => "int"@,
        Value::Float(_) => "float"@,
        Value::String(_) => "string"@,
        Value::Boolean(_) => "bool"@,
        Value::Vector(_) => "Vec"@,
        Value::Func(_) => "Func"@,
        Value::Native(_) => Seq::empty(),
    }
}

/// What indexing the elements `v` through a call with `args` gives: exactly one
/// integer argument inside `0 .. len`, and then a deep copy of that element.
pub open spec fn indexed_by_call<N>(
    v: Seq<Value<N>>,
    args: Seq<Value<N>>,
    r: Result<Value<N>, VarError>,
) -> bool {
    if args.len() != 1 {
        r == Err::<Value<N>, VarError>(VarError::IndexArity)
    } else {
        match args[0] {
            Value::Integer(i) => if 0 <= i < v.len() {
                r is Ok && r->Ok_0.same_as(v[i as int])
            } else {
                r == Err::<Value<N>, VarError>(VarError::IndexOutOfBounds)
            },
            _ => r == Err::<Value<N>, VarError>(VarError::IndexNotInteger),
        }
    }
}

/// Indexing a vector through call syntax.
fn index_vector<N: Native>(v: &Vec<Value<N>>, args: &[Value<N>]) -> (r: Result<Value<N>, VarError>)
    ensures
        indexed_by_call(v@, args@, r),
{
    if args.len() != 1 {
        return Err(VarError::IndexArity);
    }
    let idx: isize = match &args[0] {
        Value::Integer(i) => *i,
        _ => return Err(VarError::IndexNotInteger),
    };
    if idx < 0 || idx as usize >= v.len() {
        return Err(VarError::IndexOutOfBounds);
    }
    Ok(v[idx as usize].deep_clone())
}

impl<N> Var<N> {
    /// The reference count.
    pub open spec fn count(self) -> nat {
        self@.count
    }

    pub open spec fn is_unmanaged(self) -> bool {
        self@.info.unmanaged
    }

    /// Same value, origin, slot and flags; the count may differ.
    pub open spec fn same_but_count(self, other: Var<N>) -> bool {
        &&& self@.value == other@.value
        &&& self@.src_id == other@.src_id
        &&& self@.idx == other@.idx
        &&& self@.info == other@.info
    }

    /// The count after `iref`.
    pub open spec fn count_after_iref(self) -> nat {
        if self.is_unmanaged() {
            self.count()
        } else {
            self.count() + 1
        }
    }

    /// The count after `dref`.
    pub open spec fn count_after_dref(self) -> nat {
        if self.is_unmanaged() {
            self.count()
        } else {
            (self.count() - 1) as nat
        }
    }

    /// One standard deref: `None` when the variable is released by it, else the
    /// variable with its new count.
    pub closed spec fn deref_step(self) -> Option<Var<N>> {
        if self.is_unmanaged() {
            Some(self)
        } else if self.ref_count <= 1 {
            None
        } else {
            Some(Var { ref_count: (self.ref_count - 1) as usize, ..self })
        }
    }

    /// `n` standard derefs in a row; once released, nothing is left to deref.
    pub open spec fn deref_times(self, n: nat) -> Option<Var<N>>
        decreases n,
    {
        if n == 0 {
            Some(self)
        } else {
            match self.deref_times((n - 1) as nat) {
                Some(v) => v.deref_step(),
                None => None,
            }
        }
    }

    pub fn new(src_id: usize, idx: usize, info: VarInfo, value: Value<N>) -> (r: Var<N>)
        ensures
            r@.value == value,
            r@.src_id == src_id,
            r@.idx == idx,
            r@.info == info,
            r.count() == 1,
    {
        Var { value, src_id, idx, info, ref_count: 1 }
    }

    /// Takes one more reference, unless the variable is unmanaged.
    pub fn iref(&mut self)
        requires
            !old(self).is_unmanaged() ==> old(self).count() < usize::MAX,
        ensures
            final(self).same_but_count(*old(self)),
            final(self).count() == old(self).count_after_iref(),
            old(self).is_unmanaged() ==> *final(self) == *old(self),
    {
        if self.info.unmanaged {
            return;
        }
        self.ref_count = self.ref_count + 1;
    }

    /// Gives one reference back, unless the variable is unmanaged. The caller
    /// releases the variable when the count reaches zero.
    pub fn dref(&mut self)
        requires
            !old(self).is_unmanaged() ==> old(self).count() > 0,
        ensures
            final(self).same_but_count(*old(self)),
            final(self).count() == old(self).count_after_dref(),
            old(self).is_unmanaged() ==> *final(self) == *old(self),
    {
        if self.info.unmanaged {
            return;
        }
        self.ref_count = self.ref_count - 1;
    }

    pub fn ref_count(&self) -> (r: usize)
        ensures
            r == self.count(),
    {
        self.ref_count
    }
}

impl<N: Native> Var<N> {
    /// The type identity of the held value: a fixed name for each built-in
    /// kind, the object's own identity for a native value.
    pub fn type_id(&self) -> (r: NativeTypeId)
        where
            N: 'static,
        ensures
            !(self@.value is Native) ==> r.name is Some && r.name->Some_0@ == builtin_type_name(
                self@.value,
            ),
    {
        proof {
            reveal_strlit("nil");
            reveal_strlit("int");
            reveal_strlit("float");
            reveal_strlit("string");
            reveal_strlit("bool");
            reveal_strlit("Vec");
            reveal_strlit("Func");
        }
        match &self.value {
            Value::Nil => NativeTypeId::of::<()>(Some("nil".to_owned())),
            Value::Integer(_) => NativeTypeId::of::<isize>(Some("int".to_owned())),
            Value::Float(_) => NativeTypeId::of::<u64>(Some("float".to_owned())),
            Value::String(_) => NativeTypeId::of::<String>(Some("string".to_owned())),
            Value::Boolean(_) => NativeTypeId::of::<bool>(Some("bool".to_owned())),
            Value::Vector(_) => NativeTypeId::of::<Vec<Value<N>>>(Some("Vec".to_owned())),
            Value::Func(_) => NativeTypeId::of::<Func<N>>(Some("Func".to_owned())),
            Value::Native(native) => native.type_id(),
        }
    }

    /// A native value answers for itself; any other value by its flags.
    pub fn is_feature_supported(&self, feature: NativeFeature) -> (r: bool)
        ensures
            match self@.value {
                Value::Native(n) => r ==> n.supports(feature),
                _ => r == self@.info.has(feature),
            },
    {
        if let Value::Native(native) = &self.value {
            native.is_feature_supported(feature)
        } else {
            self.info.has_feature(feature)
        }
    }

    /// Call syntax on the held value. A native value handles the call itself; a
    /// vector is indexed when the state allows it; anything else is not callable.
    pub fn call(&self, state: &mut State<N>, args: &[Value<N>]) -> (r: Result<Value<N>, VarError>)
        ensures
            match self@.value {
                Value::Native(n) => r is Ok ==> n.supports(NativeFeature::Callable),
                Value::Vector(v) => {
                    &&& *final(state) == *old(state)
                    &&& old(state).allow_vector_indexing_via_call ==> indexed_by_call(
                        v@,
                        args@,
                        r,
                    )
                    &&& !old(state).allow_vector_indexing_via_call ==> r == Err::<
                        Value<N>,
                        VarError,
                    >(VarError::NotCallable)
                },
                _ => *final(state) == *old(state) && r == Err::<Value<N>, VarError>(
                    VarError::NotCallable,
                ),
            },
    {
        match &self.value {
            Value::Native(native) => native.call(state, args),
            Value::Vector(v) => {
                if !state.allow_vector_indexing_via_call {
                    return Err(VarError::NotCallable);
                }
                index_vector(v, args)
            },
            _ => Err(VarError::NotCallable),
        }
    }

    pub fn attr_exists(&self, name: &str) -> (r: bool)
        ensures
            match self@.value {
                Value::Native(n) => r ==> n.attr(name@) is Some,
                _ => !r,
            },
    {
        if let Value::Native(native) = &self.value {
            native.attr_exists(name)
        } else {
            false
        }
    }

    pub fn attr_get(&self, name: &str) -> (r: Result<&Value<N>, VarError>)
        ensures
            match self@.value {
                Value::Native(n) => match r {
                    Ok(v) => n.supports(NativeFeature::AttrBased) && n.attr(name@) == Some(*v),
                    Err(_) => true,
                },
                _ => r == Err::<&Value<N>, VarError>(VarError::NotAttrBased),
            },
    {
        if let Value::Native(native) = &self.value {
            native.attr_get(name)
        } else {
            Err(VarError::NotAttrBased)
        }
    }

    pub fn attr_set(&mut self, name: &str, value: Value<N>) -> (r: Result<(), VarError>)
        ensures
            final(self)@.src_id == old(self)@.src_id,
            final(self)@.idx == old(self)@.idx,
            final(self)@.info == old(self)@.info,
            final(self).count() == old(self).count(),
            r is Err ==> *final(self) == *old(self),
            old(self)@.value is Native ==> final(self)@.value is Native,
            old(self)@.value is Native && r is Ok ==> final(self)@.value->Native_0.attr(name@)
                == Some(value),
            !(old(self)@.value is Native) ==> r == Err::<(), VarError>(VarError::NotAttrBased),
    {
        if let Value::Native(native) = &mut self.value {
            native.attr_set(name, value)
        } else {
            Err(VarError::NotAttrBased)
        }
    }
}

/// Standard deref: gives one reference back and releases the variable when
/// none is left. Returns the variable while it lives on, `None` once released;
/// a released variable is consumed and cannot be released again.
pub fn var_deref<N>(var: Var<N>) -> (r: Option<Var<N>>)
    requires
        var.count() > 0,
    ensures
        r == var.deref_step(),
        r is None <==> (!var.is_unmanaged() && var.count() == 1),
        r matches Some(v) ==> v.same_but_count(var) && v.count() == var.count_after_dref(),
{
    let mut var = var;
    var.dref();
    if var.ref_count() == 0 {
        // `var` goes out of scope here, which releases its value.
        None
    } else {
        Some(var)
    }
}

/// Unmanaged force-release: neutralises a variable whose payload the host has
/// already disposed of. The value becomes `Nil` and the variable managed; the
/// count is left as it is.
pub fn var_deref_unmanaged<N>(var: &mut Var<N>)
    ensures
        final(var)@.value == Value::<N>::Nil,
        !final(var).is_unmanaged(),
        forall|f: NativeFeature| f != NativeFeature::Unmanaged ==> (final(var)@.info.has(f) == old(var)@.info.has(f)),
        final(var)@.src_id == old(var)@.src_id,
        final(var)@.idx == old(var)@.idx,
        final(var).count() == old(var).count(),
{
    var.value = Value::Nil;
    var.info.unmanaged = false;
}

/// Forced transition: makes the variable managed, then performs one standard
/// deref.
pub fn var_deref_forced<N>(var: Var<N>) -> (r: Option<Var<N>>)
    requires
        var.count() > 0,
    ensures
        r is None <==> var.count() == 1,
        r matches Some(v) ==> {
            &&& v@.value == var@.value
            &&& v@.src_id == var@.src_id
            &&& v@.idx == var@.idx
            &&& !v.is_unmanaged()
            &&& forall|f: NativeFeature| f != NativeFeature::Unmanaged ==> (v@.info.has(f) == var@.info.has(f))
            &&& v.count() == var.count() - 1
        },
{
    let mut var = var;
    var.info.unmanaged = false;
    var_deref(var)
}

/// Between an `iref` and a `dref` on a managed variable, the count comes back
/// to where it was and nothing else moves.
pub proof fn lemma_iref_then_dref<N>(a: Var<N>, b: Var<N>, c: Var<N>)
    requires
        !a.is_unmanaged(),
        b.same_but_count(a),
        b.count() == a.count_after_iref(),
        c.same_but_count(b),
        c.count() == b.count_after_dref(),
    ensures
        c.same_but_count(a),
        c.count() == a.count(),
{
}

/// On an unmanaged variable neither `iref` nor `dref` changes the count.
pub proof fn lemma_unmanaged_count_fixed<N>(v: Var<N>)
    requires
        v.is_unmanaged(),
    ensures
        v.count_after_iref() == v.count(),
        v.count_after_dref() == v.count(),
        v.deref_step() == Some(v),
{
}

/// Standard derefs on a managed variable with count `c` keep it alive for the
/// first `c - 1` steps and release it at step `c`, and only there.
pub proof fn lemma_deref_releases_once<N>(v: Var<N>, k: nat)
    requires
        !v.is_unmanaged(),
        v.count() >= 1,
    ensures
        k < v.count() ==> v.deref_times(k) is Some && v.deref_times(k)->Some_0.count() == v.count()
            - k && v.deref_times(k)->Some_0.same_but_count(v),
        k >= v.count() ==> v.deref_times(k) is None,
    decreases k,
{
    if k > 0 {
        lemma_deref_releases_once(v, (k - 1) as nat);
    }
}

} // verus!
