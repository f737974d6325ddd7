//! Runtime values, capability flags, errors and the native extension protocol.
use vstd::prelude::*;

use crate::state::State;

verus! {

broadcast use vstd::std_specs::vec::group_vec_axioms;

#[verifier::external_type_specification]
#[verifier::external_body]
pub struct ExTypeId(std::any::TypeId);

/// Relies on `std::any::TypeId::of`: a token for the type `T`; nothing is
/// stated of its value.
pub assume_specification<T: ?Sized + 'static>[ std::any::TypeId::of::<T> ]() -> std::any::TypeId;

/// The bytecode instruction span of a function.
#[derive(Debug, Clone, Copy, PartialEq, Eq)]
pub struct FuncSpan {
    pub start: usize,
    pub end: usize,
}

/// A host function callable from guest code. Verus cannot represent function
/// pointers, so the pointer is held opaquely and only carried through.
#[verifier::external_body]
#[verifier::reject_recursive_types(N)]
#[derive(Debug, PartialEq)]
pub struct NativeFn<N>(pub fn(&mut State<N>, &[Value<N>]) -> Result<Value<N>, VarError>);

impl<N> Clone for NativeFn<N> {
    fn clone(&self) -> Self {
        *self
    }
}

impl<N> Copy for NativeFn<N> {
}

/// A function value.
#[verifier::reject_recursive_types(N)]
#[derive(Debug, Clone, PartialEq)]
pub enum Func<N> {
    Native(NativeFn<N>),
    Bytecode(FuncSpan),
}

/// A runtime value. `N` is the host's native type, the one open kind.
/// A float is kept as its IEEE-754 binary64 bit pattern.
#[verifier::reject_recursive_types(N)]
#[derive(Debug, PartialEq)]
pub enum Value<N> {
    Nil,
    Integer(isize),
    Float(u64),
    String(String),
    Boolean(bool),
    Vector(Vec<Value<N>>),
    Func(Func<N>),
    Native(N),
}

impl<N> Value<N> {
    /// Structural equality: same kind and payload, vectors element by element.
    pub open spec fn same_as(self, other: Value<N>) -> bool
        decreases self,
    {
        match (self, other) {
            (Value::Vector(a), Value::Vector(b)) => {
                &&& a@.len() == b@.len()
                &&& forall|i: int| 0 <= i < a@.len() ==> (#[trigger] a@[i]).same_as(b@[i])
            },
            _ => self == other,
        }
    }

    /// A deep copy: vector elements are copied one by one, native objects
    /// through their own duplication.
    pub fn deep_clone(&self) -> (r: Value<N>)
        where
            N: Native,
        ensures
            r.same_as(*self),
            self.same_as(r),
        decreases self,
    {
        match self {
            Value::Nil => Value::Nil,
            Value::Integer(i) => Value::Integer(*i),
            Value::Float(b) => Value::Float(*b),
            Value::String(s) => Value::String(s.clone()),
            Value::Boolean(b) => Value::Boolean(*b),
            Value::Func(f) => match f {
                Func::Native(p) => Value::Func(Func::Native(*p)),
                Func::Bytecode(span) => Value::Func(Func::Bytecode(*span)),
            },
            Value::Native(n) => Value::Native(n.duplicate()),
            Value::Vector(v) => {
                let mut out: Vec<Value<N>> = Vec::new();
                let mut i: usize = 0;
                while i < v.len()
                    invariant
                        *self == Value::<N>::Vector(*v),
                        i <= v@.len(),
                        out@.len() == i,
                        forall|j: int| 0 <= j < i ==> (#[trigger] out@[j]).same_as(v@[j]),
                        forall|j: int| 0 <= j < i ==> (#[trigger] v@[j]).same_as(out@[j]),
                    decreases v@.len() - i,
                {
                    proof {
                        assert(decreases_to!(*self => (*self)->Vector_0));
                        assert(decreases_to!(v => v[i as int]));
                    }
                    let e = v[i].deep_clone();
                    out.push(e);
                    i = i + 1;
                }
                Value::Vector(out)
            },
        }
    }
}

impl<N: Native> Clone for Value<N> {
    fn clone(&self) -> Self {
        self.deep_clone()
    }
}

/// Optional behaviours of a native object or a variable.
#[derive(Debug, Clone, Copy, PartialEq, Eq)]
pub enum NativeFeature {
    Callable,
    AttrBased,
    LoadAsRef,
    Unmanaged,
}

/// Capability flags of a variable, one bit each.
#[derive(Debug, Clone, Copy, PartialEq, Eq, Default)]
pub struct VarInfo {
    pub callable: bool,
    pub attr_based: bool,
    pub load_as_ref: bool,
    pub unmanaged: bool,
}

impl VarInfo {
    /// Whether the flag that stands for `f` is set.
    pub open spec fn has(self, f: NativeFeature) -> bool {
        match f {
            NativeFeature::Callable => self.callable,
            NativeFeature::AttrBased => self.attr_based,
            NativeFeature::LoadAsRef => self.load_as_ref,
            NativeFeature::Unmanaged => self.unmanaged,
        }
    }

    /// Every flag of `other` is set in `self`.
    pub open spec fn includes(self, other: VarInfo) -> bool {
        &&& other.callable ==> self.callable
        &&& other.attr_based ==> self.attr_based
        &&& other.load_as_ref ==> self.load_as_ref
        &&& other.unmanaged ==> self.unmanaged
    }

    pub fn empty() -> (r: VarInfo)
        ensures
            forall|f: NativeFeature| !r.has(f),
    {
        VarInfo { callable: false, attr_based: false, load_as_ref: false, unmanaged: false }
    }

    /// The set holding only the flag for `f`.
    pub fn of(f: NativeFeature) -> (r: VarInfo)
        ensures
            forall|g: NativeFeature| r.has(g) <==> g == f,
    {
        let mut r = VarInfo::empty();
        r.insert_feature(f);
        r
    }

    pub fn callable() -> (r: VarInfo)
        ensures
            forall|g: NativeFeature| r.has(g) <==> g == NativeFeature::Callable,
    {
        VarInfo::of(NativeFeature::Callable)
    }

    pub fn attr_based() -> (r: VarInfo)
        ensures
            forall|g: NativeFeature| r.has(g) <==> g == NativeFeature::AttrBased,
    {
        VarInfo::of(NativeFeature::AttrBased)
    }

    pub fn load_as_ref() -> (r: VarInfo)
        ensures
            forall|g: NativeFeature| r.has(g) <==> g == NativeFeature::LoadAsRef,
    {
        VarInfo::of(NativeFeature::LoadAsRef)
    }

    pub fn unmanaged() -> (r: VarInfo)
        ensures
            forall|g: NativeFeature| r.has(g) <==> g == NativeFeature::Unmanaged,
    {
        VarInfo::of(NativeFeature::Unmanaged)
    }

    /// The flag bits: callable 1, attribute based 2, load as reference 4, unmanaged 8.
    pub fn bits(&self) -> (r: u32)
        ensures
            r == (if self.callable { 1u32 } else { 0 }) + (if self.attr_based { 2u32 } else { 0 })
                + (if self.load_as_ref { 4u32 } else { 0 }) + (if self.unmanaged { 8u32 } else { 0 }),
    {
        let mut r: u32 = 0;
        if self.callable {
            r = r + 1;
        }
        if self.attr_based {
            r = r + 2;
        }
        if self.load_as_ref {
            r = r + 4;
        }
        if self.unmanaged {
            r = r + 8;
        }
        r
    }

    pub fn contains(&self, other: VarInfo) -> (r: bool)
        ensures
            r == self.includes(other),
    {
        (!other.callable || self.callable) && (!other.attr_based || self.attr_based) && (
        !other.load_as_ref || self.load_as_ref) && (!other.unmanaged || self.unmanaged)
    }

    pub fn has_feature(&self, f: NativeFeature) -> (r: bool)
        ensures
            r == self.has(f),
    {
        match f {
            NativeFeature::Callable => self.callable,
            NativeFeature::AttrBased => self.attr_based,
            NativeFeature::LoadAsRef => self.load_as_ref,
            NativeFeature::Unmanaged => self.unmanaged,
        }
    }

    pub fn union(&self, other: VarInfo) -> (r: VarInfo)
        ensures
            forall|f: NativeFeature| r.has(f) <==> (self.has(f) || other.has(f)),
    {
        VarInfo {
            callable: self.callable || other.callable,
            attr_based: self.attr_based || other.attr_based,
            load_as_ref: self.load_as_ref || other.load_as_ref,
            unmanaged: self.unmanaged || other.unmanaged,
        }
    }

    /// Sets every flag of `other`.
    pub fn insert(&mut self, other: VarInfo)
        ensures
            forall|f: NativeFeature| final(self).has(f) <==> (old(self).has(f) || other.has(f)),
    {
        *self = self.union(other);
    }

    /// Clears every flag of `other`.
    pub fn remove(&mut self, other: VarInfo)
        ensures
            forall|f: NativeFeature| final(self).has(f) <==> (old(self).has(f) && !other.has(f)),
    {
        self.callable = self.callable && !other.callable;
        self.attr_based = self.attr_based && !other.attr_based;
        self.load_as_ref = self.load_as_ref && !other.load_as_ref;
        self.unmanaged = self.unmanaged && !other.unmanaged;
    }

    /// Sets the flag for `f`.
    pub fn insert_feature(&mut self, f: NativeFeature)
        ensures
            forall|g: NativeFeature| final(self).has(g) <==> (old(self).has(g) || g == f),
    {
        match f {
            NativeFeature::Callable => self.callable = true,
            NativeFeature::AttrBased => self.attr_based = true,
            NativeFeature::LoadAsRef => self.load_as_ref = true,
            NativeFeature::Unmanaged => self.unmanaged = true,
        }
    }

    /// Clears the flag for `f`.
    pub fn remove_feature(&mut self, f: NativeFeature)
        ensures
            forall|g: NativeFeature| final(self).has(g) <==> (old(self).has(g) && g != f),
    {
        match f {
            NativeFeature::Callable => self.callable = false,
            NativeFeature::AttrBased => self.attr_based = false,
            NativeFeature::LoadAsRef => self.load_as_ref = false,
            NativeFeature::Unmanaged => self.unmanaged = false,
        }
    }
}

/// Identity of a value's type: an optional readable name and a token that
/// stands for one concrete type.
#[derive(Debug)]
pub struct NativeTypeId {
    pub name: Option<String>,
    pub id: std::any::TypeId,
}

impl NativeTypeId {
    /// The identity of the type `T` under the given name.
    pub fn of<T: ?Sized + 'static>(name: Option<String>) -> (r: NativeTypeId)
        ensures
            r.name == name,
    {
        NativeTypeId { id: std::any::TypeId::of::<T>(), name }
    }
}

/// Recoverable failures of value operations, each with a readable message.
#[derive(Debug, Clone, PartialEq, Eq)]
pub enum VarError {
    /// The held value has no call behaviour.
    NotCallable,
    /// A native object that does not implement calls.
    NativeNotCallable,
    /// The held value has no attributes.
    NotAttrBased,
    /// A native object that does not implement attributes.
    NativeNotAttrBased,
    /// An attribute lookup on a name that is not present.
    NoSuchAttribute,
    /// Vector indexing through a call with other than one argument.
    IndexArity,
    /// Vector indexing through a call whose argument is not an integer.
    IndexNotInteger,
    /// Vector indexing through a call outside `0 .. len`.
    IndexOutOfBounds,
    /// A guest call nested deeper than the state allows.
    ExecStackExceeded,
    /// A failure reported by a native object or function.
    Custom(String),
}

impl VarError {
    pub open spec fn text(self) -> Seq<char> {
        match self {
            VarError::NotCallable => "not callable"@,
            VarError::NativeNotCallable => "Native type not callable"@,
            VarError::NotAttrBased => "not attr based"@,
            VarError::NativeNotAttrBased => "Native type not attr based"@,
            VarError::NoSuchAttribute => "no such attribute"@,
            VarError::IndexArity => "callable indexing must contain only one argument"@,
            VarError::IndexNotInteger => "callable indexing must contain an integer"@,
            VarError::IndexOutOfBounds => "callable indexing out of bounds"@,
            VarError::ExecStackExceeded => "exec stack count exceeded"@,
            VarError::Custom(s) => s@,
        }
    }

    /// The readable message of this error.
    pub fn message(&self) -> (r: String)
        ensures
            r@ == self.text(),
    {
        match self {
            VarError::NotCallable => "not callable".to_owned(),
            VarError::NativeNotCallable => "Native type not callable".to_owned(),
            VarError::NotAttrBased => "not attr based".to_owned(),
            VarError::NativeNotAttrBased => "Native type not attr based".to_owned(),
            VarError::NoSuchAttribute => "no such attribute".to_owned(),
            VarError::IndexArity => "callable indexing must contain only one argument".to_owned(),
            VarError::IndexNotInteger => "callable indexing must contain an integer".to_owned(),
            VarError::IndexOutOfBounds => "callable indexing out of bounds".to_owned(),
            VarError::ExecStackExceeded => "exec stack count exceeded".to_owned(),
            VarError::Custom(s) => s.clone(),
        }
    }
}

/// The protocol of a host-defined type held in `Value::Native`.
///
/// The spec functions describe the object: which features it reports and what
/// attributes it holds. Every operation has a safe default that reports no
/// feature and fails; an implementation overrides the ones it supports. An
/// operation may only succeed for a feature the object supports.
pub trait Native: Sized {
    /// Whether the object supports the feature; by default none.
    open spec fn supports(&self, feature: NativeFeature) -> bool {
        false
    }

    /// The attribute held under `name`, if any; by default none.
    open spec fn attr(&self, name: Seq<char>) -> Option<Value<Self>> {
        None
    }

    /// Reports whether a feature is supported.
    fn is_feature_supported(&self, feature: NativeFeature) -> (r: bool)
        ensures
            r ==> self.supports(feature),
    {
        false
    }

    /// Call syntax: `thing()`.
    fn call(&self, state: &mut State<Self>, args: &[Value<Self>]) -> (r: Result<
        Value<Self>,
        VarError,
    >)
        ensures
            r is Ok ==> self.supports(NativeFeature::Callable),
    {
        Err(VarError::NativeNotCallable)
    }

    /// Attribute membership: `"attr" in thing`.
    fn attr_exists(&self, name: &str) -> (r: bool)
        ensures
            r ==> self.attr(name@) is Some,
    {
        false
    }

    /// Attribute access: `thing.attr`.
    fn attr_get(&self, name: &str) -> (r: Result<&Value<Self>, VarError>)
        ensures
            match r {
                Ok(v) => self.supports(NativeFeature::AttrBased) && self.attr(name@) == Some(*v),
                Err(_) => true,
            },
    {
        Err(VarError::NativeNotAttrBased)
    }

    /// Attribute assignment: `thing.attr = value`.
    fn attr_set(&mut self, name: &str, value: Value<Self>) -> (r: Result<(), VarError>)
        ensures
            r is Ok ==> old(self).supports(NativeFeature::AttrBased) && final(self).attr(name@)
                == Some(value),
            r is Err ==> *final(self) == *old(self),
    {
        Err(VarError::NativeNotAttrBased)
    }

    /// A copy that shares no mutable state with the original.
    fn duplicate(&self) -> (r: Self)
        ensures
            r == *self,
    ;

    /// The identity of the concrete type.
    fn type_id(&self) -> NativeTypeId;
}

} // verus!
