//! `VarMap`: the native type that gives objects named attributes.
use vstd::prelude::*;

use crate::value::{Native, NativeFeature, NativeTypeId, Value, VarError};

verus! {

/// Attribute storage: a hashbrown map from attribute names to values.
#[verifier::external_body]
#[derive(Debug, PartialEq)]
pub struct AttrTable {
    m: hashbrown::HashMap<String, Value<VarMap>>,
}

/// Attribute names, as characters, mapped to their values.
pub type AttrEntries = Map<Seq<char>, Value<VarMap>>;

/// The entries of an attribute table, keyed by the characters of the name.
pub uninterp spec fn attr_entries(t: AttrTable) -> AttrEntries;

impl AttrTable {
    /// Relies on `hashbrown::HashMap::new`: the map starts empty.
    #[verifier::external_body]
    fn new() -> (r: AttrTable)
        ensures
            attr_entries(r) == AttrEntries::empty(),
    {
        AttrTable { m: hashbrown::HashMap::new() }
    }

    /// Relies on `hashbrown::HashMap::contains_key`: whether the key is present.
    #[verifier::external_body]
    fn contains(&self, k: &str) -> (r: bool)
        ensures
            r == attr_entries(*self).dom().contains(k@),
    {
        self.m.contains_key(k)
    }

    /// Relies on `hashbrown::HashMap::get`: the value under the key, if present.
    #[verifier::external_body]
    fn get(&self, k: &str) -> (r: Option<&Value<VarMap>>)
        ensures
            r is Some <==> attr_entries(*self).dom().contains(k@),
            r matches Some(v) ==> *v == attr_entries(*self)[k@],
    {
        self.m.get(k)
    }

    /// Relies on `hashbrown::HashMap::insert`: the key now maps to the value,
    /// replacing any earlier one; other keys are untouched.
    #[verifier::external_body]
    fn insert(&mut self, k: &str, v: Value<VarMap>)
        ensures
            attr_entries(*final(self)) == attr_entries(*old(self)).insert(k@, v),
    {
        self.m.insert(k.to_string(), v);
    }

    /// Relies on `Clone` for `hashbrown::HashMap`: a separate table with the
    /// same entries.
    #[verifier::external_body]
    fn duplicate(&self) -> (r: AttrTable)
        ensures
            r == *self,
    {
        AttrTable { m: self.m.clone() }
    }
}

/// A string-keyed attribute container; the one feature it supports is being
/// attribute based. Keys have no order.
#[derive(Debug, PartialEq)]
pub struct VarMap {
    inner: AttrTable,
}

impl View for VarMap {
    type V = AttrEntries;

    closed spec fn view(&self) -> AttrEntries {
        attr_entries(self.inner)
    }
}

impl VarMap {
    /// An empty map.
    pub fn new() -> (r: VarMap)
        ensures
            r@ == AttrEntries::empty(),
    {
        VarMap { inner: AttrTable::new() }
    }
}

impl Default for VarMap {
    fn default() -> (r: VarMap)
        ensures
            r@ == AttrEntries::empty(),
    {
        VarMap::new()
    }
}

impl Native for VarMap {
    open spec fn supports(&self, feature: NativeFeature) -> bool {
        feature == NativeFeature::AttrBased
    }

    open spec fn attr(&self, name: Seq<char>) -> Option<Value<VarMap>> {
        if self@.dom().contains(name) {
            Some(self@[name])
        } else {
            None
        }
    }

    fn is_feature_supported(&self, feature: NativeFeature) -> (r: bool)
        ensures
            r == (feature == NativeFeature::AttrBased),
    {
        matches!(feature, NativeFeature::AttrBased)
    }

    fn attr_exists(&self, name: &str) -> (r: bool)
        ensures
            r == self@.dom().contains(name@),
    {
        self.inner.contains(name)
    }

    fn attr_get(&self, name: &str) -> (r: Result<&Value<VarMap>, VarError>)
        ensures
            match r {
                Ok(v) => self@.dom().contains(name@) && *v == self@[name@],
                Err(e) => !self@.dom().contains(name@) && e == VarError::NoSuchAttribute,
            },
    {
        match self.inner.get(name) {
            Some(value) => Ok(value),
            None => Err(VarError::NoSuchAttribute),
        }
    }

    fn attr_set(&mut self, name: &str, value: Value<VarMap>) -> (r: Result<(), VarError>)
        ensures
            r is Ok,
            final(self)@ == old(self)@.insert(name@, value),
    {
        self.inner.insert(name, value);
        Ok(())
    }

    fn duplicate(&self) -> (r: VarMap)
        ensures
            r == *self,
    {
        VarMap { inner: self.inner.duplicate() }
    }

    fn type_id(&self) -> (r: NativeTypeId)
        ensures
            r.name is Some && r.name->Some_0@ == "VarMap"@,
    {
        proof {
            reveal_strlit("VarMap");
        }
        NativeTypeId::of::<VarMap>(Some("VarMap".to_owned()))
    }
}

/// On a `VarMap`, `attr_exists` holds for a name exactly when `attr_get`
/// finds it: both answer by whether the name is in the map.
pub proof fn lemma_attr_exists_agrees_with_get(m: VarMap, name: Seq<char>)
    ensures
        m.attr(name) is Some <==> m@.dom().contains(name),
        m.attr(name) is Some ==> m.attr(name) == Some(m@[name]),
{
}

} // verus!
