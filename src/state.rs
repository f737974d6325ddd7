//! Per-instance VM state: shared singletons, the native library registry,
//! exit status and guest call depth.
use vstd::prelude::*;

use crate::value::{NativeFeature, Value, VarError, VarInfo};
use crate::var::Var;

verus! {

#[verifier::external_type_specification]
#[verifier::external_body]
pub struct ExLibrary(libloading::Library);

/// The teardown entry point of a loaded native library. Verus cannot
/// represent function pointers, so the pointer is held opaquely and only
/// carried through; the host calls it.
#[verifier::external_body]
#[derive(Debug)]
pub struct NativeDeinit(pub fn());

impl Clone for NativeDeinit {
    fn clone(&self) -> Self {
        *self
    }
}

impl Copy for NativeDeinit {
}

/// Loaded libraries by name: a hashbrown map to libloading handles.
#[verifier::external_body]
#[derive(Debug)]
pub struct LibTable {
    m: hashbrown::HashMap<String, libloading::Library>,
}

/// The entries of a library table, keyed by the characters of the name.
pub uninterp spec fn lib_entries(t: LibTable) -> Map<Seq<char>, libloading::Library>;

/// Deinitializers by library name: a hashbrown map.
#[verifier::external_body]
#[derive(Debug)]
pub struct DeinitTable {
    m: hashbrown::HashMap<String, NativeDeinit>,
}

/// The entries of a deinitializer table, keyed by the characters of the name.
pub uninterp spec fn deinit_entries(t: DeinitTable) -> Map<Seq<char>, NativeDeinit>;

impl LibTable {
    /// Relies on `hashbrown::HashMap::new`: the map starts empty.
    #[verifier::external_body]
    fn new() -> (r: LibTable)
        ensures
            lib_entries(r).dom().is_empty(),
    {
        LibTable { m: hashbrown::HashMap::new() }
    }

    /// Relies on `hashbrown::HashMap::contains_key`: whether the key is present.
    #[verifier::external_body]
    fn contains(&self, k: &str) -> (r: bool)
        ensures
            r == lib_entries(*self).dom().contains(k@),
    {
        self.m.contains_key(k)
    }

    /// Relies on `hashbrown::HashMap::insert`: the key now maps to the handle,
    /// replacing any earlier one; other keys are untouched.
    #[verifier::external_body]
    fn insert(&mut self, k: String, v: libloading::Library)
        ensures
            lib_entries(*final(self)) == lib_entries(*old(self)).insert(k@, v),
    {
        self.m.insert(k, v);
    }

    /// Relies on `hashbrown::HashMap::remove`: takes out the entry under the
    /// key, if there is one, and returns its handle.
    #[verifier::external_body]
    fn remove(&mut self, k: &str) -> (r: Option<libloading::Library>)
        ensures
            r is Some <==> lib_entries(*old(self)).dom().contains(k@),
            r matches Some(v) ==> v == lib_entries(*old(self))[k@],
            lib_entries(*final(self)) == lib_entries(*old(self)).remove(k@),
    {
        self.m.remove(k)
    }
}

impl DeinitTable {
    /// Relies on `hashbrown::HashMap::new`: the map starts empty.
    #[verifier::external_body]
    fn new() -> (r: DeinitTable)
        ensures
            deinit_entries(r).dom().is_empty(),
    {
        DeinitTable { m: hashbrown::HashMap::new() }
    }

    /// Relies on `hashbrown::HashMap::insert`: the key now maps to the
    /// deinitializer, replacing any earlier one; other keys are untouched.
    #[verifier::external_body]
    fn insert(&mut self, k: String, v: NativeDeinit)
        ensures
            deinit_entries(*final(self)) == deinit_entries(*old(self)).insert(k@, v),
    {
        self.m.insert(k, v);
    }

    /// Relies on `hashbrown::HashMap::remove`: takes out the entry under the
    /// key, if there is one, and returns its deinitializer.
    #[verifier::external_body]
    fn remove(&mut self, k: &str) -> (r: Option<NativeDeinit>)
        ensures
            r is Some <==> deinit_entries(*old(self)).dom().contains(k@),
            r matches Some(v) ==> v == deinit_entries(*old(self))[k@],
            deinit_entries(*final(self)) == deinit_entries(*old(self)).remove(k@),
    {
        self.m.remove(k)
    }
}

/// The call depth after a guest call is entered from depth `count` under the
/// limit `max`, and whether the limit refused it.
pub open spec fn enter_outcome(count: usize, max: usize) -> (usize, bool) {
    if count < max {
        ((count + 1) as usize, false)
    } else {
        (count, true)
    }
}

/// The state of one running program. `N` is the host's native type.
///
/// Every loaded library has exactly one deinitializer: the two registries
/// always have the same names.
#[verifier::reject_recursive_types(N)]
#[derive(Debug)]
pub struct State<N> {
    pub exit_called: bool,
    pub exec_stack_count_exceeded: bool,
    pub exit_code: isize,
    pub exec_stack_count: usize,
    pub exec_stack_max: usize,
    /// Whether call syntax on a vector indexes it.
    pub allow_vector_indexing_via_call: bool,
    pub tru: Var<N>,
    pub fls: Var<N>,
    pub nil: Var<N>,
    pub dylib: LibTable,
    pub deinit: DeinitTable,
    pub src_args: Var<N>,
}

impl<N> State<N> {
    /// The names of the loaded libraries.
    pub open spec fn libraries(self) -> Map<Seq<char>, libloading::Library> {
        lib_entries(self.dylib)
    }

    /// The names of the registered deinitializers.
    pub open spec fn deinitializers(self) -> Map<Seq<char>, NativeDeinit> {
        deinit_entries(self.deinit)
    }

    pub open spec fn wf(self) -> bool {
        self.libraries().dom() == self.deinitializers().dom()
    }

    /// Everything but the library registries is as in `other`.
    pub open spec fn same_but_libraries(self, other: State<N>) -> bool {
        &&& self.exit_called == other.exit_called
        &&& self.exec_stack_count_exceeded == other.exec_stack_count_exceeded
        &&& self.exit_code == other.exit_code
        &&& self.exec_stack_count == other.exec_stack_count
        &&& self.exec_stack_max == other.exec_stack_max
        &&& self.allow_vector_indexing_via_call == other.allow_vector_indexing_via_call
        &&& self.tru == other.tru
        &&& self.fls == other.fls
        &&& self.nil == other.nil
        &&& self.src_args == other.src_args
    }

    /// The singletons, the argument vector and the indexing option are as in `other`.
    pub open spec fn same_values(self, other: State<N>) -> bool {
        &&& self.allow_vector_indexing_via_call == other.allow_vector_indexing_via_call
        &&& self.tru == other.tru
        &&& self.fls == other.fls
        &&& self.nil == other.nil
        &&& self.src_args == other.src_args
    }

    /// A fresh state: the singletons `true`, `false` and `nil` are immortal
    /// (unmanaged), no library is loaded, and `args` are exposed to guest code
    /// as a vector of strings.
    pub fn new(exec_stack_max: usize, args: &Vec<String>, allow_vector_indexing_via_call: bool) -> (r:
        State<N>)
        ensures
            r.wf(),
            r.libraries().dom().is_empty(),
            !r.exit_called,
            !r.exec_stack_count_exceeded,
            r.exit_code == 0,
            r.exec_stack_count == 0,
            r.exec_stack_max == exec_stack_max,
            r.allow_vector_indexing_via_call == allow_vector_indexing_via_call,
            r.tru@.value == Value::<N>::Boolean(true),
            r.fls@.value == Value::<N>::Boolean(false),
            r.nil@.value == Value::<N>::Nil,
            r.tru.is_unmanaged() && r.fls.is_unmanaged() && r.nil.is_unmanaged(),
            !r.src_args.is_unmanaged(),
            r.src_args.count() == 1,
            r.src_args@.value is Vector,
            r.src_args@.value->Vector_0@.len() == args@.len(),
            forall|i: int|
                0 <= i < args@.len() ==> #[trigger] r.src_args@.value->Vector_0@[i]
                    == Value::<N>::String(args@[i]),
    {
        let mut items: Vec<Value<N>> = Vec::new();
        let mut i: usize = 0;
        while i < args.len()
            invariant
                i <= args@.len(),
                items@.len() == i,
                forall|j: int| 0 <= j < i ==> #[trigger] items@[j] == Value::<N>::String(args@[j]),
            decreases args@.len() - i,
        {
            items.push(Value::String(args[i].clone()));
            i = i + 1;
        }
        let immortal = VarInfo::unmanaged();
        let plain = VarInfo::empty();
        proof {
            assert(immortal.has(NativeFeature::Unmanaged));
            assert(!plain.has(NativeFeature::Unmanaged));
        }
        let dylib = LibTable::new();
        let deinit = DeinitTable::new();
        proof {
            assert(lib_entries(dylib).dom() =~= deinit_entries(deinit).dom());
        }
        State {
            exit_called: false,
            exec_stack_count_exceeded: false,
            exit_code: 0,
            exec_stack_count: 0,
            exec_stack_max,
            allow_vector_indexing_via_call,
            tru: Var::new(0, 0, immortal, Value::Boolean(true)),
            fls: Var::new(0, 1, immortal, Value::Boolean(false)),
            nil: Var::new(0, 2, immortal, Value::Nil),
            dylib,
            deinit,
            src_args: Var::new(0, 3, plain, Value::Vector(items)),
        }
    }

    pub fn is_library_loaded(&self, name: &str) -> (r: bool)
        ensures
            r == self.libraries().dom().contains(name@),
    {
        self.dylib.contains(name)
    }

    /// Finishes loading the library `name` once its init entry point has run.
    /// When init succeeded the handle and the deinitializer are registered
    /// together; when it failed nothing is registered and the handle is
    /// dropped, which unloads it.
    pub fn complete_library_load(
        &mut self,
        name: String,
        lib: libloading::Library,
        deinit: NativeDeinit,
        init_succeeded: bool,
    ) -> (r: bool)
        requires
            old(self).wf(),
        ensures
            final(self).wf(),
            r == init_succeeded,
            final(self).same_but_libraries(*old(self)),
            init_succeeded ==> final(self).libraries() == old(self).libraries().insert(name@, lib),
            init_succeeded ==> final(self).deinitializers() == old(self).deinitializers().insert(
                name@,
                deinit,
            ),
            !init_succeeded ==> final(self).libraries() == old(self).libraries(),
            !init_succeeded ==> final(self).deinitializers() == old(self).deinitializers(),
    {
        if !init_succeeded {
            return false;
        }
        let key = name.clone();
        self.dylib.insert(name, lib);
        self.deinit.insert(key, deinit);
        proof {
            assert(self.libraries().dom() =~= self.deinitializers().dom());
        }
        true
    }

    /// Takes the library `name` out of both registries at once and hands back
    /// its handle and deinitializer; the caller runs the deinitializer, then
    /// drops the handle.
    pub fn unload_library(&mut self, name: &str) -> (r: Option<(libloading::Library, NativeDeinit)>)
        requires
            old(self).wf(),
        ensures
            final(self).wf(),
            final(self).same_but_libraries(*old(self)),
            r is Some <==> old(self).libraries().dom().contains(name@),
            r matches Some(p) ==> p.0 == old(self).libraries()[name@] && p.1
                == old(self).deinitializers()[name@],
            final(self).libraries() == old(self).libraries().remove(name@),
            final(self).deinitializers() == old(self).deinitializers().remove(name@),
    {
        let lib = self.dylib.remove(name);
        let deinit = self.deinit.remove(name);
        proof {
            assert(self.libraries().dom() =~= self.deinitializers().dom());
        }
        match (lib, deinit) {
            (Some(l), Some(d)) => Some((l, d)),
            _ => None,
        }
    }

    /// Enters a nested guest call. Past the depth limit the call is refused,
    /// the exceeded flag is set and the depth is left as it was.
    pub fn enter_call(&mut self) -> (r: Result<(), VarError>)
        ensures
            final(self).exec_stack_count == enter_outcome(
                old(self).exec_stack_count,
                old(self).exec_stack_max,
            ).0,
            r is Err <==> enter_outcome(old(self).exec_stack_count, old(self).exec_stack_max).1,
            r is Err ==> r == Err::<(), VarError>(VarError::ExecStackExceeded),
            final(self).same_values(*old(self)),
            final(self).exec_stack_count_exceeded == (old(self).exec_stack_count_exceeded || r is Err),
            final(self).exec_stack_max == old(self).exec_stack_max,
            final(self).exit_called == old(self).exit_called,
            final(self).exit_code == old(self).exit_code,
            final(self).libraries() == old(self).libraries(),
            final(self).deinitializers() == old(self).deinitializers(),
    {
        if self.exec_stack_count >= self.exec_stack_max {
            self.exec_stack_count_exceeded = true;
            return Err(VarError::ExecStackExceeded);
        }
        self.exec_stack_count = self.exec_stack_count + 1;
        Ok(())
    }

    /// Leaves a guest call that `enter_call` admitted.
    pub fn leave_call(&mut self)
        requires
            old(self).exec_stack_count > 0,
        ensures
            final(self).exec_stack_count == old(self).exec_stack_count - 1,
            final(self).same_values(*old(self)),
            final(self).exit_called == old(self).exit_called,
            final(self).exit_code == old(self).exit_code,
            final(self).exec_stack_count_exceeded == old(self).exec_stack_count_exceeded,
            final(self).exec_stack_max == old(self).exec_stack_max,
            final(self).libraries() == old(self).libraries(),
            final(self).deinitializers() == old(self).deinitializers(),
    {
        self.exec_stack_count = self.exec_stack_count - 1;
    }

    /// Records a guest request to end the program with `code`.
    pub fn request_exit(&mut self, code: isize)
        ensures
            final(self).exit_called,
            final(self).exit_code == code,
            final(self).same_values(*old(self)),
            final(self).exec_stack_max == old(self).exec_stack_max,
            final(self).exec_stack_count_exceeded == old(self).exec_stack_count_exceeded,
            final(self).exec_stack_count == old(self).exec_stack_count,
            final(self).libraries() == old(self).libraries(),
            final(self).deinitializers() == old(self).deinitializers(),
    {
        self.exit_called = true;
        self.exit_code = code;
    }
}

/// Loading keeps the registries paired: after a load whose init succeeded both
/// registries hold the name; after one that failed neither gained it.
pub proof fn lemma_load_pairs_registries<N>(before: State<N>, after: State<N>, name: Seq<char>, lib: libloading::Library, deinit: NativeDeinit, ok: bool)
    requires
        before.wf(),
        ok ==> after.libraries() == before.libraries().insert(name, lib),
        ok ==> after.deinitializers() == before.deinitializers().insert(name, deinit),
        !ok ==> after.libraries() == before.libraries(),
        !ok ==> after.deinitializers() == before.deinitializers(),
    ensures
        after.wf(),
        ok ==> after.libraries().dom().contains(name) && after.deinitializers().dom().contains(name),
        !ok ==> (after.libraries().dom().contains(name) <==> before.libraries().dom().contains(name)),
        !ok ==> (after.deinitializers().dom().contains(name) <==> before.deinitializers().dom().contains(name)),
{
    if ok {
        assert(after.libraries().dom() =~= after.deinitializers().dom());
    }
}

/// A nested call refused at the depth limit leaves the depth as it was, so
/// once the caller returns, its next call at the same level is admitted.
pub proof fn lemma_refused_call_keeps_depth(count: usize, max: usize)
    requires
        count >= max,
    ensures
        enter_outcome(count, max) == (count, true),
        count == max && max > 0 ==> !enter_outcome((count - 1) as usize, max).1,
        count == max && max > 0 ==> enter_outcome((count - 1) as usize, max).0 == count,
{
}

} // verus!
