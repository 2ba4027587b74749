//! The evaluation environment: the global-variable store and the registry of
//! standard functions.

use vstd::prelude::*;

use crate::value::{value_view, Value, ValueView};

verus! {

/// The map denoted by a list of bindings: later bindings shadow earlier
/// ones.
pub open spec fn bindings_map(s: Seq<(String, Value)>) -> Map<Seq<char>, ValueView>
    decreases s,
{
    if s.len() == 0 {
        Map::empty()
    } else {
        bindings_map(s.drop_last()).insert(s.last().0@, value_view(s.last().1))
    }
}

/// The global-variable store: a name-to-value map.  Writes are visible to
/// every later read within the same run; entries are never removed.
pub struct Globals {
    entries: Vec<(String, Value)>,
}

impl View for Globals {
    type V = Map<Seq<char>, ValueView>;

    closed spec fn view(&self) -> Map<Seq<char>, ValueView> {
        bindings_map(self.entries@)
    }
}

impl Globals {
    /// An empty store.
    pub fn new() -> (r: Globals)
        ensures
            r@ == Map::<Seq<char>, ValueView>::empty(),
    {
        Globals { entries: Vec::new() }
    }

    /// The value last assigned to `name`, if any.
    #[verifier::loop_isolation(false)]
    pub fn get(&self, name: &String) -> (r: Option<&Value>)
        ensures
            (match r {
                Some(v) => self@.contains_key(name@) && self@[name@] == v@,
                None => !self@.contains_key(name@),
            }),
    {
        let n = self.entries.len();
        proof {
            assert(self.entries@.take(n as int) =~= self.entries@);
        }
        let mut i: usize = n;
        while i > 0
            invariant
                i <= n,
                n == self.entries@.len(),
                self@.contains_key(name@) == bindings_map(self.entries@.take(i as int)).contains_key(
                    name@,
                ),
                self@.contains_key(name@) ==> self@[name@] == bindings_map(
                    self.entries@.take(i as int),
                )[name@],
            decreases i,
        {
            i -= 1;
            proof {
                assert(self.entries@.take(i + 1).drop_last() =~= self.entries@.take(i as int));
                assert(self.entries@.take(i + 1).last() == self.entries@[i as int]);
            }
            if self.entries[i].0 == *name {
                return Some(&self.entries[i].1);
            }
        }
        proof {
            assert(self.entries@.take(0) =~= Seq::<(String, Value)>::empty());
        }
        None
    }

    /// Binds `name` to `value`; any earlier binding is shadowed.
    pub fn insert(&mut self, name: String, value: Value)
        ensures
            final(self)@ == old(self)@.insert(name@, value@),
    {
        let ghost pre = self.entries@;
        self.entries.push((name, value));
        proof {
            assert(self.entries@.drop_last() =~= pre);
        }
    }
}

/// The registry of standard (built-in) functions, keyed by name.  The
/// planner fills it; the evaluator only looks names up and applies them.
/// `spec_call` is the mathematical account of `call_function`: `None` means
/// the name is not registered.
pub trait FunctionRegistry: Sized {
    /// What the registry computes, as a function of the name and the
    /// argument values.
    spec fn spec_call(&self, name: Seq<char>, args: Seq<ValueView>) -> Option<ValueView>;

    /// Looks the function up by name and applies it to the arguments;
    /// `None` when no function has this name.
    fn call_function(&self, name: &String, args: Vec<Value>) -> (r: Option<Value>)
        ensures
            (match r {
                Some(v) => self.spec_call(name@, crate::value::values_view(args@)) == Some(v@),
                None => self.spec_call(name@, crate::value::values_view(args@)) is None,
            }),
    ;
}

/// A registry with no functions: every call reports an unknown name.
pub struct EmptyRegistry;

impl FunctionRegistry for EmptyRegistry {
    open spec fn spec_call(&self, name: Seq<char>, args: Seq<ValueView>) -> Option<ValueView> {
        None
    }

    fn call_function(&self, name: &String, args: Vec<Value>) -> (r: Option<Value>) {
        None
    }
}

/// The per-query evaluation environment: the mutable global-variable store
/// and the read-only function registry.
pub struct Environment<R: FunctionRegistry> {
    pub globals: Globals,
    pub registry: R,
}

impl<R: FunctionRegistry> Environment<R> {
    /// A fresh environment around a registry.
    pub fn new(registry: R) -> (r: Environment<R>)
        ensures
            r.globals@ == Map::<Seq<char>, ValueView>::empty(),
            r.registry == registry,
    {
        Environment { globals: Globals::new(), registry }
    }
}

} // verus!
