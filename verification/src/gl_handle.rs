//! Shared handle to the loaded table of graphics entry points.
//!
//! The native API is reached through a table of function addresses, each
//! resolved once, by name, through a caller-supplied resolver. The table is
//! wrapped in a reference-counted handle so that every part of the program
//! can hold it cheaply: duplicating the handle only raises the reference
//! count of the one table loaded at start, and never consults the resolver
//! again. An address of zero means the resolver had nothing for that name;
//! loading does not treat that as an error.

use std::rc::Rc;
use vstd::prelude::*;

verus! {

/// The table of resolved entry-point addresses, in the order of
/// [`symbol_names`]. Loaded once; immutable afterwards.
pub struct FnTable {
    pub addrs: Vec<u64>,
}

/// Names of the entry points the demo resolves, in table order.
pub open spec fn symbol_names_spec() -> Seq<&'static str> {
    seq![
        "glViewport",
        "glClearColor",
        "glClear",
        "glGenBuffers",
        "glBindBuffer",
        "glBufferData",
        "glGenVertexArrays",
        "glBindVertexArray",
        "glEnableVertexAttribArray",
        "glVertexAttribPointer",
        "glCreateShader",
        "glShaderSource",
        "glCompileShader",
        "glGetShaderiv",
        "glGetShaderInfoLog",
        "glDeleteShader",
        "glCreateProgram",
        "glAttachShader",
        "glLinkProgram",
        "glGetProgramiv",
        "glGetProgramInfoLog",
        "glDetachShader",
        "glDeleteProgram",
        "glUseProgram",
        "glDrawArrays",
    ]
}

/// The entry-point names as a runtime value, in table order.
pub fn symbol_names() -> (r: Vec<&'static str>)
    ensures
        r@ == symbol_names_spec(),
{
    let v: Vec<&'static str> = vec![
        "glViewport",
        "glClearColor",
        "glClear",
        "glGenBuffers",
        "glBindBuffer",
        "glBufferData",
        "glGenVertexArrays",
        "glBindVertexArray",
        "glEnableVertexAttribArray",
        "glVertexAttribPointer",
        "glCreateShader",
        "glShaderSource",
        "glCompileShader",
        "glGetShaderiv",
        "glGetShaderInfoLog",
        "glDeleteShader",
        "glCreateProgram",
        "glAttachShader",
        "glLinkProgram",
        "glGetProgramiv",
        "glGetProgramInfoLog",
        "glDetachShader",
        "glDeleteProgram",
        "glUseProgram",
        "glDrawArrays",
    ];
    proof {
        assert(v@ =~= symbol_names_spec());
    }
    v
}

/// A shared, reference-counted handle to the one loaded function table.
pub struct Gl {
    inner: Rc<FnTable>,
}

impl View for Gl {
    type V = Seq<u64>;

    closed spec fn view(&self) -> Seq<u64> {
        self.inner.addrs@
    }
}

/// Relies on std's `Rc::clone`: it returns a handle to the same allocation,
/// raising the reference count, so the shared table is not rebuilt.
#[verifier::external_body]
fn share_table(table: &Rc<FnTable>) -> (r: Rc<FnTable>)
    ensures
        r == *table,
{
    Rc::clone(table)
}

impl Gl {
    /// Loads the function table: asks the resolver once for each entry-point
    /// name, in table order, and stores whatever addresses come back. A zero
    /// address for an unused name is kept as it is, not rejected.
    pub fn load_with<F: Fn(&'static str) -> u64>(loadfn: F) -> (gl: Gl)
        requires
            forall|s: &'static str| call_requires(loadfn, (s,)),
        ensures
            gl@.len() == symbol_names_spec().len(),
            forall|i: int|
                0 <= i < gl@.len() ==> call_ensures(loadfn, (symbol_names_spec()[i],), #[trigger] gl@[i]),
    {
        let names = symbol_names();
        let mut addrs: Vec<u64> = Vec::new();
        let mut i: usize = 0;
        while i < names.len()
            invariant
                i <= names@.len(),
                names@ == symbol_names_spec(),
                addrs@.len() == i,
                forall|s: &'static str| call_requires(loadfn, (s,)),
                forall|j: int|
                    0 <= j < i ==> call_ensures(loadfn, (symbol_names_spec()[j],), #[trigger] addrs@[j]),
            decreases names@.len() - i,
        {
            let a = loadfn(names[i]);
            addrs.push(a);
            i = i + 1;
        }
        Gl { inner: Rc::new(FnTable { addrs }) }
    }

    /// How many entry points the table holds.
    pub fn symbol_count(&self) -> (r: usize)
        ensures
            r == self@.len(),
    {
        self.inner.addrs.len()
    }

    /// The resolved address of entry point `i`, in table order.
    pub fn addr(&self, i: usize) -> (r: u64)
        requires
            i < self@.len(),
        ensures
            r == self@[i as int],
    {
        self.inner.addrs[i]
    }

    /// Whether the resolver returned a non-zero address for entry point `i`.
    pub fn is_resolved(&self, i: usize) -> (r: bool)
        requires
            i < self@.len(),
        ensures
            r == (self@[i as int] != 0),
    {
        self.inner.addrs[i] != 0
    }
}

impl Clone for Gl {
    /// Duplicates the handle. The duplicate refers to the very table this
    /// handle holds — nothing is resolved or loaded again.
    fn clone(&self) -> (r: Gl)
        ensures
            r@ == self@,
    {
        Gl { inner: share_table(&self.inner) }
    }
}

} // verus!
