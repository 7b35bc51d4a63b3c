//! Options for spawning an event loop thread.
use vstd::prelude::*;
use vstd::std_specs::cmp::PartialEqSpec;
use vstd::string::*;

verus! {

/// Options when spawning an event loop thread.
#[derive(Debug)]
pub struct ThreadOptions {
    /// The name of the child thread.
    pub name: String,
    /// The stack size, in bytes, for the child thread.
    pub stack_size: Option<usize>,
}

impl ThreadOptions {
    /// Options naming the thread `name`, with the given stack size (the platform's default
    /// where `None`).
    pub fn new(name: &str, stack_size: Option<usize>) -> (options: ThreadOptions)
        ensures
            options.name@ == name@,
            options.stack_size == stack_size,
    {
        ThreadOptions { name: String::from_str(name), stack_size }
    }
}

impl Clone for ThreadOptions {
    fn clone(&self) -> (copy: Self)
        ensures
            copy.name@ == self.name@,
            copy.stack_size == self.stack_size,
    {
        ThreadOptions { name: self.name.clone(), stack_size: self.stack_size }
    }
}

impl PartialEq for ThreadOptions {
    fn eq(&self, other: &Self) -> (same: bool)
        ensures
            same == (self.name@ == other.name@ && self.stack_size == other.stack_size),
    {
        self.name == other.name && self.stack_size == other.stack_size
    }
}

impl vstd::std_specs::cmp::PartialEqSpecImpl for ThreadOptions {
    open spec fn obeys_eq_spec() -> bool {
        true
    }

    open spec fn eq_spec(&self, other: &Self) -> bool {
        self.name@ == other.name@ && self.stack_size == other.stack_size
    }
}

impl Eq for ThreadOptions {
}

/// Two options are equal exactly where they name the thread alike and ask for the same stack
/// size; options that differ in either are not equal.
pub proof fn lemma_options_equal_iff_fields_equal(a: ThreadOptions, b: ThreadOptions)
    ensures
        a.eq_spec(&b) <==> (a.name@ == b.name@ && a.stack_size == b.stack_size),
        a.stack_size != b.stack_size ==> !a.eq_spec(&b),
        a.name@ != b.name@ ==> !a.eq_spec(&b),
        a.eq_spec(&b) == b.eq_spec(&a),
{
}

} // verus!
