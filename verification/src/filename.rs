//! A file name held as plain immutable values: the base name and the
//! extension, each a text of its own.

use vstd::prelude::*;

verus! {

/// A file name: a base name and an extension.
#[derive(Clone, Debug)]
pub struct FileName {
    name: String,
    ext: String,
}

impl FileName {
    /// The base name.
    pub closed spec fn spec_name(&self) -> Seq<char> {
        self.name@
    }

    /// The extension.
    pub closed spec fn spec_ext(&self) -> Seq<char> {
        self.ext@
    }

    /// A file name made of the given base name and extension.
    pub fn new(name: String, ext: String) -> (f: FileName)
        ensures
            f.spec_name() == name@,
            f.spec_ext() == ext@,
    {
        FileName { name, ext }
    }

    /// The base name.
    pub fn name(&self) -> (n: &str)
        ensures
            n@ == self.spec_name(),
    {
        self.name.as_str()
    }

    /// The extension.
    pub fn ext(&self) -> (e: &str)
        ensures
            e@ == self.spec_ext(),
    {
        self.ext.as_str()
    }
}

} // verus!
