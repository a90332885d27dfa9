//! The `stream/web` module: its name and the names it declares.
use vstd::prelude::*;

verus! {

/// The module that exports the stream classes.
pub struct StreamModule;

/// The names the module declares, in order.
pub open spec fn spec_declared_names() -> Seq<Seq<char>> {
    seq![
        "ReadableStream"@,
        "ByteLengthQueuingStrategy"@,
        "CountQueuingStrategy"@,
        "ReadableStreamDefaultReader"@,
        "ReadableByteStreamController"@,
        "ReadableStreamBYOBRequest"@,
        "default"@,
    ]
}

impl StreamModule {
    /// The names `declare` hands to the module declarations, in order.
    pub fn declared_names() -> (names: Vec<&'static str>)
        ensures
            names@.map_values(|s: &'static str| s@) == spec_declared_names(),
    {
        let mut names: Vec<&'static str> = Vec::new();
        names.push("ReadableStream");
        names.push("ByteLengthQueuingStrategy");
        names.push("CountQueuingStrategy");
        names.push("ReadableStreamDefaultReader");
        names.push("ReadableByteStreamController");
        names.push("ReadableStreamBYOBRequest");
        names.push("default");
        assert(names@.map_values(|s: &'static str| s@) =~= spec_declared_names());
        names
    }

    /// The name under which the module is registered.
    pub fn module_name() -> (name: &'static str)
        ensures
            name@ == "stream/web"@,
    {
        "stream/web"
    }
}

} // verus!
