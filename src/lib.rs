//! An instrumented dispatch table for dynamically resolved native entry points:
//! a fallback-aware symbol loader, per-table call and error counters, a decoder
//! for native status codes, and the generator that emits the bindings source.
use vstd::prelude::*;

pub mod api;
pub mod bindings;
pub mod emit;
pub mod slot;
pub mod status;
pub mod table;
pub mod text;

use crate::api::ApiFamily;
use crate::bindings::{
    Command, EnumItem, type_aliases_text, enums_text, panic_text, struct_text, impl_text, write_type_aliases,
    write_enums, write_panicking_fns, write_struct, write_impl,
};
use crate::emit::{HELPER_SOURCE, HEADER_SOURCE, FNPTR_SOURCE, write_helper, write_header, write_fnptr_struct_def};

verus! {

/// What the generator needs to know of an API surface: its API family, its
/// enum items, and its entry points.
pub struct Bindings {
    pub api: ApiFamily,
    pub enums: Vec<EnumItem>,
    pub commands: Vec<Command>,
}

/// The whole bindings source for `b`, part after part.
pub open spec fn bindings_text(b: Bindings) -> Seq<char> {
    HELPER_SOURCE@ + HEADER_SOURCE@ + type_aliases_text(b.api) + enums_text(b.enums@) + FNPTR_SOURCE@ + panic_text(b.api) + struct_text(b.api, b.commands@) + impl_text(
        b.api,
        b.commands@,
    )
}

/// The generator of profiling struct bindings: like a debug struct generator,
/// but it logs only the calls that cause an error, with the explanation of
/// the error code, and counts calls and errors.
#[derive(Clone, Copy, Debug)]
pub struct ProfilingStructGenerator;

impl ProfilingStructGenerator {
    /// Appends the bindings source for `b`.
    #[verifier::rlimit(40)]
    pub fn write(&self, b: &Bindings, dest: &mut String)
        ensures
            final(dest)@ == old(dest)@ + bindings_text(*b),
    {
        let ghost start = dest@;
        write_helper(dest);
        write_header(dest);
        write_type_aliases(dest, b.api);
        write_enums(dest, &b.enums);
        write_fnptr_struct_def(dest);
        write_panicking_fns(dest, b.api);
        write_struct(dest, b.api, &b.commands);
        write_impl(dest, b.api, &b.commands);
        assert(dest@ =~= start + bindings_text(*b));
    }
}

} // verus!
