//! The API families that bindings are generated for, and the names derived
//! from each: the family's own name, the bindings structure's name and the
//! prefix of its native symbols.
use vstd::prelude::*;

verus! {

/// An API family.
#[derive(Clone, Copy, Debug, PartialEq, Eq, Structural)]
pub enum ApiFamily {
    Gl,
    Glx,
    Wgl,
    Egl,
    GlCore,
    Gles1,
    Gles2,
    Glsc2,
}

impl ApiFamily {
    /// The family's name, as used in diagnostics.
    pub open spec fn spec_name(self) -> Seq<char> {
        match self {
            ApiFamily::Gl => "gl"@,
            ApiFamily::Glx => "glx"@,
            ApiFamily::Wgl => "wgl"@,
            ApiFamily::Egl => "egl"@,
            ApiFamily::GlCore => "glcore"@,
            ApiFamily::Gles1 => "gles1"@,
            ApiFamily::Gles2 => "gles2"@,
            ApiFamily::Glsc2 => "glsc2"@,
        }
    }

    /// The name of the bindings structure.
    pub open spec fn spec_struct_name(self) -> Seq<char> {
        match self {
            ApiFamily::Gl => "Gl"@,
            ApiFamily::Glx => "Glx"@,
            ApiFamily::Wgl => "Wgl"@,
            ApiFamily::Egl => "Egl"@,
            ApiFamily::GlCore => "GlCore"@,
            ApiFamily::Gles1 => "Gles1"@,
            ApiFamily::Gles2 => "Gles2"@,
            ApiFamily::Glsc2 => "Glsc2"@,
        }
    }

    /// The prefix that turns a command's identifier into its native symbol.
    pub open spec fn spec_symbol_prefix(self) -> Seq<char> {
        match self {
            ApiFamily::Glx => "glX"@,
            ApiFamily::Wgl => "wgl"@,
            ApiFamily::Egl => "egl"@,
            _ => "gl"@,
        }
    }

    /// The family's name, as used in diagnostics.
    pub fn name(&self) -> (r: &'static str)
        ensures
            r@ == self.spec_name(),
    {
        match self {
            ApiFamily::Gl => "gl",
            ApiFamily::Glx => "glx",
            ApiFamily::Wgl => "wgl",
            ApiFamily::Egl => "egl",
            ApiFamily::GlCore => "glcore",
            ApiFamily::Gles1 => "gles1",
            ApiFamily::Gles2 => "gles2",
            ApiFamily::Glsc2 => "glsc2",
        }
    }

    /// The name of the bindings structure.
    pub fn struct_name(&self) -> (r: &'static str)
        ensures
            r@ == self.spec_struct_name(),
    {
        match self {
            ApiFamily::Gl => "Gl",
            ApiFamily::Glx => "Glx",
            ApiFamily::Wgl => "Wgl",
            ApiFamily::Egl => "Egl",
            ApiFamily::GlCore => "GlCore",
            ApiFamily::Gles1 => "Gles1",
            ApiFamily::Gles2 => "Gles2",
            ApiFamily::Glsc2 => "Glsc2",
        }
    }

    /// The prefix that turns a command's identifier into its native symbol.
    pub fn symbol_prefix(&self) -> (r: &'static str)
        ensures
            r@ == self.spec_symbol_prefix(),
    {
        match self {
            ApiFamily::Glx => "glX",
            ApiFamily::Wgl => "wgl",
            ApiFamily::Egl => "egl",
            _ => "gl",
        }
    }
}

} // verus!
