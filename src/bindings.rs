//! Emitters driven by the description of the bindings: the structure of
//! slots, the loader, and one audited wrapper per entry point.
use vstd::prelude::*;
use gl_generator::generators;
use gl_generator::Api;
use crate::api::ApiFamily;
use crate::text::{views, concat, join, has_infix, lemma_concat_step, lemma_join_step, append_joined, contains_text, text_eq};

verus! {

/// Starts the constant item of an enum, up to its identifier.
pub const ENUM_HEAD: &'static str = "#[allow(dead_code, non_upper_case_globals)] pub const ";

/// Opens the `types` module of type aliases.
pub const TYPES_HEAD: &'static str = "\n        pub mod types {\n            #![allow(non_camel_case_types, non_snake_case, dead_code, missing_copy_implementations)]\n    \n";

/// Starts the declaration of the bindings structure, up to its name.
pub const STRUCT_HEAD: &'static str = "\n        #[allow(non_camel_case_types, non_snake_case, dead_code)]\n        #[derive(Clone)]\n        pub struct ";

/// Starts the panic stub, up to the API name in its message.
pub const PANIC_HEAD: &'static str = "#[inline(never)]\n        fn missing_fn_panic() -> ! {\n            panic!(\"";

/// Ends the panic stub after the API name.
pub const PANIC_TAIL: &'static str = " function was not loaded\")\n        }\n";

/// Starts the loader `impl`, up to the structure name.
pub const IMPL_HEAD_0: &'static str = "impl ";

/// Continues the loader up to its return type.
pub const IMPL_HEAD_1: &'static str = " {\n            /// Load each OpenGL symbol using a custom load function. This allows for the\n            /// use of functions like `glfwGetProcAddress` or `SDL_GL_GetProcAddress`.\n            ///\n            /// ~~~ignore\n            /// let gl = Gl::load_with(|s| glfw.get_proc_address(s));\n            /// ~~~\n            #[allow(dead_code, unused_variables)]\n            pub fn load_with<F>(mut loadfn: F) -> ";

/// Continues the loader, past the fallback-aware lookup, up to the structure literal.
pub const IMPL_HEAD_2: &'static str = " where F: FnMut(&'static str) -> *const __gl_imports::raw::c_void {\n                #[inline(never)]\n                fn do_metaloadfn(loadfn: &mut dyn FnMut(&'static str) -> *const __gl_imports::raw::c_void,\n                                 symbol: &'static str,\n                                 symbols: &[&'static str])\n                                 -> *const __gl_imports::raw::c_void {\n                    let mut ptr = loadfn(symbol);\n                    if ptr.is_null() {\n                        for &sym in symbols {\n                            ptr = loadfn(sym);\n                            if !ptr.is_null() { break; }\n                        }\n                    }\n                    ptr\n                }\n                let mut metaloadfn = |symbol: &'static str, symbols: &[&'static str]| {\n                    do_metaloadfn(&mut loadfn, symbol, symbols)\n                };\n                ";

/// Opens the structure literal of the loader.
pub const IMPL_HEAD_3: &'static str = " {\n";

/// Starts an entry-point wrapper, up to its name.
pub const WRAPPER_HEAD: &'static str = "#[allow(non_snake_case, unused_variables, dead_code)]\n            #[inline] pub unsafe fn ";

/// Starts the wrapper body: the call through the typed function pointer.
pub const WRAPPER_CALL: &'static str = " { let r = __gl_imports::mem::transmute::<_, extern \"system\" fn(";

/// Ends the wrapper body, returning the native result.
pub const WRAPPER_TAIL: &'static str = "\n                r\n            }\n";

/// Starts the error query that follows an audited call.
pub const AUDIT_HEAD: &'static str = "match __gl_imports::mem::transmute::<_, extern \"system\" fn() -> u32>\n                    (self.GetError.f)() { 0 => inc_call(), r => { inc_err(); ";

/// Ends the error query with the decoded status line.
pub const AUDIT_TAIL: &'static str = " println!(\"[OpenGL] ^ GL error triggered: {}, {}\", r, gl_error_to_str(r))} }";

/// One parameter of an entry point: its identifier and its type, as source text.
pub struct Param {
    pub ident: String,
    pub ty: String,
}

/// One entry point, as the emitters need it: its identifier, the aliases it
/// falls back to (if the registry lists any), its parameters and its return
/// type.
pub struct Command {
    pub ident: String,
    pub aliases: Option<Vec<String>>,
    pub params: Vec<Param>,
    pub ret: String,
}

/// One parameter as it appears in a parameter list: `ident: ty`, `ty` or `ident`.
pub open spec fn param_piece(p: Param, with_idents: bool, with_types: bool) -> Seq<char> {
    if with_idents && with_types {
        p.ident@ + ": "@ + p.ty@
    } else if with_types {
        p.ty@
    } else {
        p.ident@
    }
}

/// A parameter list, with the pieces separated by commas.
pub open spec fn param_list(ps: Seq<Param>, with_idents: bool, with_types: bool) -> Seq<char> {
    join(ps.map_values(|p: Param| param_piece(p, with_idents, with_types)), ", "@)
}

/// One `{:?}` placeholder per argument, separated by commas.
pub open spec fn placeholders(n: nat) -> Seq<char> {
    join(Seq::new(n, |i: int| "{:?}"@), ", "@)
}

/// Whether a parameter type is a debug callback, whose value is not printed.
pub open spec fn is_callback(ty: Seq<char>) -> bool {
    has_infix(ty, "GLDEBUGPROC"@)
}

/// One argument of the logging statement: a placeholder text for a
/// callback, the parameter itself otherwise.
pub open spec fn arg_piece(p: Param) -> Seq<char> {
    if is_callback(p.ty@) {
        ", \"<callback>\""@
    } else {
        ", "@ + p.ident@
    }
}

/// The statement that logs a failed call with all its arguments.
pub open spec fn log_stmt(c: Command) -> Seq<char> {
    "println!(\"[OpenGL] "@ + c.ident@ + "("@ + placeholders(c.params@.len()) + ")\" "@
        + concat(c.params@.map_values(|p: Param| arg_piece(p))) + ");"@
}

/// The native symbols of `names`, with `prefix` put before each, as quoted
/// string literals separated by commas.
pub open spec fn quoted_list(prefix: Seq<char>, names: Seq<String>) -> Seq<char> {
    join(names.map_values(|s: String| "\""@ + prefix + s@ + "\""@), ", "@)
}

/// Appends a parameter list: identifiers, types, or both.
pub fn write_param_list(dest: &mut String, ps: &Vec<Param>, with_idents: bool, with_types: bool)
    requires
        with_idents || with_types,
    ensures
        final(dest)@ == old(dest)@ + param_list(ps@, with_idents, with_types),
{
    let ghost start = dest@;
    let ghost pieces = ps@.map_values(|p: Param| param_piece(p, with_idents, with_types));
    let mut i: usize = 0;
    while i < ps.len()
        invariant
            i <= ps.len(),
            pieces == ps@.map_values(|p: Param| param_piece(p, with_idents, with_types)),
            dest@ == start + join(pieces.take(i as int), ", "@),
        decreases ps.len() - i,
    {
        proof {
            lemma_join_step(pieces, ", "@, i as int);
        }
        if i > 0 {
            dest.append(", ");
        }
        let p = &ps[i];
        if with_idents && with_types {
            dest.append(p.ident.as_str());
            dest.append(": ");
            dest.append(p.ty.as_str());
        } else if with_types {
            dest.append(p.ty.as_str());
        } else {
            dest.append(p.ident.as_str());
        }
        i = i + 1;
    }
    assert(pieces.take(ps.len() as int) =~= pieces);
}

/// Appends one `{:?}` placeholder per argument.
pub fn write_placeholders(dest: &mut String, n: usize)
    ensures
        final(dest)@ == old(dest)@ + placeholders(n as nat),
{
    let ghost start = dest@;
    let ghost pieces = Seq::new(n as nat, |i: int| "{:?}"@);
    let mut i: usize = 0;
    while i < n
        invariant
            i <= n,
            pieces == Seq::new(n as nat, |i: int| "{:?}"@),
            dest@ == start + join(pieces.take(i as int), ", "@),
        decreases n - i,
    {
        proof {
            lemma_join_step(pieces, ", "@, i as int);
        }
        if i > 0 {
            dest.append(", ");
        }
        dest.append("{:?}");
        i = i + 1;
    }
    assert(pieces.take(n as int) =~= pieces);
}

/// Appends the statement that logs a failed call of `c` with its arguments.
#[verifier::rlimit(40)]
pub fn write_log_stmt(dest: &mut String, c: &Command)
    ensures
        final(dest)@ == old(dest)@ + log_stmt(*c),
{
    let ghost start = dest@;
    dest.append("println!(\"[OpenGL] ");
    dest.append(c.ident.as_str());
    dest.append("(");
    write_placeholders(dest, c.params.len());
    dest.append(")\" ");
    let ghost mid = dest@;
    let ghost pieces = c.params@.map_values(|p: Param| arg_piece(p));
    let mut i: usize = 0;
    while i < c.params.len()
        invariant
            i <= c.params.len(),
            pieces == c.params@.map_values(|p: Param| arg_piece(p)),
            dest@ == mid + concat(pieces.take(i as int)),
        decreases c.params.len() - i,
    {
        proof {
            lemma_concat_step(pieces, i as int);
        }
        let p = &c.params[i];
        if contains_text(p.ty.as_str(), "GLDEBUGPROC") {
            dest.append(", \"<callback>\"");
        } else {
            dest.append(", ");
            dest.append(p.ident.as_str());
        }
        i = i + 1;
    }
    assert(pieces.take(c.params.len() as int) =~= pieces);
    dest.append(");");
    assert(dest@ =~= start + log_stmt(*c));
}

/// Appends the native symbols of `names` as quoted string literals.
pub fn write_quoted_list(dest: &mut String, prefix: &str, syms: &Vec<String>)
    ensures
        final(dest)@ == old(dest)@ + quoted_list(prefix@, syms@),
{
    let ghost start = dest@;
    let ghost pieces = syms@.map_values(|s: String| "\""@ + prefix@ + s@ + "\""@);
    let mut i: usize = 0;
    while i < syms.len()
        invariant
            i <= syms.len(),
            pieces == syms@.map_values(|s: String| "\""@ + prefix@ + s@ + "\""@),
            dest@ == start + join(pieces.take(i as int), ", "@),
        decreases syms.len() - i,
    {
        proof {
            lemma_join_step(pieces, ", "@, i as int);
        }
        if i > 0 {
            dest.append(", ");
        }
        dest.append("\"");
        dest.append(prefix);
        dest.append(syms[i].as_str());
        dest.append("\"");
        i = i + 1;
    }
    assert(pieces.take(syms.len() as int) =~= pieces);
}

/// The field of one entry point in the bindings structure, with its fallbacks
/// noted above it when the registry lists aliases for it.
pub open spec fn struct_field(c: Command) -> Seq<char> {
    (match c.aliases {
        Some(v) => "/// Fallbacks: "@ + join(views(v@), ", "@) + "\n"@,
        None => Seq::empty(),
    }) + "pub "@ + c.ident@ + ": FnPtr,\n"@
}

/// The bindings structure of `api`: one `FnPtr` field per entry point.
pub open spec fn struct_text(api: ApiFamily, cmds: Seq<Command>) -> Seq<char> {
    STRUCT_HEAD@ + api.spec_struct_name() + " {\n"@ + concat(cmds.map_values(|c: Command| struct_field(c)))
        + "_priv: ()\n"@ + "}\n"@
}

/// The aliases of an entry point; none if the registry lists none.
pub open spec fn alias_names(c: Command) -> Seq<String> {
    match c.aliases {
        Some(v) => v@,
        None => Seq::empty(),
    }
}

/// The loader's initialiser of one slot: the primary symbol, then the
/// fallbacks, each the identifier after the symbol `prefix`.
pub open spec fn load_line(prefix: Seq<char>, c: Command) -> Seq<char> {
    c.ident@ + ": FnPtr::new(metaloadfn(\""@ + prefix + c.ident@ + "\", &["@ + quoted_list(
        prefix,
        alias_names(c),
    ) + "])),\n"@
}

/// Whether `c` is the error-query entry point.
pub open spec fn is_error_query(c: Command) -> bool {
    c.ident@ == "GetError"@
}

/// Whether the described surface has an error-query entry point.
pub open spec fn has_error_query(cmds: Seq<Command>) -> bool {
    exists|k: int| 0 <= k < cmds.len() && is_error_query(#[trigger] cmds[k])
}

/// The signature of the wrapper of one entry point.
pub open spec fn wrapper_signature(c: Command) -> Seq<char> {
    WRAPPER_HEAD@ + c.ident@ + "(&self, "@ + param_list(c.params@, true, true) + ") -> "@ + c.ret@
}

/// The native call inside the wrapper, through the typed function pointer.
pub open spec fn wrapper_call(c: Command) -> Seq<char> {
    WRAPPER_CALL@ + param_list(c.params@, false, true) + ") -> "@ + c.ret@ + ">(self."@ + c.ident@
        + ".f)("@ + param_list(c.params@, true, false) + ");\n                "@
}

/// The error query that follows an audited call: it counts the call, or
/// counts and logs the error.
pub open spec fn audit_text(c: Command) -> Seq<char> {
    AUDIT_HEAD@ + log_stmt(c) + AUDIT_TAIL@
}

/// The wrapper of one entry point; when `audited`, the call is followed by an
/// error query that counts it and logs it on error.
pub open spec fn wrapper(c: Command, audited: bool) -> Seq<char> {
    wrapper_signature(c) + wrapper_call(c) + (if audited {
        audit_text(c)
    } else {
        Seq::empty()
    }) + WRAPPER_TAIL@
}

/// The loader: for each entry point, the initialiser of its slot.
pub open spec fn loader_text(api: ApiFamily, cmds: Seq<Command>) -> Seq<char> {
    let name = api.spec_struct_name();
    IMPL_HEAD_0@ + name + IMPL_HEAD_1@ + name + IMPL_HEAD_2@ + name + IMPL_HEAD_3@ + concat(
        cmds.map_values(|c: Command| load_line(api.spec_symbol_prefix(), c)),
    ) + "_priv: ()\n"@ + "}\n        }\n"@
}

/// One wrapper per entry point, audited unless it is the error query or the
/// surface has none.
pub open spec fn wrappers_text(cmds: Seq<Command>) -> Seq<char> {
    concat(cmds.map_values(|c: Command| wrapper(c, has_error_query(cmds) && !is_error_query(c))))
}

/// The `impl` of the bindings structure: the loader, then the wrappers.
pub open spec fn impl_text(api: ApiFamily, cmds: Seq<Command>) -> Seq<char> {
    loader_text(api, cmds) + wrappers_text(cmds) + "}\n        unsafe impl __gl_imports::Send for "@
        + api.spec_struct_name() + " {}\n"@
}

/// Appends the field of one entry point.
#[verifier::rlimit(40)]
fn write_struct_field(dest: &mut String, c: &Command)
    ensures
        final(dest)@ == old(dest)@ + struct_field(*c),
{
    let ghost start = dest@;
    match &c.aliases {
        Some(v) => {
            dest.append("/// Fallbacks: ");
            append_joined(dest, v, ", ");
            dest.append("\n");
        },
        None => {},
    }
    dest.append("pub ");
    dest.append(c.ident.as_str());
    dest.append(": FnPtr,\n");
    assert(dest@ =~= start + struct_field(*c));
}

/// Appends the bindings structure of `api`, which stores one `FnPtr` per
/// entry point.
#[verifier::rlimit(40)]
pub fn write_struct(dest: &mut String, api: ApiFamily, cmds: &Vec<Command>)
    ensures
        final(dest)@ == old(dest)@ + struct_text(api, cmds@),
{
    let ghost start = dest@;
    dest.append(STRUCT_HEAD);
    dest.append(api.struct_name());
    dest.append(" {\n");
    let ghost mid = dest@;
    let ghost pieces = cmds@.map_values(|c: Command| struct_field(c));
    let mut i: usize = 0;
    while i < cmds.len()
        invariant
            i <= cmds.len(),
            pieces == cmds@.map_values(|c: Command| struct_field(c)),
            dest@ == mid + concat(pieces.take(i as int)),
        decreases cmds.len() - i,
    {
        proof {
            lemma_concat_step(pieces, i as int);
        }
        write_struct_field(dest, &cmds[i]);
        i = i + 1;
    }
    assert(pieces.take(cmds.len() as int) =~= pieces);
    dest.append("_priv: ()\n");
    dest.append("}\n");
    assert(dest@ =~= start + struct_text(api, cmds@));
}

/// Appends the loader's initialiser of one slot.
#[verifier::rlimit(40)]
fn write_load_line(dest: &mut String, prefix: &str, c: &Command)
    ensures
        final(dest)@ == old(dest)@ + load_line(prefix@, *c),
{
    let ghost start = dest@;
    dest.append(c.ident.as_str());
    dest.append(": FnPtr::new(metaloadfn(\"");
    dest.append(prefix);
    dest.append(c.ident.as_str());
    dest.append("\", &[");
    match &c.aliases {
        Some(v) => write_quoted_list(dest, prefix, v),
        None => {
            assert(quoted_list(prefix@, alias_names(*c)) =~= Seq::<char>::empty());
        },
    }
    dest.append("])),\n");
    assert(dest@ =~= start + load_line(prefix@, *c));
}

/// Appends the signature of the wrapper of one entry point.
#[verifier::rlimit(40)]
fn write_wrapper_signature(dest: &mut String, c: &Command)
    ensures
        final(dest)@ == old(dest)@ + wrapper_signature(*c),
{
    let ghost start = dest@;
    dest.append(WRAPPER_HEAD);
    dest.append(c.ident.as_str());
    dest.append("(&self, ");
    write_param_list(dest, &c.params, true, true);
    dest.append(") -> ");
    dest.append(c.ret.as_str());
    assert(dest@ =~= start + wrapper_signature(*c));
}

/// Appends the native call inside the wrapper of one entry point.
#[verifier::rlimit(40)]
fn write_wrapper_call(dest: &mut String, c: &Command)
    ensures
        final(dest)@ == old(dest)@ + wrapper_call(*c),
{
    let ghost start = dest@;
    dest.append(WRAPPER_CALL);
    write_param_list(dest, &c.params, false, true);
    dest.append(") -> ");
    dest.append(c.ret.as_str());
    dest.append(">(self.");
    dest.append(c.ident.as_str());
    dest.append(".f)(");
    write_param_list(dest, &c.params, true, false);
    dest.append(");\n                ");
    assert(dest@ =~= start + wrapper_call(*c));
}

/// Appends the wrapper of one entry point.
#[verifier::rlimit(40)]
fn write_wrapper(dest: &mut String, c: &Command, audited: bool)
    ensures
        final(dest)@ == old(dest)@ + wrapper(*c, audited),
{
    let ghost start = dest@;
    write_wrapper_signature(dest, c);
    write_wrapper_call(dest, c);
    if audited {
        let ghost before = dest@;
        dest.append(AUDIT_HEAD);
        write_log_stmt(dest, c);
        dest.append(AUDIT_TAIL);
        assert(dest@ =~= before + audit_text(*c));
    }
    dest.append(WRAPPER_TAIL);
    assert(dest@ =~= start + wrapper(*c, audited));
}

/// Whether one of `cmds` is the error-query entry point.
pub fn find_error_query(cmds: &Vec<Command>) -> (r: bool)
    ensures
        r == has_error_query(cmds@),
{
    let mut i: usize = 0;
    while i < cmds.len()
        invariant
            i <= cmds.len(),
            forall|k: int| 0 <= k < i ==> !is_error_query(#[trigger] cmds@[k]),
        decreases cmds.len() - i,
    {
        if text_eq(cmds[i].ident.as_str(), "GetError") {
            return true;
        }
        i = i + 1;
    }
    false
}

/// Appends the loader of the bindings structure of `api`, which resolves
/// each entry point through its symbol and fallbacks.
#[verifier::rlimit(40)]
fn write_loader(dest: &mut String, api: ApiFamily, cmds: &Vec<Command>)
    ensures
        final(dest)@ == old(dest)@ + loader_text(api, cmds@),
{
    let ghost start = dest@;
    let name = api.struct_name();
    let prefix = api.symbol_prefix();
    dest.append(IMPL_HEAD_0);
    dest.append(name);
    dest.append(IMPL_HEAD_1);
    dest.append(name);
    dest.append(IMPL_HEAD_2);
    dest.append(name);
    dest.append(IMPL_HEAD_3);
    let ghost mid = dest@;
    let ghost loads = cmds@.map_values(|c: Command| load_line(prefix@, c));
    let mut i: usize = 0;
    while i < cmds.len()
        invariant
            i <= cmds.len(),
            loads == cmds@.map_values(|c: Command| load_line(prefix@, c)),
            dest@ == mid + concat(loads.take(i as int)),
        decreases cmds.len() - i,
    {
        proof {
            lemma_concat_step(loads, i as int);
        }
        write_load_line(dest, prefix, &cmds[i]);
        i = i + 1;
    }
    assert(loads.take(cmds.len() as int) =~= loads);
    dest.append("_priv: ()\n");
    dest.append("}\n        }\n");
    assert(dest@ =~= start + loader_text(api, cmds@));
}

/// Appends one wrapper per entry point.
#[verifier::rlimit(40)]
fn write_wrappers(dest: &mut String, cmds: &Vec<Command>)
    ensures
        final(dest)@ == old(dest)@ + wrappers_text(cmds@),
{
    let has_query = find_error_query(cmds);
    let ghost start = dest@;
    let ghost wrappers = cmds@.map_values(
        |c: Command| wrapper(c, has_error_query(cmds@) && !is_error_query(c)),
    );
    let mut j: usize = 0;
    while j < cmds.len()
        invariant
            j <= cmds.len(),
            has_query == has_error_query(cmds@),
            wrappers == cmds@.map_values(
                |c: Command| wrapper(c, has_error_query(cmds@) && !is_error_query(c)),
            ),
            dest@ == start + concat(wrappers.take(j as int)),
        decreases cmds.len() - j,
    {
        proof {
            lemma_concat_step(wrappers, j as int);
        }
        let c = &cmds[j];
        let audited = has_query && !text_eq(c.ident.as_str(), "GetError");
        write_wrapper(dest, c, audited);
        j = j + 1;
    }
    assert(wrappers.take(cmds.len() as int) =~= wrappers);
}

/// Appends the `impl` of the bindings structure of `api`: the loader, which
/// resolves each entry point through its symbol and fallbacks, and one
/// wrapper per entry point.
#[verifier::rlimit(40)]
pub fn write_impl(dest: &mut String, api: ApiFamily, cmds: &Vec<Command>)
    ensures
        final(dest)@ == old(dest)@ + impl_text(api, cmds@),
{
    let ghost start = dest@;
    write_loader(dest, api, cmds);
    write_wrappers(dest, cmds);
    dest.append("}\n        unsafe impl __gl_imports::Send for ");
    dest.append(api.struct_name());
    dest.append(" {}\n");
    assert(dest@ =~= start + impl_text(api, cmds@));
}

/// What gl_generator's `gen_types` writes for `api`: the type aliases of the
/// family, taken from templates that depend on the family alone.
pub uninterp spec fn types_text(api: ApiFamily) -> Seq<char>;

/// Relies on gl_generator::generators::gen_types, for the type-alias source
/// of an API family. It writes fixed templates chosen by the family, and
/// writing into a `Vec<u8>` does not fail.
#[verifier::external_body]
fn gen_types_text(api: ApiFamily) -> (r: String)
    ensures
        r@ == types_text(api),
{
    let api = match api {
        ApiFamily::Gl => Api::Gl,
        ApiFamily::Glx => Api::Glx,
        ApiFamily::Wgl => Api::Wgl,
        ApiFamily::Egl => Api::Egl,
        ApiFamily::GlCore => Api::GlCore,
        ApiFamily::Gles1 => Api::Gles1,
        ApiFamily::Gles2 => Api::Gles2,
        ApiFamily::Glsc2 => Api::Glsc2,
    };
    let mut buf: Vec<u8> = Vec::new();
    let _ = generators::gen_types(api, &mut buf);
    String::from_utf8_lossy(&buf).into_owned()
}

/// The `types` module around the type aliases of `api`.
pub open spec fn type_aliases_text(api: ApiFamily) -> Seq<char> {
    TYPES_HEAD@ + types_text(api) + "}\n"@
}

/// The panic stub, whose message names the API family `api`.
pub open spec fn panic_text(api: ApiFamily) -> Seq<char> {
    PANIC_HEAD@ + api.spec_name() + PANIC_TAIL@
}

/// Appends the `types` module, which contains all the type aliases of `api`.
#[verifier::rlimit(40)]
pub fn write_type_aliases(dest: &mut String, api: ApiFamily)
    ensures
        final(dest)@ == old(dest)@ + type_aliases_text(api),
{
    let ghost start = dest@;
    let types = gen_types_text(api);
    dest.append(TYPES_HEAD);
    dest.append(types.as_str());
    dest.append("}\n");
    assert(dest@ =~= start + type_aliases_text(api));
}

/// One enum item of the registry: its identifier, its type, its value as
/// source text, and whether the value is cast to the type.
pub struct EnumItem {
    pub ident: String,
    pub ty: String,
    pub value: String,
    pub cast: bool,
}

/// The qualifier put before an enum's type: `types_prefix`, unless the type
/// is a string slice.
pub open spec fn enum_type_prefix(e: EnumItem, types_prefix: Seq<char>) -> Seq<char> {
    if e.ty@ == "&'static str"@ {
        Seq::empty()
    } else {
        types_prefix
    }
}

/// The cast after an enum's value: to the type qualified by `types_prefix`,
/// when the value is cast.
pub open spec fn enum_cast(e: EnumItem, types_prefix: Seq<char>) -> Seq<char> {
    if e.cast {
        " as "@ + types_prefix + e.ty@
    } else {
        Seq::empty()
    }
}

/// The constant item of one enum: its type is qualified by `types_prefix`
/// unless it is a string slice, and a cast value is cast to the qualified type.
pub open spec fn enum_item_text(e: EnumItem, types_prefix: Seq<char>) -> Seq<char> {
    ENUM_HEAD@ + e.ident@ + ": "@ + enum_type_prefix(e, types_prefix) + e.ty@ + " = "@ + e.value@
        + enum_cast(e, types_prefix) + ";\n"@
}

/// The constant items of all the enums, one after another.
pub open spec fn enums_text(items: Seq<EnumItem>) -> Seq<char> {
    concat(items.map_values(|e: EnumItem| enum_item_text(e, "types::"@)))
}

/// Appends the constant item of one enum.
#[verifier::rlimit(40)]
pub fn write_enum_item(dest: &mut String, e: &EnumItem, types_prefix: &str)
    ensures
        final(dest)@ == old(dest)@ + enum_item_text(*e, types_prefix@),
{
    let ghost start = dest@;
    dest.append(ENUM_HEAD);
    dest.append(e.ident.as_str());
    dest.append(": ");
    let ghost a = dest@;
    if !text_eq(e.ty.as_str(), "&'static str") {
        dest.append(types_prefix);
    }
    assert(dest@ =~= a + enum_type_prefix(*e, types_prefix@));
    dest.append(e.ty.as_str());
    dest.append(" = ");
    dest.append(e.value.as_str());
    let ghost b = dest@;
    if e.cast {
        dest.append(" as ");
        dest.append(types_prefix);
        dest.append(e.ty.as_str());
    }
    assert(dest@ =~= b + enum_cast(*e, types_prefix@));
    dest.append(";\n");
    assert(dest@ =~= start + enum_item_text(*e, types_prefix@));
}

/// Appends the constant items of all the enums, at the root of the bindings.
#[verifier::rlimit(40)]
pub fn write_enums(dest: &mut String, items: &Vec<EnumItem>)
    ensures
        final(dest)@ == old(dest)@ + enums_text(items@),
{
    let ghost start = dest@;
    let ghost pieces = items@.map_values(|e: EnumItem| enum_item_text(e, "types::"@));
    let mut i: usize = 0;
    while i < items.len()
        invariant
            i <= items.len(),
            pieces == items@.map_values(|e: EnumItem| enum_item_text(e, "types::"@)),
            dest@ == start + concat(pieces.take(i as int)),
        decreases items.len() - i,
    {
        proof {
            lemma_concat_step(pieces, i as int);
        }
        write_enum_item(dest, &items[i], "types::");
        i = i + 1;
    }
    assert(pieces.take(items.len() as int) =~= pieces);
}

/// Appends the panic stub that unresolved slots point at: calling it halts
/// with a message naming the API family `api`.
pub fn write_panicking_fns(dest: &mut String, api: ApiFamily)
    ensures
        final(dest)@ == old(dest)@ + panic_text(api),
{
    let ghost start = dest@;
    dest.append(PANIC_HEAD);
    dest.append(api.name());
    dest.append(PANIC_TAIL);
    assert(dest@ =~= start + panic_text(api));
}

} // verus!
