use gl_generator_profiling_struct::api::ApiFamily;
use gl_generator_profiling_struct::bindings::{
    find_error_query, write_enum_item, write_enums, EnumItem, write_impl, write_log_stmt, write_panicking_fns,
    write_param_list, write_placeholders, write_quoted_list, write_struct, write_type_aliases,
    Command, Param,
};
use gl_generator_profiling_struct::emit::{
    write_fnptr_struct_def, write_header, write_helper, FNPTR_SOURCE, HEADER_SOURCE, HELPER_SOURCE,
};
use gl_generator_profiling_struct::text::{append_joined, contains_text, text_eq};
use gl_generator_profiling_struct::{Bindings, ProfilingStructGenerator};

fn s(t: &str) -> String {
    t.to_string()
}

fn param(ident: &str, ty: &str) -> Param {
    Param { ident: s(ident), ty: s(ty) }
}

fn enm(ident: &str, ty: &str, value: &str, cast: bool) -> EnumItem {
    EnumItem { ident: s(ident), ty: s(ty), value: s(value), cast }
}

fn clear() -> Command {
    Command {
        ident: s("Clear"),
        aliases: None,
        params: vec![param("mask", "types::GLbitfield")],
        ret: s("()"),
    }
}

fn debug_callback() -> Command {
    Command {
        ident: s("DebugMessageCallback"),
        aliases: Some(vec![s("DebugMessageCallbackARB"), s("DebugMessageCallbackKHR")]),
        params: vec![
            param("callback", "types::GLDEBUGPROC"),
            param("userParam", "*const __gl_imports::raw::c_void"),
        ],
        ret: s("()"),
    }
}

fn get_error() -> Command {
    Command {
        ident: s("GetError"),
        aliases: None,
        params: vec![],
        ret: s("types::GLenum"),
    }
}

#[test]
fn fixed_parts_are_appended() {
    let mut d = s("// start\n");
    write_helper(&mut d);
    assert_eq!(d, format!("// start\n{}", HELPER_SOURCE));
    assert!(d.contains("pub fn profiler_reset()"));
    assert!(d.contains("INVALID_FRAMEBUFFER_OPERATION = "));
    let mut h = String::new();
    write_header(&mut h);
    assert_eq!(h, HEADER_SOURCE);
    assert!(h.contains("mod __gl_imports {"));
    assert!(h.ends_with("}\n    \n"));
    let mut f = String::new();
    write_fnptr_struct_def(&mut f);
    assert_eq!(f, FNPTR_SOURCE);
    assert!(f.contains("pub struct FnPtr {"));
    assert!(f.contains("f: missing_fn_panic as *const __gl_imports::raw::c_void,"));
}

#[test]
fn text_helpers() {
    assert!(text_eq("GetError", "GetError"));
    assert!(!text_eq("GetError", "GetErrors"));
    assert!(!text_eq("GetErrar", "GetError"));
    assert!(contains_text("types::GLDEBUGPROC", "GLDEBUGPROC"));
    assert!(!contains_text("types::GLDEBUGPROCX", "GLDEBUGPROCZ"));
    assert!(contains_text("abc", ""));
    assert!(!contains_text("ab", "abc"));
    let mut d = String::new();
    append_joined(&mut d, &vec![s("a"), s("b"), s("c")], ", ");
    assert_eq!(d, "a, b, c");
}

#[test]
fn parameter_lists() {
    let ps = vec![param("a", "u32"), param("b", "*const u8")];
    let mut d = String::new();
    write_param_list(&mut d, &ps, true, true);
    assert_eq!(d, "a: u32, b: *const u8");
    d.clear();
    write_param_list(&mut d, &ps, false, true);
    assert_eq!(d, "u32, *const u8");
    d.clear();
    write_param_list(&mut d, &ps, true, false);
    assert_eq!(d, "a, b");
    d.clear();
    write_param_list(&mut d, &vec![], true, true);
    assert_eq!(d, "");
    d.clear();
    write_placeholders(&mut d, 3);
    assert_eq!(d, "{:?}, {:?}, {:?}");
    d.clear();
    write_quoted_list(&mut d, "gl", &vec![s("A"), s("B")]);
    assert_eq!(d, "\"glA\", \"glB\"");
}

#[test]
fn log_statement_hides_callbacks() {
    let mut d = String::new();
    write_log_stmt(&mut d, &debug_callback());
    assert_eq!(
        d,
        "println!(\"[OpenGL] DebugMessageCallback({:?}, {:?})\" , \"<callback>\", userParam);"
    );
    d.clear();
    write_log_stmt(&mut d, &clear());
    assert_eq!(d, "println!(\"[OpenGL] Clear({:?})\" , mask);");
}

#[test]
fn struct_lists_slots_and_fallbacks() {
    let mut d = String::new();
    write_struct(&mut d, ApiFamily::Gl, &vec![clear(), debug_callback()]);
    assert_eq!(
        d,
        "\n        #[allow(non_camel_case_types, non_snake_case, dead_code)]\n        #[derive(Clone)]\n        pub struct Gl {\npub Clear: FnPtr,\n/// Fallbacks: DebugMessageCallbackARB, DebugMessageCallbackKHR\npub DebugMessageCallback: FnPtr,\n_priv: ()\n}\n"
    );
}

#[test]
fn impl_loads_with_fallbacks_and_audits() {
    let cmds = vec![clear(), debug_callback(), get_error()];
    assert!(find_error_query(&cmds));
    let mut d = String::new();
    write_impl(&mut d, ApiFamily::Gl, &cmds);
    assert!(d.starts_with("impl Gl {"));
    assert!(d.contains("pub fn load_with<F>(mut loadfn: F) -> Gl where"));
    assert!(d.contains("Clear: FnPtr::new(metaloadfn(\"glClear\", &[])),\n"));
    assert!(d.contains(
        "DebugMessageCallback: FnPtr::new(metaloadfn(\"glDebugMessageCallback\", &[\"glDebugMessageCallbackARB\", \"glDebugMessageCallbackKHR\"])),\n"
    ));
    assert!(d.contains("#[inline] pub unsafe fn Clear(&self, mask: types::GLbitfield) -> () { let r = __gl_imports::mem::transmute::<_, extern \"system\" fn(types::GLbitfield) -> ()>(self.Clear.f)(mask);\n                match"));
    assert!(d.contains("#[inline] pub unsafe fn GetError(&self, ) -> types::GLenum { let r = __gl_imports::mem::transmute::<_, extern \"system\" fn() -> types::GLenum>(self.GetError.f)();\n                \n                r\n            }\n"));
    assert_eq!(d.matches("inc_err();").count(), 2);
    assert!(d.ends_with("}\n        unsafe impl __gl_imports::Send for Gl {}\n"));
}

#[test]
fn impl_without_error_query_is_not_audited() {
    let cmds = vec![clear(), debug_callback()];
    assert!(!find_error_query(&cmds));
    let mut d = String::new();
    write_impl(&mut d, ApiFamily::Gles2, &cmds);
    assert!(!d.contains("inc_call()"));
    assert!(d.contains("(self.Clear.f)(mask);\n                \n                r\n"));
}

#[test]
fn small_parts() {
    let mut d = String::new();
    write_panicking_fns(&mut d, ApiFamily::Gl);
    assert_eq!(
        d,
        "#[inline(never)]\n        fn missing_fn_panic() -> ! {\n            panic!(\"gl function was not loaded\")\n        }\n"
    );
    d.clear();
    write_enums(&mut d, &vec![enm("A", "GLenum", "1", false), enm("B", "GLenum", "2", true)]);
    assert_eq!(
        d,
        "#[allow(dead_code, non_upper_case_globals)] pub const A: types::GLenum = 1;\n#[allow(dead_code, non_upper_case_globals)] pub const B: types::GLenum = 2 as types::GLenum;\n"
    );
    d.clear();
    write_enums(&mut d, &vec![]);
    assert_eq!(d, "");
    d.clear();
    write_type_aliases(&mut d, ApiFamily::Gl);
    assert!(d.starts_with("\n        pub mod types {\n"));
    assert!(d.contains("pub type GLenum = super::__gl_imports::raw::c_uint;"));
    assert!(d.ends_with("}\n"));
}

#[test]
fn generator_writes_all_parts_in_order() {
    let b = Bindings {
        api: ApiFamily::Gl,
        enums: vec![enm("NO_ERROR", "GLenum", "0", false)],
        commands: vec![clear(), get_error()],
    };
    let mut d = String::new();
    ProfilingStructGenerator.write(&b, &mut d);
    let helper = d.find("static CALL_COUNT").unwrap();
    let header = d.find("mod __gl_imports").unwrap();
    let types = d.find("pub type GLenum = ").unwrap();
    let enums = d.find("pub const NO_ERROR").unwrap();
    let fnptr = d.find("pub struct FnPtr").unwrap();
    let stub = d.find("gl function was not loaded").unwrap();
    let strct = d.find("pub struct Gl {").unwrap();
    let imp = d.find("impl Gl {").unwrap();
    assert!(helper < header && header < types && types < enums && enums < fnptr);
    assert!(fnptr < stub && stub < strct && strct < imp);
    assert!(d.starts_with(HELPER_SOURCE));
}

#[test]
fn api_family_names() {
    assert_eq!(ApiFamily::Gl.name(), "gl");
    assert_eq!(ApiFamily::GlCore.name(), "glcore");
    assert_eq!(ApiFamily::Gles2.struct_name(), "Gles2");
    assert_eq!(ApiFamily::Glx.struct_name(), "Glx");
    assert_eq!(ApiFamily::Glx.symbol_prefix(), "glX");
    assert_eq!(ApiFamily::Wgl.symbol_prefix(), "wgl");
    assert_eq!(ApiFamily::Egl.symbol_prefix(), "egl");
    assert_eq!(ApiFamily::Gles1.symbol_prefix(), "gl");
    let mut d = String::new();
    write_panicking_fns(&mut d, ApiFamily::Egl);
    assert!(d.contains("panic!(\"egl function was not loaded\")"));
}

#[test]
fn glx_loader_uses_its_prefix() {
    let cmd = Command {
        ident: s("SwapBuffers"),
        aliases: Some(vec![s("SwapBuffersEXT")]),
        params: vec![],
        ret: s("()"),
    };
    let mut d = String::new();
    write_impl(&mut d, ApiFamily::Glx, &vec![cmd]);
    assert!(d.starts_with("impl Glx {"));
    assert!(d.contains("SwapBuffers: FnPtr::new(metaloadfn(\"glXSwapBuffers\", &[\"glXSwapBuffersEXT\"])),\n"));
    assert!(d.ends_with("unsafe impl __gl_imports::Send for Glx {}\n"));
}

#[test]
fn enum_item_forms() {
    let mut d = String::new();
    write_enum_item(&mut d, &enm("VERSION", "&'static str", "\"1.0\"", false), "types::");
    assert_eq!(
        d,
        "#[allow(dead_code, non_upper_case_globals)] pub const VERSION: &'static str = \"1.0\";\n"
    );
    d.clear();
    write_enum_item(&mut d, &enm("ALL", "GLbitfield", "0xFFFFFFFF", true), "gl::");
    assert_eq!(
        d,
        "#[allow(dead_code, non_upper_case_globals)] pub const ALL: gl::GLbitfield = 0xFFFFFFFF as gl::GLbitfield;\n"
    );
}

#[test]
fn type_aliases_follow_the_family() {
    let mut gl = String::new();
    write_type_aliases(&mut gl, ApiFamily::Gl);
    let mut glx = String::new();
    write_type_aliases(&mut glx, ApiFamily::Glx);
    let mut egl = String::new();
    write_type_aliases(&mut egl, ApiFamily::Egl);
    assert!(glx.len() > gl.len());
    assert!(glx.starts_with(&gl[..gl.len() - 2]));
    assert!(!egl.contains("pub type GLDEBUGPROC"));
    assert!(gl.contains("pub type GLDEBUGPROC"));
}
