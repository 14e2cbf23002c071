//! Text emitters for the bindings source: each appends one fixed or
//! description-driven part of the generated module to a `String`.
use vstd::prelude::*;

verus! {

/// The profiler counters, their accessors and the status decoder.
pub const HELPER_SOURCE: &'static str = r##"
static CALL_COUNT: ::std::sync::atomic::AtomicUsize = ::std::sync::atomic::AtomicUsize::new(0);
static ERR_COUNT: ::std::sync::atomic::AtomicUsize = ::std::sync::atomic::AtomicUsize::new(0);

pub fn profiler_reset() {
    CALL_COUNT.store(0, ::std::sync::atomic::Ordering::SeqCst);
    ERR_COUNT.store(0, ::std::sync::atomic::Ordering::SeqCst);
}

pub fn profiler_call_count() -> usize {
    CALL_COUNT.load(::std::sync::atomic::Ordering::SeqCst)
}

fn inc_call() {
    CALL_COUNT.fetch_add(1, ::std::sync::atomic::Ordering::SeqCst);
}

pub fn profiler_err_count() -> usize {
    ERR_COUNT.load(::std::sync::atomic::Ordering::SeqCst)
}

fn inc_err() {
    ERR_COUNT.fetch_add(1, ::std::sync::atomic::Ordering::SeqCst);
}

fn gl_error_to_str(error: u32) -> &'static str {
    match error {
        self::NO_ERROR => {
            "NO_ERROR = No error has been recorded.
                        The value of this \
                      symbolic constant is guaranteed to be 0."
        }
        self::INVALID_ENUM => {
            "INVALID_ENUM = An unacceptable value is specified for an enumerated argument.
                        \
                      The offending command is ignored
                        and has no other \
                      side effect than to set the error flag."
        }
        self::INVALID_VALUE => {
            "INVALID_VALUE = A numeric argument is out of range.
                        The offending command is ignored
                        and has no other side effect than to set the error flag."
        }
        self::INVALID_OPERATION => {
            "INVALID_OPERATION = The specified operation is not allowed in the current \
                      state.
                        The offending command is ignored
                        \
                      and has no other side effect than to set the error flag."
        }
        self::INVALID_FRAMEBUFFER_OPERATION => {
            "INVALID_FRAMEBUFFER_OPERATION = The command is trying to render to or read \
                      from the framebuffer
                        while the currently bound \
                      framebuffer is not framebuffer
                        complete (i.e. the \
                      return value from
                        glCheckFramebufferStatus
                        \
                      is not GL_FRAMEBUFFER_COMPLETE).
                        The offending \
                      command is ignored
                        and has no other side effect than \
                      to set the error flag."
        }
        self::OUT_OF_MEMORY => {
            "OUT_OF_MEMORY = There is not enough memory left to execute the command.
                        The state of the GL is undefined,
                        except for the state of the error flags,
                        after this error is recorded."
        }
        _ => "Unknown error",
    }
}
    
"##;

/// The `__gl_imports` module of re-exports used by the bindings.
pub const HEADER_SOURCE: &'static str = r##"
        mod __gl_imports {
            pub use std::mem;
            pub use std::marker::Send;
            pub use std::os::raw;
        }
    
"##;

/// The `FnPtr` structure that stores a single binding.
pub const FNPTR_SOURCE: &'static str = r##"
        #[allow(dead_code, missing_copy_implementations)]
        #[derive(Clone)]
        pub struct FnPtr {
            /// The function pointer that will be used when calling the function.
            f: *const __gl_imports::raw::c_void,
            /// True if the pointer points to a real function, false if points to a `panic!` fn.
            is_loaded: bool,
        }
        impl FnPtr {
            /// Creates a `FnPtr` from a load attempt.
            fn new(ptr: *const __gl_imports::raw::c_void) -> FnPtr {
                if ptr.is_null() {
                    FnPtr {
                        f: missing_fn_panic as *const __gl_imports::raw::c_void,
                        is_loaded: false
                    }
                } else {
                    FnPtr { f: ptr, is_loaded: true }
                }
            }
            /// Returns `true` if the function has been successfully loaded.
            ///
            /// If it returns `false`, calling the corresponding function will fail.
            #[inline]
            #[allow(dead_code)]
            pub fn is_loaded(&self) -> bool {
                self.is_loaded
            }
        }
    
"##;

/// Appends the profiler counters, their accessors and the status decoder.
pub fn write_helper(dest: &mut String)
    ensures
        final(dest)@ == old(dest)@ + HELPER_SOURCE@,
{
    dest.append(HELPER_SOURCE);
}

/// Appends the `__gl_imports` module, which contains all the outside symbols
/// that the bindings need.
pub fn write_header(dest: &mut String)
    ensures
        final(dest)@ == old(dest)@ + HEADER_SOURCE@,
{
    dest.append(HEADER_SOURCE);
}

/// Appends the `FnPtr` structure, which contains the store for a single binding.
pub fn write_fnptr_struct_def(dest: &mut String)
    ensures
        final(dest)@ == old(dest)@ + FNPTR_SOURCE@,
{
    dest.append(FNPTR_SOURCE);
}

} // verus!
