//! The handle of one execution environment.

use vstd::prelude::*;
use crate::engine::{c_string, lemma_ascii_is_nul_free, nul_free, Call, JS_EVAL_TYPE_GLOBAL};
use crate::error::{Error, JsException};
use crate::runtime::Runtime;
use crate::primitive::Primitive;
use crate::value::{Construction, Value};
use vstd::string::StringSliceAdditionalSpecFns;

verus! {

/// The version that a primed context reports.
pub const VERSION: &'static str = "0.1.0";

/// The set of globals that an environment is populated with.
#[derive(Debug, Clone, Copy, PartialEq, Eq, Structural)]
pub enum Globals {
    /// Nothing beyond what the engine provides.
    Bare,
    /// The console.
    Console,
    /// The version, as a string and as a function.
    Version,
}

/// A global that a populated context offers to scripts.
#[derive(Debug, Clone, Copy, PartialEq, Eq, Structural)]
pub enum Builtin {
    /// The string `VERSION`.
    Version,
    /// The native function `getVersion`, which returns the same string.
    GetVersion,
    /// The object `console`, whose `log` property is a native function.
    Console,
}

impl Builtin {
    /// The name under which the global is installed.
    pub open spec fn spec_name(&self) -> Seq<char> {
        match self {
            Builtin::Version => "VERSION"@,
            Builtin::GetVersion => "getVersion"@,
            Builtin::Console => "console"@,
        }
    }

    /// Returns the name under which the global is installed.
    pub fn name(&self) -> (n: &'static str)
        ensures
            n@ == self.spec_name(),
    {
        match self {
            Builtin::Version => "VERSION",
            Builtin::GetVersion => "getVersion",
            Builtin::Console => "console",
        }
    }

    /// Whether the global is a native function.
    pub fn is_function(&self) -> (f: bool)
        ensures
            f == (*self == Builtin::GetVersion),
    {
        match self {
            Builtin::GetVersion => true,
            _ => false,
        }
    }

    /// The names of the native functions that the global holds as its
    /// properties: `log` for the console, none for the others.
    pub open spec fn spec_members(&self) -> Seq<Seq<char>> {
        match self {
            Builtin::Console => seq!["log"@],
            _ => Seq::empty(),
        }
    }

    /// Returns the names of the native functions that the global holds as
    /// its properties.
    pub fn members(&self) -> (names: Vec<&'static str>)
        ensures
            names@.len() == self.spec_members().len(),
            forall|i: int|
                0 <= i < names@.len() ==> (#[trigger] names@[i])@ == self.spec_members()[i],
    {
        let mut names: Vec<&'static str> = Vec::new();
        match self {
            Builtin::Console => {
                names.push("log");
            },
            _ => {},
        }
        names
    }

    /// Whether the global is an object, put together by
    /// `builtins::make_basic_console`.
    pub fn is_object(&self) -> (o: bool)
        ensures
            o == (*self == Builtin::Console),
    {
        match self {
            Builtin::Console => true,
            _ => false,
        }
    }
}

/// One execution environment, named by the address that the engine gave
/// it, together with the runtime that it runs in.
///
/// A handle made by `empty`, `new` or `new_primed` owns the environment;
/// one made by `borrow_raw_unchecked` stands for an environment that the
/// engine owns.
#[derive(Debug, Clone, Copy, PartialEq, Eq)]
pub struct Context {
    ptr: usize,
    rt: Runtime,
    owner: bool,
    globals: Globals,
}

impl Context {
    /// The engine's address of the environment.
    pub closed spec fn spec_ptr(&self) -> usize {
        self.ptr
    }

    /// The runtime that the environment runs in.
    pub closed spec fn spec_rt(&self) -> Runtime {
        self.rt
    }

    /// Whether the handle owns the environment.
    pub closed spec fn spec_owner(&self) -> bool {
        self.owner
    }

    /// The globals that the environment is populated with.
    pub closed spec fn spec_globals(&self) -> Globals {
        self.globals
    }

    /// The globals of a set, in the order in which they are installed.
    pub open spec fn spec_builtins(globals: Globals) -> Seq<Builtin> {
        match globals {
            Globals::Bare => Seq::empty(),
            Globals::Console => seq![Builtin::Console],
            Globals::Version => seq![Builtin::Version, Builtin::GetVersion],
        }
    }

    /// An owning handle of the environment at `ptr` in `rt`, populated with
    /// `globals`.
    pub open spec fn made(res: Result<Context, Error>, rt: Runtime, ptr: usize, globals: Globals)
        -> bool {
        if ptr == 0 {
            res == Err::<Context, Error>(Error::ContextInit)
        } else {
            res is Ok && res.unwrap().spec_ptr() == ptr && res.unwrap().spec_rt() == rt
                && res.unwrap().spec_owner() && res.unwrap().spec_globals() == globals
        }
    }

    /// Wraps the environment that the engine returned for `rt` as a
    /// completely empty one; the null address means that the engine could
    /// not make one.
    pub fn empty(rt: &Runtime, ptr: usize) -> (res: Result<Context, Error>)
        ensures
            Self::made(res, *rt, ptr, Globals::Bare),
    {
        if ptr == 0 {
            return Err(Error::ContextInit);
        }
        Ok(Context { ptr, rt: *rt, owner: true, globals: Globals::Bare })
    }

    /// Wraps the environment that the engine returned for `rt` as one that
    /// is populated with the common utilities: the console.  The null
    /// address means that the engine could not make one.
    pub fn new(rt: &Runtime, ptr: usize) -> (res: Result<Context, Error>)
        ensures
            Self::made(res, *rt, ptr, Globals::Console),
    {
        match Context::empty(rt, ptr) {
            Ok(ctx) => Ok(
                Context { ptr: ctx.ptr, rt: ctx.rt, owner: ctx.owner, globals: Globals::Console },
            ),
            Err(e) => Err(e),
        }
    }

    /// Wraps the environment that the engine returned for `rt` as one that
    /// is populated with the version globals.  The null address means that
    /// the engine could not make one.
    pub fn new_primed(rt: &Runtime, ptr: usize) -> (res: Result<Context, Error>)
        ensures
            Self::made(res, *rt, ptr, Globals::Version),
    {
        match Context::empty(rt, ptr) {
            Ok(ctx) => Ok(
                Context { ptr: ctx.ptr, rt: ctx.rt, owner: ctx.owner, globals: Globals::Version },
            ),
            Err(e) => Err(e),
        }
    }

    /// Stands for an environment that the engine owns, and for its runtime,
    /// without taking a share in either.
    pub fn borrow_raw_unchecked(ctx: usize, rt: usize) -> (res: Context)
        ensures
            res.spec_ptr() == ctx,
            res.spec_rt().spec_ptr() == rt,
            !res.spec_rt().spec_owner(),
            !res.spec_owner(),
            res.spec_globals() == Globals::Bare,
    {
        Context {
            ptr: ctx,
            rt: Runtime::borrow_raw_unchecked(rt),
            owner: false,
            globals: Globals::Bare,
        }
    }

    /// Runs `f` on a context made of a fresh runtime and a fresh
    /// environment with the console, given by the addresses that the engine
    /// returned.
    pub fn run<R, F: FnOnce(&Context) -> Result<R, Error>>(rt: usize, ctx: usize, f: F) -> (res:
        Result<R, Error>)
        requires
            rt != 0 && ctx != 0 ==> forall|c: Context| #[trigger]
                c.spec_ptr() == ctx && c.spec_rt().spec_ptr() == rt ==> f.requires((&c,)),
        ensures
            rt == 0 ==> res matches Err(Error::RuntimeInit),
            rt != 0 && ctx == 0 ==> res matches Err(Error::ContextInit),
            rt != 0 && ctx != 0 ==> exists|c: Context|
                #![trigger f.ensures((&c,), res)]
                c.spec_ptr() == ctx && c.spec_rt().spec_ptr() == rt && c.spec_owner()
                    && c.spec_rt().spec_owner() && c.spec_globals() == Globals::Console
                    && f.ensures((&c,), res),
    {
        let runtime = match Runtime::new(rt) {
            Ok(runtime) => runtime,
            Err(e) => {
                return Err(e);
            },
        };
        let context = match Context::new(&runtime, ctx) {
            Ok(context) => context,
            Err(e) => {
                return Err(e);
            },
        };
        f(&context)
    }

    /// Returns a reference to the runtime.
    pub fn rt(&self) -> (r: &Runtime)
        ensures
            *r == self.spec_rt(),
    {
        &self.rt
    }

    /// Returns the engine's address of the environment.
    pub fn ptr(&self) -> (p: usize)
        ensures
            p == self.spec_ptr(),
    {
        self.ptr
    }

    /// Whether the environment is to be released when the last copy of this
    /// handle goes.
    pub fn is_owner(&self) -> (o: bool)
        ensures
            o == self.spec_owner(),
    {
        self.owner
    }

    /// The globals that the environment is to hold, in the order in which
    /// they are installed.
    pub fn builtins(&self) -> (list: Vec<Builtin>)
        ensures
            list@ == Self::spec_builtins(self.spec_globals()),
    {
        let mut list: Vec<Builtin> = Vec::new();
        match self.globals {
            Globals::Bare => {},
            Globals::Console => {
                list.push(Builtin::Console);
            },
            Globals::Version => {
                list.push(Builtin::Version);
                list.push(Builtin::GetVersion);
            },
        }
        assert(list@ =~= Self::spec_builtins(self.globals));
        list
    }

    /// Wraps the root object.  The engine hands its word out with a unit of
    /// the count already taken, so the value owns it as it is.
    pub fn global(&self, raw: u64) -> (v: Value)
        ensures
            v.spec_raw() == raw,
            v.spec_ctx() == *self,
    {
        Value::from_raw_unchecked(self, raw)
    }

    /// Makes the call that evaluates `code` as a global script named
    /// `<script>`.  Code that holds a NUL is refused.
    pub fn eval(&self, code: &str) -> (res: Result<Call, Error>)
        ensures
            res is Ok <==> nul_free(code.spec_bytes()),
            res matches Ok(call) ==> call matches Call::Eval { code: input, len, name, flags }
                && input@ == code.spec_bytes().push(0) && len == code.spec_bytes().len()
                && name@ == "<script>".spec_bytes().push(0) && flags == JS_EVAL_TYPE_GLOBAL,
            res matches Err(e) ==> e matches Error::NulError(at) && crate::engine::first_nul_at(
                code.spec_bytes(),
                at as int,
            ),
    {
        let input = match c_string(code) {
            Ok(input) => input,
            Err(e) => {
                return Err(e);
            },
        };
        proof {
            lemma_script_name_is_nul_free();
        }
        let name = match c_string("<script>") {
            Ok(name) => name,
            Err(e) => {
                return Err(e);
            },
        };
        let len: usize = code.as_bytes().len();
        Ok(Call::Eval { code: input, len, name, flags: JS_EVAL_TYPE_GLOBAL })
    }

    /// What the built-in `getVersion` returns, and what the global `VERSION`
    /// is set to: a string of the version, which the engine is to make.
    pub fn version_value(&self) -> (made: Construction)
        ensures
            made matches Construction::Engine(Call::NewStringLen { bytes }) && bytes@
                == VERSION.spec_bytes(),
    {
        Value::from_primitive(self, Primitive::from_str(VERSION))
    }

    /// Returns the pending exception, already captured, as an error.
    pub fn last_error(&self, pending: JsException) -> (e: Error)
        ensures
            e == Error::JsException(pending),
    {
        Error::JsException(pending)
    }
}

proof fn lemma_script_name_is_nul_free()
    ensures
        nul_free("<script>".spec_bytes()),
{
    reveal_strlit("<script>");
    assert("<script>"@ =~= seq!['<', 's', 'c', 'r', 'i', 'p', 't', '>']);
    lemma_ascii_is_nul_free("<script>");
}

} // verus!
