//! Compiler options and the classification of a compiler run's output.
//!
//! The options record is plain host data: levels and name lists that are
//! marshaled into the foreign compiler call at its edge. The compiler
//! answers with one byte buffer; a leading zero byte marks an error whose
//! message follows, anything else is bytecode.

use vstd::prelude::*;

verus! {

/// Options of the foreign bytecode compiler.
#[derive(Clone, Debug)]
pub struct Compiler {
    /// Degree of optimization: none, debuggable, or aggressive.
    pub optimization_level: u8,
    /// Degree of debug information: none, backtraces, or full.
    pub debug_level: u8,
    /// Degree of type information emitted for native code generation.
    pub type_info_level: u8,
    /// Degree of code-coverage instrumentation.
    pub coverage_level: u8,
    /// Name of the library whose members construct vectors.
    pub vector_lib: Option<Vec<u8>>,
    /// Name of the vector constructor.
    pub vector_ctor: Option<Vec<u8>>,
    /// Name of the vector type.
    pub vector_type: Option<Vec<u8>>,
    /// Globals treated as mutable, disabling import optimization on them.
    pub mutable_globals: Vec<Vec<u8>>,
    /// Userdata types included in the emitted type information.
    pub userdata_types: Vec<Vec<u8>>,
    /// Builtins the compiler must not specialize.
    pub disabled_builtins: Vec<Vec<u8>>,
    /// Libraries whose members the host resolves through callbacks.
    pub libraries: Option<Vec<Vec<u8>>>,
}

impl Compiler {
    /// The default options: baseline optimization and backtrace-level
    /// debug information.
    pub fn new() -> (r: Compiler)
        ensures
            r.optimization_level == 1,
            r.debug_level == 1,
            r.type_info_level == 0,
            r.coverage_level == 0,
            r.vector_lib is None,
            r.vector_ctor is None,
            r.vector_type is None,
            r.mutable_globals@ == Seq::<Vec<u8>>::empty(),
            r.userdata_types@ == Seq::<Vec<u8>>::empty(),
            r.disabled_builtins@ == Seq::<Vec<u8>>::empty(),
            r.libraries is None,
    {
        Compiler {
            optimization_level: 1,
            debug_level: 1,
            type_info_level: 0,
            coverage_level: 0,
            vector_lib: None,
            vector_ctor: None,
            vector_type: None,
            mutable_globals: Vec::new(),
            userdata_types: Vec::new(),
            disabled_builtins: Vec::new(),
            libraries: None,
        }
    }

    /// Sets the optimization level.
    pub fn set_optimization_level(self, level: u8) -> (r: Compiler)
        ensures
            r == (Compiler { optimization_level: level, ..self }),
    {
        Compiler { optimization_level: level, ..self }
    }

    /// Sets the debug-information level.
    pub fn set_debug_level(self, level: u8) -> (r: Compiler)
        ensures
            r == (Compiler { debug_level: level, ..self }),
    {
        Compiler { debug_level: level, ..self }
    }

    /// Sets the type-information level.
    pub fn set_type_info_level(self, level: u8) -> (r: Compiler)
        ensures
            r == (Compiler { type_info_level: level, ..self }),
    {
        Compiler { type_info_level: level, ..self }
    }

    /// Sets the code-coverage level.
    pub fn set_coverage_level(self, level: u8) -> (r: Compiler)
        ensures
            r == (Compiler { coverage_level: level, ..self }),
    {
        Compiler { coverage_level: level, ..self }
    }

    /// Names the library whose members construct vectors.
    pub fn set_vector_lib(self, lib: Vec<u8>) -> (r: Compiler)
        ensures
            r == (Compiler { vector_lib: Some(lib), ..self }),
    {
        Compiler { vector_lib: Some(lib), ..self }
    }

    /// Names the vector constructor.
    pub fn set_vector_ctor(self, ctor: Vec<u8>) -> (r: Compiler)
        ensures
            r == (Compiler { vector_ctor: Some(ctor), ..self }),
    {
        Compiler { vector_ctor: Some(ctor), ..self }
    }

    /// Names the vector type.
    pub fn set_vector_type(self, vector_type: Vec<u8>) -> (r: Compiler)
        ensures
            r == (Compiler { vector_type: Some(vector_type), ..self }),
    {
        Compiler { vector_type: Some(vector_type), ..self }
    }

    /// Sets the list of globals treated as mutable.
    pub fn set_mutable_globals(self, globals: Vec<Vec<u8>>) -> (r: Compiler)
        ensures
            r == (Compiler { mutable_globals: globals, ..self }),
    {
        Compiler { mutable_globals: globals, ..self }
    }

    /// Sets the list of userdata types included in type information.
    pub fn set_userdata_types(self, types: Vec<Vec<u8>>) -> (r: Compiler)
        ensures
            r == (Compiler { userdata_types: types, ..self }),
    {
        Compiler { userdata_types: types, ..self }
    }

    /// Sets the list of builtins the compiler must not specialize.
    pub fn set_disabled_builtins(self, builtins: Vec<Vec<u8>>) -> (r: Compiler)
        ensures
            r == (Compiler { disabled_builtins: builtins, ..self }),
    {
        Compiler { disabled_builtins: builtins, ..self }
    }

    /// Sets the list of libraries with host-resolved members.
    pub fn set_libraries(self, libraries: Vec<Vec<u8>>) -> (r: Compiler)
        ensures
            r == (Compiler { libraries: Some(libraries), ..self }),
    {
        Compiler { libraries: Some(libraries), ..self }
    }
}

impl Default for Compiler {
    /// The default options, as `new` builds them.
    fn default() -> (r: Compiler)
        ensures
            r.optimization_level == 1,
            r.debug_level == 1,
            r.type_info_level == 0,
            r.coverage_level == 0,
            r.vector_lib is None,
            r.vector_ctor is None,
            r.vector_type is None,
            r.mutable_globals@ == Seq::<Vec<u8>>::empty(),
            r.userdata_types@ == Seq::<Vec<u8>>::empty(),
            r.disabled_builtins@ == Seq::<Vec<u8>>::empty(),
            r.libraries is None,
    {
        Compiler::new()
    }
}

/// An error answer starts with a zero byte; everything else is bytecode.
pub open spec fn spec_output_is_err(bytes: Seq<u8>) -> bool {
    bytes.len() > 0 && bytes[0] == 0
}

/// The byte buffer a compiler run answered with.
#[derive(Clone, Debug)]
pub struct CompilerResult {
    bytecode: Vec<u8>,
}

impl CompilerResult {
    /// The raw answer bytes.
    pub closed spec fn bytes_view(&self) -> Seq<u8> {
        self.bytecode@
    }

    /// Wraps the raw answer of a compiler run.
    pub fn from_bytes(bytes: Vec<u8>) -> (r: CompilerResult)
        ensures
            r.bytes_view() == bytes@,
    {
        CompilerResult { bytecode: bytes }
    }

    /// Returns true when the answer is an error message.
    pub fn is_err(&self) -> (r: bool)
        ensures
            r == spec_output_is_err(self.bytes_view()),
    {
        self.bytecode.len() > 0 && self.bytecode[0] == 0
    }

    /// Returns true when the answer is bytecode.
    pub fn is_ok(&self) -> (r: bool)
        ensures
            r == !spec_output_is_err(self.bytes_view()),
    {
        !self.is_err()
    }

    /// The produced bytecode, or `None` when the run errored.
    pub fn bytecode(&self) -> (r: Option<&Vec<u8>>)
        ensures
            r is Some <==> !spec_output_is_err(self.bytes_view()),
            r is Some ==> r->0@ == self.bytes_view(),
    {
        if self.is_err() {
            None
        } else {
            Some(&self.bytecode)
        }
    }

    /// The error message, or `None` when the run produced bytecode.
    pub fn error(&self) -> (r: Option<&[u8]>)
        ensures
            r is Some <==> spec_output_is_err(self.bytes_view()),
            r is Some ==> r->0@ == self.bytes_view().skip(1),
    {
        if self.is_ok() {
            None
        } else {
            let msg: &[u8] = &self.bytecode.as_slice()[1..self.bytecode.len()];
            assert(msg@ =~= self.bytes_view().skip(1));
            Some(msg)
        }
    }
}

} // verus!
