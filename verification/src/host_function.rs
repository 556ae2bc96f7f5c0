//! Registration records for host-defined functions: each bundles a name, a
//! native entry-point handle and a signature string, and a list of them is
//! what the embedded runtime receives at startup.  The runtime takes the
//! strings as C strings, so none of them may hold an interior null
//! character.

use vstd::prelude::*;

verus! {

use vstd::string::StringExecFns;

/// Whether a string is free of interior null characters, as the C string
/// boundary demands.
pub open spec fn no_nul(s: Seq<char>) -> bool {
    forall|i: int| 0 <= i < s.len() ==> s[i] != '\0'
}

/// A host-defined function as the runtime registers it: a name, the handle
/// of its native entry point, and its encoded signature.
#[derive(Debug)]
pub struct HostFunction {
    function_name: String,
    function_ptr: usize,
    signature: String,
}

impl HostFunction {
    pub closed spec fn spec_name(&self) -> Seq<char> {
        self.function_name@
    }

    pub closed spec fn spec_ptr(&self) -> usize {
        self.function_ptr
    }

    pub closed spec fn spec_signature(&self) -> Seq<char> {
        self.signature@
    }

    /// The strings can cross the C string boundary.
    pub open spec fn wf(&self) -> bool {
        no_nul(self.spec_name()) && no_nul(self.spec_signature())
    }

    /// Bundles one host function for registration.
    pub fn new(name: &str, ptr: usize, signature: &str) -> (r: Self)
        requires
            no_nul(name@),
            no_nul(signature@),
        ensures
            r.spec_name() == name@,
            r.spec_ptr() == ptr,
            r.spec_signature() == signature@,
            r.wf(),
    {
        HostFunction {
            function_name: String::from_str(name),
            function_ptr: ptr,
            signature: String::from_str(signature),
        }
    }
}

/// One row of the native-symbol table handed to the runtime: the registered
/// name, the entry-point handle, and the signature.
#[derive(Debug)]
pub struct NativeSymbolRecord {
    pub symbol: String,
    pub func_ptr: usize,
    pub signature: String,
}

/// A symbol row carries exactly the fields of the function it was made from.
pub open spec fn symbol_of(r: NativeSymbolRecord, f: HostFunction) -> bool {
    &&& r.symbol@ == f.spec_name()
    &&& r.func_ptr == f.spec_ptr()
    &&& r.signature@ == f.spec_signature()
}

/// The host functions of one import module, with the symbol table the
/// runtime receives; the list keeps ownership of everything the table
/// refers to.
#[derive(Debug)]
pub struct HostFunctionList {
    module_name: String,
    host_functions: Vec<HostFunction>,
    native_symbols: Vec<NativeSymbolRecord>,
}

impl HostFunctionList {
    pub closed spec fn spec_module_name(&self) -> Seq<char> {
        self.module_name@
    }

    pub closed spec fn spec_functions(&self) -> Seq<HostFunction> {
        self.host_functions@
    }

    pub closed spec fn spec_symbols(&self) -> Seq<NativeSymbolRecord> {
        self.native_symbols@
    }

    /// The symbol table mirrors the function list row for row.
    pub open spec fn wf(&self) -> bool {
        &&& no_nul(self.spec_module_name())
        &&& self.spec_symbols().len() == self.spec_functions().len()
        &&& forall|i: int|
            0 <= i < self.spec_functions().len() ==> symbol_of(
                #[trigger] self.spec_symbols()[i],
                self.spec_functions()[i],
            )
    }

    /// An empty list for one import module.
    pub fn new(module_name: &str) -> (r: Self)
        requires
            no_nul(module_name@),
        ensures
            r.spec_module_name() == module_name@,
            r.spec_functions().len() == 0,
            r.spec_symbols().len() == 0,
            r.wf(),
    {
        HostFunctionList {
            module_name: String::from_str(module_name),
            host_functions: Vec::new(),
            native_symbols: Vec::new(),
        }
    }

    /// Appends one host function and its symbol row.
    pub fn register_host_function(&mut self, function: HostFunction)
        requires
            old(self).wf(),
        ensures
            final(self).wf(),
            final(self).spec_module_name() == old(self).spec_module_name(),
            final(self).spec_functions() == old(self).spec_functions().push(function),
            final(self).spec_symbols().len() == old(self).spec_symbols().len() + 1,
            symbol_of(final(self).spec_symbols().last(), function),
    {
        let record = NativeSymbolRecord {
            symbol: function.function_name.clone(),
            func_ptr: function.function_ptr,
            signature: function.signature.clone(),
        };
        self.host_functions.push(function);
        self.native_symbols.push(record);
    }

    /// The symbol table as the runtime receives it.
    pub fn get_native_symbols(&self) -> (r: &Vec<NativeSymbolRecord>)
        ensures
            r@ == self.spec_symbols(),
    {
        &self.native_symbols
    }

    /// The import module's name.
    pub fn get_module_name(&self) -> (r: &String)
        ensures
            r@ == self.spec_module_name(),
    {
        &self.module_name
    }
}

} // verus!
