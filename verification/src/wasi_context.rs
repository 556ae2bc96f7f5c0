//! The WASI arguments a module is instantiated with: pre-opened paths,
//! permitted addresses and DNS names, environment variables and command-line
//! arguments, gathered by a builder.  The runtime takes every entry as a C
//! string, so no entry may hold an interior null character.

use vstd::prelude::*;

verus! {

use crate::host_function::no_nul;
use vstd::string::StringExecFns;

/// Whether every entry of a list can cross the C string boundary.
pub open spec fn all_no_nul(v: Seq<String>) -> bool {
    forall|i: int| 0 <= i < v.len() ==> no_nul((#[trigger] v[i])@)
}

/// Entry-for-entry equal text.
pub open spec fn same_strings(a: Seq<String>, b: Seq<&str>) -> bool {
    a.len() == b.len() && forall|i: int| 0 <= i < a.len() ==> (#[trigger] a[i])@ == b[i]@
}

/// Whether every borrowed entry can cross the C string boundary.
pub open spec fn all_entries_no_nul(v: Seq<&str>) -> bool {
    forall|i: int| 0 <= i < v.len() ==> no_nul((#[trigger] v[i])@)
}

/// Copies borrowed entries into owned ones.
fn to_owned_vec(v: &Vec<&str>) -> (r: Vec<String>)
    requires
        all_entries_no_nul(v@),
    ensures
        same_strings(r@, v@),
        all_no_nul(r@),
{
    let mut r: Vec<String> = Vec::new();
    let mut i: usize = 0;
    while i < v.len()
        invariant
            i <= v@.len(),
            r@.len() == i,
            all_entries_no_nul(v@),
            forall|k: int| 0 <= k < i ==> (#[trigger] r@[k])@ == v@[k]@,
        decreases v@.len() - i,
    {
        r.push(String::from_str(v[i]));
        i = i + 1;
    }
    proof {
        assert forall|k: int| 0 <= k < r@.len() implies no_nul((#[trigger] r@[k])@) by {
            assert(no_nul(v@[k]@));
        }
    }
    r
}

#[derive(Debug)]
struct PreOpen {
    real_paths: Vec<String>,
    mapped_paths: Vec<String>,
}

/// Gathers WASI arguments before a module is instantiated.
#[derive(Debug)]
pub struct WasiCtxBuilder {
    pre_open: PreOpen,
    allowed_address: Vec<String>,
    allowed_dns: Vec<String>,
    env: Vec<String>,
    args: Vec<String>,
}

/// The WASI arguments of one module.
#[derive(Debug)]
pub struct WasiCtx {
    pre_open: PreOpen,
    allowed_address: Vec<String>,
    allowed_dns: Vec<String>,
    env: Vec<String>,
    args: Vec<String>,
}

impl WasiCtxBuilder {
    pub closed spec fn spec_real_paths(&self) -> Seq<String> {
        self.pre_open.real_paths@
    }

    pub closed spec fn spec_mapped_paths(&self) -> Seq<String> {
        self.pre_open.mapped_paths@
    }

    pub closed spec fn spec_allowed_address(&self) -> Seq<String> {
        self.allowed_address@
    }

    pub closed spec fn spec_allowed_dns(&self) -> Seq<String> {
        self.allowed_dns@
    }

    pub closed spec fn spec_env(&self) -> Seq<String> {
        self.env@
    }

    pub closed spec fn spec_args(&self) -> Seq<String> {
        self.args@
    }

    /// A builder with nothing set.
    pub fn new() -> (r: WasiCtxBuilder)
        ensures
            r.spec_real_paths().len() == 0,
            r.spec_mapped_paths().len() == 0,
            r.spec_allowed_address().len() == 0,
            r.spec_allowed_dns().len() == 0,
            r.spec_env().len() == 0,
            r.spec_args().len() == 0,
    {
        WasiCtxBuilder {
            pre_open: PreOpen { real_paths: Vec::new(), mapped_paths: Vec::new() },
            allowed_address: Vec::new(),
            allowed_dns: Vec::new(),
            env: Vec::new(),
            args: Vec::new(),
        }
    }

    /// Hands the gathered arguments over.
    pub fn build(self) -> (r: WasiCtx)
        ensures
            r.spec_real_paths() == self.spec_real_paths(),
            r.spec_mapped_paths() == self.spec_mapped_paths(),
            r.spec_allowed_address() == self.spec_allowed_address(),
            r.spec_allowed_dns() == self.spec_allowed_dns(),
            r.spec_env() == self.spec_env(),
            r.spec_args() == self.spec_args(),
    {
        WasiCtx {
            pre_open: self.pre_open,
            allowed_address: self.allowed_address,
            allowed_dns: self.allowed_dns,
            env: self.env,
            args: self.args,
        }
    }

    /// Sets the pre-opened directories and files: the real host paths, and
    /// the paths they are mapped to inside the guest.
    pub fn set_pre_open_path(self, real_paths: Vec<&str>, mapped_paths: Vec<&str>) -> (r:
        WasiCtxBuilder)
        requires
            all_entries_no_nul(real_paths@),
            all_entries_no_nul(mapped_paths@),
        ensures
            same_strings(r.spec_real_paths(), real_paths@),
            same_strings(r.spec_mapped_paths(), mapped_paths@),
            all_no_nul(r.spec_real_paths()),
            all_no_nul(r.spec_mapped_paths()),
            r.spec_allowed_address() == self.spec_allowed_address(),
            r.spec_allowed_dns() == self.spec_allowed_dns(),
            r.spec_env() == self.spec_env(),
            r.spec_args() == self.spec_args(),
    {
        WasiCtxBuilder {
            pre_open: PreOpen {
                real_paths: to_owned_vec(&real_paths),
                mapped_paths: to_owned_vec(&mapped_paths),
            },
            ..self
        }
    }

    /// Sets the environment variables, each entry of the form `NAME=value`.
    pub fn set_env_vars(self, envs: Vec<&str>) -> (r: WasiCtxBuilder)
        requires
            all_entries_no_nul(envs@),
        ensures
            same_strings(r.spec_env(), envs@),
            all_no_nul(r.spec_env()),
            r.spec_real_paths() == self.spec_real_paths(),
            r.spec_mapped_paths() == self.spec_mapped_paths(),
            r.spec_allowed_address() == self.spec_allowed_address(),
            r.spec_allowed_dns() == self.spec_allowed_dns(),
            r.spec_args() == self.spec_args(),
    {
        WasiCtxBuilder { env: to_owned_vec(&envs), ..self }
    }

    /// Sets the DNS names the guest may resolve.
    pub fn set_allowed_dns(self, dns: Vec<&str>) -> (r: WasiCtxBuilder)
        requires
            all_entries_no_nul(dns@),
        ensures
            same_strings(r.spec_allowed_dns(), dns@),
            all_no_nul(r.spec_allowed_dns()),
            r.spec_real_paths() == self.spec_real_paths(),
            r.spec_mapped_paths() == self.spec_mapped_paths(),
            r.spec_allowed_address() == self.spec_allowed_address(),
            r.spec_env() == self.spec_env(),
            r.spec_args() == self.spec_args(),
    {
        WasiCtxBuilder { allowed_dns: to_owned_vec(&dns), ..self }
    }

    /// Sets the addresses the guest may connect to.
    pub fn set_allowed_address(self, addresses: Vec<&str>) -> (r: WasiCtxBuilder)
        requires
            all_entries_no_nul(addresses@),
        ensures
            same_strings(r.spec_allowed_address(), addresses@),
            all_no_nul(r.spec_allowed_address()),
            r.spec_real_paths() == self.spec_real_paths(),
            r.spec_mapped_paths() == self.spec_mapped_paths(),
            r.spec_allowed_dns() == self.spec_allowed_dns(),
            r.spec_env() == self.spec_env(),
            r.spec_args() == self.spec_args(),
    {
        WasiCtxBuilder { allowed_address: to_owned_vec(&addresses), ..self }
    }

    /// Sets the guest's command-line arguments.
    pub fn set_arguments(self, args: Vec<&str>) -> (r: WasiCtxBuilder)
        requires
            all_entries_no_nul(args@),
        ensures
            same_strings(r.spec_args(), args@),
            all_no_nul(r.spec_args()),
            r.spec_real_paths() == self.spec_real_paths(),
            r.spec_mapped_paths() == self.spec_mapped_paths(),
            r.spec_allowed_address() == self.spec_allowed_address(),
            r.spec_allowed_dns() == self.spec_allowed_dns(),
            r.spec_env() == self.spec_env(),
    {
        WasiCtxBuilder { args: to_owned_vec(&args), ..self }
    }
}

impl WasiCtx {
    pub closed spec fn spec_real_paths(&self) -> Seq<String> {
        self.pre_open.real_paths@
    }

    pub closed spec fn spec_mapped_paths(&self) -> Seq<String> {
        self.pre_open.mapped_paths@
    }

    pub closed spec fn spec_allowed_address(&self) -> Seq<String> {
        self.allowed_address@
    }

    pub closed spec fn spec_allowed_dns(&self) -> Seq<String> {
        self.allowed_dns@
    }

    pub closed spec fn spec_env(&self) -> Seq<String> {
        self.env@
    }

    pub closed spec fn spec_args(&self) -> Seq<String> {
        self.args@
    }

    pub fn get_preopen_real_paths(&self) -> (r: &Vec<String>)
        ensures
            r@ == self.spec_real_paths(),
    {
        &self.pre_open.real_paths
    }

    pub fn get_preopen_mapped_paths(&self) -> (r: &Vec<String>)
        ensures
            r@ == self.spec_mapped_paths(),
    {
        &self.pre_open.mapped_paths
    }

    pub fn get_allowed_address(&self) -> (r: &Vec<String>)
        ensures
            r@ == self.spec_allowed_address(),
    {
        &self.allowed_address
    }

    pub fn get_allowed_dns(&self) -> (r: &Vec<String>)
        ensures
            r@ == self.spec_allowed_dns(),
    {
        &self.allowed_dns
    }

    pub fn get_env_vars(&self) -> (r: &Vec<String>)
        ensures
            r@ == self.spec_env(),
    {
        &self.env
    }

    pub fn get_arguments(&self) -> (r: &Vec<String>)
        ensures
            r@ == self.spec_args(),
    {
        &self.args
    }
}

} // verus!
