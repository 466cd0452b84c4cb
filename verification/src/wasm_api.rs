//! Runtime-independent model of WebAssembly modules and runtimes.
//!
//! `WasmModuleBase` and `WasmRuntimeBase` are the base implementations: they
//! keep track of modules and their configuration, and answer every request
//! that needs a real engine with "nothing", so that a concrete runtime can be
//! put in their place.
use crate::strmap::StrMap;
use crate::text::str_eq;
use vstd::string::*;
use vstd::prelude::*;

verus! {

/// The error for a runtime that has not been set.
#[derive(Debug, Clone, Copy)]
pub struct WasmRuntimeNotSetError;

impl WasmRuntimeNotSetError {
    /// The message describing the error.
    pub fn message(&self) -> (r: String)
        ensures
            r@ == "Wasm runtime has not been set properly."@,
    {
        "Wasm runtime has not been set properly.".to_string()
    }
}

/// The error for mixing modules of different runtimes.
#[derive(Debug, Clone, Copy)]
pub struct IncompatibleWasmModule;

impl IncompatibleWasmModule {
    /// The message describing the error.
    pub fn message(&self) -> (r: String)
        ensures
            r@ == "Attempted to mix incompatible Wasm modules."@,
    {
        "Attempted to mix incompatible Wasm modules.".to_string()
    }
}

/// A value passed to or returned from a WebAssembly function.
#[derive(Debug, Clone, Copy, PartialEq, Eq, Structural)]
pub enum WasmValue {
    I32(i32),
    I64(i64),
}

/// A machine learning model that a module runs inference with.
#[derive(Debug, Clone)]
pub struct MLModel {
    pub path: String,
    /// Function that allocates memory for the model; `"alloc"` by default.
    pub alloc_function_name: String,
    /// Function that runs the inference; `"infer_from_ptrs"` by default.
    pub infer_function_name: String,
}

impl MLModel {
    /// A model stored at `path`, with the default function names.
    pub fn new(path: &str) -> (r: Self)
        ensures
            r.path@ == path@,
            r.alloc_function_name@ == "alloc"@,
            r.infer_function_name@ == "infer_from_ptrs"@,
    {
        MLModel {
            path: path.to_string(),
            alloc_function_name: "alloc".to_string(),
            infer_function_name: "infer_from_ptrs".to_string(),
        }
    }
}

impl Default for MLModel {
    /// A model without a path, with the default function names.
    fn default() -> (r: Self)
        ensures
            r.path@ == Seq::<char>::empty(),
            r.alloc_function_name@ == "alloc"@,
            r.infer_function_name@ == "infer_from_ptrs"@,
    {
        MLModel {
            path: String::new(),
            alloc_function_name: "alloc".to_string(),
            infer_function_name: "infer_from_ptrs".to_string(),
        }
    }
}

/// What a module is loaded from: its identity, binary, data files and model.
#[derive(Debug, Clone)]
pub struct ModuleConfig {
    pub id: String,
    pub name: String,
    pub path: String,
    /// Paths of the module's data files by name.
    pub data_files: StrMap<String>,
    pub ml_model: Option<MLModel>,
    /// Function returning a pointer to the data buffer; `"get_img_ptr"` by default.
    pub data_ptr_function_name: String,
}

impl ModuleConfig {
    /// A configuration without a model and with the default data pointer function.
    pub fn new(id: &str, name: &str, path: &str, data_files: StrMap<String>) -> (r: Self)
        ensures
            r.id@ == id@,
            r.name@ == name@,
            r.path@ == path@,
            r.data_files == data_files,
            r.ml_model is None,
            r.data_ptr_function_name@ == "get_img_ptr"@,
    {
        ModuleConfig {
            id: id.to_string(),
            name: name.to_string(),
            path: path.to_string(),
            data_files,
            ml_model: None,
            data_ptr_function_name: "get_img_ptr".to_string(),
        }
    }

    /// Uses the data file named `key` as the module's model, with the default
    /// function names; without such a data file nothing changes.
    pub fn set_model_from_data_files(&mut self, key: &str)
        ensures
            old(self).data_files@.contains_key(key@) ==> {
                &&& final(self).ml_model matches Some(m)
                &&& m.path@ == old(self).data_files@[key@]@
                &&& m.alloc_function_name@ == "alloc"@
                &&& m.infer_function_name@ == "infer_from_ptrs"@
                &&& final(self).id == old(self).id
                &&& final(self).name == old(self).name
                &&& final(self).path == old(self).path
                &&& final(self).data_files == old(self).data_files
                &&& final(self).data_ptr_function_name == old(self).data_ptr_function_name
            },
            !old(self).data_files@.contains_key(key@) ==> *final(self) == *old(self),
    {
        let found = match self.data_files.get(key) {
            Some(pb_path) => Some(pb_path.clone()),
            None => None,
        };
        if let Some(path) = found {
            let defaults = MLModel::default();
            let model = MLModel {
                path,
                alloc_function_name: defaults.alloc_function_name,
                infer_function_name: defaults.infer_function_name,
            };
            self.ml_model = Some(model);
        }
    }
}

/// A WebAssembly module as seen by a runtime.
pub trait IWasmModule {
    fn id(&self) -> &str;

    fn name(&self) -> &str;

    fn path(&self) -> &str;

    /// The runtime the module belongs to.
    type Runtime;

    fn runtime(&self) -> Option<&Self::Runtime>;

    fn set_runtime(&mut self, runtime: Box<Self::Runtime>);

    /// The names of the functions that the module exports.
    fn functions(&mut self) -> &Vec<String>;

    fn run_function(&mut self, function_name: &str, params: &[WasmValue]) -> Option<WasmValue>;

    /// Runs `function_name` on `data` placed at the pointer that
    /// `data_ptr_function_name` returns, and gives back the data afterwards.
    fn run_data_function(
        &mut self,
        function_name: &str,
        data_ptr_function_name: &str,
        data: &[u8],
        params: &[WasmValue],
    ) -> Vec<u8>;

    /// Copies `data` into memory allocated with `alloc_function`; the
    /// pointer and length of the copy.
    fn upload_data(&mut self, data: &[u8], alloc_function: &str) -> (Option<usize>, Option<usize>);

    /// Uploads the contents of the file `data_file`: `contents` is what
    /// reading it gave, the bytes or the error message.
    fn upload_data_file(
        &mut self,
        data_file: &str,
        contents: Result<Vec<u8>, String>,
        alloc_function_name: &str,
    ) -> (Option<usize>, Option<usize>);

    /// Uploads the model file; `contents` is what reading it gave.
    fn upload_ml_model(&mut self, ml_model: &MLModel, contents: Result<Vec<u8>, String>) -> (
        Option<usize>,
        Option<usize>,
    );

    fn run_ml_inference(&mut self, ml_model: &MLModel, data: &[u8]) -> Option<WasmValue>;
}

/// The base module: it knows its configuration and runtime, and that it has
/// no engine to run anything with.
pub struct WasmModuleBase {
    pub config: ModuleConfig,
    pub runtime: Option<Box<WasmRuntimeBase>>,
    pub cached_functions: Option<Vec<String>>,
}

impl WasmModuleBase {
    /// The list of exported functions, once it has been computed.
    pub open spec fn cached_functions(self) -> Option<Seq<String>> {
        match self.cached_functions {
            Some(v) => Some(v@),
            None => None,
        }
    }

    /// The module that [`WasmModuleBase::new`] makes.
    pub open spec fn spec_new(config: ModuleConfig, runtime: Option<Box<WasmRuntimeBase>>) -> Self {
        WasmModuleBase { config, runtime, cached_functions: None }
    }

    /// A fresh module keeps the configuration and runtime it was made with.
    pub proof fn lemma_spec_new(config: ModuleConfig, runtime: Option<Box<WasmRuntimeBase>>)
        ensures
            Self::spec_new(config, runtime).config == config,
            Self::spec_new(config, runtime).runtime == runtime,
            Self::spec_new(config, runtime).cached_functions() is None,
    {
    }

    /// A module made from `config` and `runtime` whose functions are not listed yet.
    pub fn new(config: ModuleConfig, runtime: Option<Box<WasmRuntimeBase>>) -> (r: Self)
        ensures
            r == Self::spec_new(config, runtime),
            r.config == config,
            r.runtime == runtime,
            r.cached_functions() is None,
    {
        WasmModuleBase { config, runtime, cached_functions: None }
    }
}

impl IWasmModule for WasmModuleBase {
    type Runtime = WasmRuntimeBase;

    fn id(&self) -> (r: &str)
        ensures
            r@ == self.config.id@,
    {
        self.config.id.as_str()
    }

    fn name(&self) -> (r: &str)
        ensures
            r@ == self.config.name@,
    {
        self.config.name.as_str()
    }

    fn path(&self) -> (r: &str)
        ensures
            r@ == self.config.path@,
    {
        self.config.path.as_str()
    }

    fn runtime(&self) -> (r: Option<&WasmRuntimeBase>)
        ensures
            match r {
                Some(rt) => self.runtime matches Some(b) && *rt == *b,
                None => self.runtime is None,
            },
    {
        match &self.runtime {
            Some(rt) => Some(&**rt),
            None => None,
        }
    }

    fn set_runtime(&mut self, runtime: Box<WasmRuntimeBase>)
        ensures
            final(self).runtime == Some(runtime),
            final(self).config == old(self).config,
            final(self).cached_functions() == old(self).cached_functions(),
    {
        self.runtime = Some(runtime);
    }

    /// The base module cannot read exports: the first call lists none, and
    /// the list is kept.
    fn functions(&mut self) -> (r: &Vec<String>)
        ensures
            old(self).cached_functions() is None ==> r@.len() == 0,
            old(self).cached_functions() matches Some(c) ==> r@ == c,
            final(self).cached_functions() == Some(r@),
            final(self).config == old(self).config,
            final(self).runtime == old(self).runtime,
    {
        if self.cached_functions.is_none() {
            self.cached_functions = Some(Vec::new());
        }
        self.cached_functions.as_ref().unwrap()
    }

    /// The base module runs nothing.
    fn run_function(&mut self, function_name: &str, params: &[WasmValue]) -> (r: Option<WasmValue>)
        ensures
            r is None,
            *final(self) == *old(self),
    {
        None
    }

    fn run_data_function(
        &mut self,
        function_name: &str,
        data_ptr_function_name: &str,
        data: &[u8],
        params: &[WasmValue],
    ) -> (r: Vec<u8>)
        ensures
            r@.len() == 0,
            *final(self) == *old(self),
    {
        Vec::new()
    }

    fn upload_data(&mut self, data: &[u8], alloc_function: &str) -> (r: (Option<usize>, Option<usize>))
        ensures
            r == (None::<usize>, None::<usize>),
            *final(self) == *old(self),
    {
        (None, None)
    }

    fn upload_data_file(
        &mut self,
        data_file: &str,
        contents: Result<Vec<u8>, String>,
        alloc_function_name: &str,
    ) -> (r: (Option<usize>, Option<usize>))
        ensures
            r == (None::<usize>, None::<usize>),
            *final(self) == *old(self),
    {
        match contents {
            Ok(data) => self.upload_data(data.as_slice(), alloc_function_name),
            Err(_) => (None, None),
        }
    }

    fn upload_ml_model(&mut self, ml_model: &MLModel, contents: Result<Vec<u8>, String>) -> (r: (
        Option<usize>,
        Option<usize>,
    ))
        ensures
            r == (None::<usize>, None::<usize>),
            *final(self) == *old(self),
    {
        self.upload_data_file(ml_model.path.as_str(), contents, ml_model.alloc_function_name.as_str())
    }

    fn run_ml_inference(&mut self, ml_model: &MLModel, data: &[u8]) -> (r: Option<WasmValue>)
        ensures
            r is None,
            *final(self) == *old(self),
    {
        None
    }
}

/// The view of an optional borrowed name.
pub open spec fn opt_name(name: Option<&str>) -> Option<Seq<char>> {
    match name {
        Some(n) => Some(n@),
        None => None,
    }
}

/// A WebAssembly runtime holding modules by name.
///
/// An implementation describes its answers by spec functions of its state:
/// the module that host functions act on, what a read of memory gives, what
/// a write of memory reports, and what running a function returns.  Its
/// methods give what those functions say.
pub trait IWasmRuntime {
    /// The name of the module that host functions act on.
    spec fn spec_current_module(&self) -> Option<Seq<char>>;

    /// The bytes, and the error if any, that reading `length` bytes at
    /// `address` of the named module's memory gives.
    spec fn spec_read(&self, address: usize, length: usize, module_name: Option<Seq<char>>) -> (
        Seq<u8>,
        Option<Seq<char>>,
    );

    /// The error, if any, that writing `data` at `address` of the named
    /// module's memory reports.
    spec fn spec_write(&self, address: usize, data: Seq<u8>, module_name: Option<Seq<char>>) -> Option<
        Seq<char>,
    >;

    /// What running `function_name` with `params` gives.
    spec fn spec_run(&self, function_name: Seq<char>, params: Seq<WasmValue>, module_name: Option<
        Seq<char>,
    >) -> Option<WasmValue>;

    fn modules(&self) -> &StrMap<WasmModuleBase>;

    /// The module that host functions act on, if one is set.
    fn current_module_name(&self) -> (r: Option<&str>)
        ensures
            opt_name(r) == self.spec_current_module(),
    ;

    fn set_current_module_name(&mut self, name: Option<String>);

    /// Loads the module that `config` describes under its name.
    fn load_module(&mut self, config: ModuleConfig) -> Option<&WasmModuleBase>;

    /// The module named in `config` if it is loaded, else the module loaded from `config`.
    fn get_or_load_module(&mut self, config: Option<ModuleConfig>) -> Option<&WasmModuleBase>;

    /// Reads `length` bytes at `address` of a module's memory; the bytes and an error, if any.
    fn read_from_memory(&self, address: usize, length: usize, module_name: Option<&str>) -> (r: (
        Vec<u8>,
        Option<String>,
    ))
        ensures
            r.0@ == self.spec_read(address, length, opt_name(module_name)).0,
            opt_string(r.1) == self.spec_read(address, length, opt_name(module_name)).1,
    ;

    /// Writes `data` at `address` of a module's memory; an error, if any.
    fn write_to_memory(&self, address: usize, data: &[u8], module_name: Option<&str>) -> (r: Option<
        String,
    >)
        ensures
            opt_string(r) == self.spec_write(address, data@, opt_name(module_name)),
    ;

    /// Runs a function of the named module, or of the first module that exports it.
    fn run_function(
        &mut self,
        function_name: &str,
        params: &[WasmValue],
        module_name: Option<&str>,
    ) -> (r: Option<WasmValue>)
        ensures
            r == old(self).spec_run(function_name@, params@, opt_name(module_name)),
    ;
}

/// The view of an optional owned string.
pub open spec fn opt_string(s: Option<String>) -> Option<Seq<char>> {
    match s {
        Some(t) => Some(t@),
        None => None,
    }
}

/// The base runtime: it keeps modules by name but has no engine, so memory
/// access fails and no function runs.
pub struct WasmRuntimeBase {
    pub modules_map: StrMap<WasmModuleBase>,
    pub current_module: Option<String>,
    /// Module name by function name.
    pub functions_cache: Option<StrMap<String>>,
}

impl WasmRuntimeBase {
    /// A runtime without modules.
    pub fn new() -> (r: Self)
        ensures
            r.modules_map@ == Map::<Seq<char>, WasmModuleBase>::empty(),
            r.modules_map.seq().len() == 0,
            r.current_module is None,
            r.functions_cache is None,
    {
        WasmRuntimeBase { modules_map: StrMap::new(), current_module: None, functions_cache: None }
    }
}

/// The functions a module lists: its cached list, or none before it is computed.
pub open spec fn listed_functions(m: WasmModuleBase) -> Seq<String> {
    match m.cached_functions() {
        Some(c) => c,
        None => Seq::empty(),
    }
}

/// Whether `m` lists a function named `name`.
pub open spec fn lists_function(m: WasmModuleBase, name: Seq<char>) -> bool {
    exists|k: int| 0 <= k < listed_functions(m).len() && #[trigger] listed_functions(m)[k]@ == name
}

/// Whether a search for `name` through `entries` in order reaches position
/// `j`: no module before it lists the function.
pub open spec fn search_reaches(entries: Seq<(String, WasmModuleBase)>, name: Seq<char>, j: int) -> bool {
    forall|k: int| 0 <= k < j ==> !lists_function(#[trigger] entries[k].1, name)
}

/// The message that memory access on the base runtime fails with.
pub open spec fn not_implemented_message() -> Seq<char> {
    "not implemented"@
}

impl IWasmRuntime for WasmRuntimeBase {
    open spec fn spec_current_module(&self) -> Option<Seq<char>> {
        match self.current_module {
            Some(c) => Some(c@),
            None => None,
        }
    }

    /// Reading gives no bytes and the error `not implemented`.
    open spec fn spec_read(&self, address: usize, length: usize, module_name: Option<Seq<char>>) -> (
        Seq<u8>,
        Option<Seq<char>>,
    ) {
        (Seq::empty(), Some(not_implemented_message()))
    }

    /// Writing fails with `not implemented`.
    open spec fn spec_write(&self, address: usize, data: Seq<u8>, module_name: Option<Seq<char>>) -> Option<
        Seq<char>,
    > {
        Some(not_implemented_message())
    }

    /// No function runs.
    open spec fn spec_run(&self, function_name: Seq<char>, params: Seq<WasmValue>, module_name: Option<
        Seq<char>,
    >) -> Option<WasmValue> {
        None
    }

    fn modules(&self) -> (r: &StrMap<WasmModuleBase>)
        ensures
            *r == self.modules_map,
    {
        &self.modules_map
    }

    fn current_module_name(&self) -> (r: Option<&str>)
        ensures
            match r {
                Some(n) => self.current_module matches Some(c) && n@ == c@,
                None => self.current_module is None,
            },
    {
        match &self.current_module {
            Some(name) => Some(name.as_str()),
            None => None,
        }
    }

    fn set_current_module_name(&mut self, name: Option<String>)
        ensures
            final(self).current_module == name,
            final(self).modules_map == old(self).modules_map,
            final(self).functions_cache == old(self).functions_cache,
    {
        self.current_module = name;
    }

    /// Puts a fresh module made from `config` under `config.name`, replacing
    /// one of that name, and returns it.
    fn load_module(&mut self, config: ModuleConfig) -> (r: Option<&WasmModuleBase>)
        ensures
            final(self).modules_map@ == old(self).modules_map@.insert(
                config.name@,
                WasmModuleBase::spec_new(config, None),
            ),
            r matches Some(m) && *m == WasmModuleBase::spec_new(config, None),
            final(self).current_module == old(self).current_module,
            final(self).functions_cache == old(self).functions_cache,
    {
        let module_name = config.name.clone();
        let module = WasmModuleBase::new(config, None);
        self.modules_map.insert(module_name.clone(), module);
        self.modules_map.get(module_name.as_str())
    }

    /// Without a configuration nothing is loaded; a module that is loaded
    /// already is returned as it is.
    fn get_or_load_module(&mut self, config: Option<ModuleConfig>) -> (r: Option<
        &WasmModuleBase,
    >)
        ensures
            config is None ==> r is None && final(self).modules_map@ == old(self).modules_map@,
            config is Some && old(self).modules_map@.contains_key(config->0.name@) ==> {
                &&& r matches Some(m) && *m == old(self).modules_map@[config->0.name@]
                &&& final(self).modules_map@ == old(self).modules_map@
            },
            config is Some && !old(self).modules_map@.contains_key(config->0.name@) ==> {
                &&& r matches Some(m) && *m == WasmModuleBase::spec_new(config->0, None)
                &&& final(self).modules_map@ == old(self).modules_map@.insert(
                    config->0.name@,
                    WasmModuleBase::spec_new(config->0, None),
                )
            },
            final(self).current_module == old(self).current_module,
            final(self).functions_cache == old(self).functions_cache,
    {
        match config {
            None => None,
            Some(cfg) => {
                if self.modules_map.contains_key(cfg.name.as_str()) {
                    self.modules_map.get(cfg.name.as_str())
                } else {
                    self.load_module(cfg)
                }
            },
        }
    }

    fn read_from_memory(&self, address: usize, length: usize, module_name: Option<&str>) -> (r: (
        Vec<u8>,
        Option<String>,
    ))
        ensures
            r.0@.len() == 0,
            r.1 matches Some(e) && e@ == not_implemented_message(),
    {
        (Vec::new(), Some("not implemented".to_string()))
    }

    fn write_to_memory(&self, address: usize, data: &[u8], module_name: Option<&str>) -> (r: Option<
        String,
    >)
        ensures
            r matches Some(e) && e@ == not_implemented_message(),
    {
        Some("not implemented".to_string())
    }

    /// No module of the base runtime runs anything, so the answer is always
    /// `None`.  Without a module name the modules are searched in order: each
    /// one reached has its functions listed, and the search stops at the
    /// first that lists `function_name`.
    fn run_function(
        &mut self,
        function_name: &str,
        params: &[WasmValue],
        module_name: Option<&str>,
    ) -> (r: Option<WasmValue>)
        ensures
            r is None,
            final(self).modules_map.seq().len() == old(self).modules_map.seq().len(),
            forall|i: int|
                0 <= i < old(self).modules_map.seq().len() ==> {
                    &&& (#[trigger] final(self).modules_map.seq()[i]).0 == old(
                        self,
                    ).modules_map.seq()[i].0
                    &&& final(self).modules_map.seq()[i].1.config == old(self).modules_map.seq()[i].1.config
                    &&& final(self).modules_map.seq()[i].1.runtime == old(
                        self,
                    ).modules_map.seq()[i].1.runtime
                    &&& module_name is None && search_reaches(old(self).modules_map.seq(), function_name@, i)
                        ==> final(self).modules_map.seq()[i].1.cached_functions() == Some(
                        listed_functions(old(self).modules_map.seq()[i].1),
                    )
                    &&& !(module_name is None && search_reaches(
                        old(self).modules_map.seq(),
                        function_name@,
                        i,
                    )) ==> final(self).modules_map.seq()[i] == old(self).modules_map.seq()[i]
                },
            final(self).modules_map@.dom() == old(self).modules_map@.dom(),
            module_name is Some ==> final(self).modules_map.seq() == old(self).modules_map.seq()
                && final(self).modules_map@ == old(self).modules_map@,
            final(self).current_module == old(self).current_module,
            final(self).functions_cache == old(self).functions_cache,
    {
        if let Some(mod_name) = module_name {
            match self.modules_map.index_of(mod_name) {
                Some(i) => {
                    let (key, mut module) = self.modules_map.remove_at(i);
                    let r = module.run_function(function_name, params);
                    self.modules_map.insert_at(i, key, module);
                    proof {
                        assert(self.modules_map.seq() =~= old(self).modules_map.seq());
                        assert(self.modules_map@ =~= old(self).modules_map@);
                    }
                    return r;
                },
                None => {
                    return None;
                },
            }
        }
        let n = self.modules_map.len();
        let mut i: usize = 0;
        while i < n
            invariant
                i <= n,
                n == old(self).modules_map.seq().len(),
                module_name is None,
                self.modules_map.seq().len() == n,
                self.modules_map@.dom() == old(self).modules_map@.dom(),
                self.current_module == old(self).current_module,
                self.functions_cache == old(self).functions_cache,
                forall|j: int|
                    0 <= j < n ==> {
                        &&& (#[trigger] self.modules_map.seq()[j]).0 == old(self).modules_map.seq()[j].0
                        &&& self.modules_map.seq()[j].1.config == old(self).modules_map.seq()[j].1.config
                        &&& self.modules_map.seq()[j].1.runtime == old(
                            self,
                        ).modules_map.seq()[j].1.runtime
                        &&& j < i ==> self.modules_map.seq()[j].1.cached_functions() == Some(
                            listed_functions(old(self).modules_map.seq()[j].1),
                        )
                        &&& j >= i ==> self.modules_map.seq()[j] == old(self).modules_map.seq()[j]
                    },
                search_reaches(old(self).modules_map.seq(), function_name@, i as int),
            decreases n - i,
        {
            let ghost before = self.modules_map.seq();
            let ghost before_map = self.modules_map@;
            let (key, mut module) = self.modules_map.remove_at(i);
            let ghost om = module;
            let funcs = module.functions();
            let mut found = false;
            let mut f: usize = 0;
            while f < funcs.len()
                invariant
                    f <= funcs@.len(),
                    found == exists|k: int| 0 <= k < f && #[trigger] funcs@[k]@ == function_name@,
                decreases funcs@.len() - f,
            {
                if funcs[f].as_str().unicode_len() == function_name.unicode_len() && str_eq(
                    funcs[f].as_str(),
                    function_name,
                ) {
                    found = true;
                }
                f = f + 1;
            }
            proof {
                assert(om == old(self).modules_map.seq()[i as int].1);
                assert(funcs@ =~= listed_functions(om));
                assert(found == lists_function(om, function_name@));
            }
            if found {
                let r = module.run_function(function_name, params);
                proof {
                    assert(!self.modules_map@.contains_key(key@));
                }
                self.modules_map.insert_at(i, key, module);
                proof {
                    assert(self.modules_map@.dom() =~= before_map.dom());
                    assert forall|j: int| 0 <= j < n implies (#[trigger] self.modules_map.seq()[j]).0
                        == old(self).modules_map.seq()[j].0 by {
                        if j != i {
                            assert(self.modules_map.seq()[j] == before[j]);
                        }
                    }
                    assert forall|j: int| i < j < n implies !search_reaches(
                        old(self).modules_map.seq(),
                        function_name@,
                        j,
                    ) by {
                        assert(lists_function(old(self).modules_map.seq()[i as int].1, function_name@));
                    }
                    assert forall|j: int| 0 <= j <= i implies search_reaches(
                        old(self).modules_map.seq(),
                        function_name@,
                        j,
                    ) by {}
                }
                return r;
            }
            proof {
                assert(!self.modules_map@.contains_key(key@));
            }
            self.modules_map.insert_at(i, key, module);
            proof {
                assert forall|j: int| 0 <= j < n implies (#[trigger] self.modules_map.seq()[j]).0
                    == old(self).modules_map.seq()[j].0 by {
                    if j == i {
                    } else {
                        assert(self.modules_map.seq()[j] == before[j]);
                    }
                }
                assert(self.modules_map@.dom() =~= before_map.dom());
                assert(search_reaches(old(self).modules_map.seq(), function_name@, i + 1));
            }
            i = i + 1;
        }
        None
    }
}

/// Law: a module loaded into a runtime is found under its name, with the
/// configuration it was loaded from and without a runtime of its own.
pub proof fn law_loaded_module_found_by_name(
    modules: Map<Seq<char>, WasmModuleBase>,
    config: ModuleConfig,
)
    ensures
        modules.insert(config.name@, WasmModuleBase::spec_new(config, None)).contains_key(config.name@),
        modules.insert(config.name@, WasmModuleBase::spec_new(config, None))[config.name@].config == config,
        modules.insert(config.name@, WasmModuleBase::spec_new(config, None))[config.name@].runtime is None,
{
}

} // verus!
