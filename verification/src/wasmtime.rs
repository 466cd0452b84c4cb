//! Modules of the Wasmtime engine and the configuration they are loaded from.
use crate::constants::SERIALIZED_MODULE_POSTFIX;
use crate::strmap::StrMap;
use crate::structs::request_entry::Timestamp;
use crate::text::string_views;
use vstd::prelude::*;

verus! {

/// A module loaded into the Wasmtime runtime: the compiled module and its
/// instance once they exist.
#[derive(Debug, Clone)]
pub struct WasmtimeModule {
    pub module: Option<::wasmtime::Module>,
    pub instance: Option<::wasmtime::Instance>,
    pub id: String,
    pub name: String,
    pub path: String,
    pub functions: Option<Vec<String>>,
}

/// The views of `(name, is_function)` entries.
pub open spec fn item_views(items: Seq<(String, bool)>) -> Seq<(Seq<char>, bool)> {
    items.map_values(|e: (String, bool)| (e.0@, e.1))
}

/// The names of the entries that are functions, in order.
pub open spec fn spec_function_names(items: Seq<(Seq<char>, bool)>) -> Seq<Seq<char>>
    decreases items.len(),
{
    if items.len() == 0 {
        Seq::empty()
    } else {
        let rest = spec_function_names(items.drop_last());
        if items.last().1 {
            rest.push(items.last().0)
        } else {
            rest
        }
    }
}

/// Law: the function names of a list of `(name, is_function)` entries are
/// the names of exactly those entries flagged as functions, in their order;
/// entries of other kinds (memories, globals, tables) are left out.
pub proof fn law_function_names_are_the_flagged_entries(items: Seq<(Seq<char>, bool)>)
    ensures
        spec_function_names(items) == items.filter(|e: (Seq<char>, bool)| e.1).map_values(
            |e: (Seq<char>, bool)| e.0,
        ),
    decreases items.len(),
{
    let pred = |e: (Seq<char>, bool)| e.1;
    let name = |e: (Seq<char>, bool)| e.0;
    if items.len() == 0 {
        reveal(Seq::filter);
        assert(items.filter(pred) =~= Seq::<(Seq<char>, bool)>::empty());
        assert(items.filter(pred).map_values(name) =~= Seq::<Seq<char>>::empty());
    } else {
        let init = items.drop_last();
        law_function_names_are_the_flagged_entries(init);
        assert(init.push(items.last()) =~= items);
        init.lemma_filter_push(items.last(), pred);
        if items.last().1 {
            assert(init.filter(pred).push(items.last()).map_values(name) =~= init.filter(pred).map_values(
                name,
            ).push(items.last().0));
        }
    }
}

/// Of `(name, is_function)` entries, the names of the functions.
pub fn function_names(items: &Vec<(String, bool)>) -> (r: Vec<String>)
    ensures
        string_views(r@) == spec_function_names(item_views(items@)),
        string_views(r@) == item_views(items@).filter(|e: (Seq<char>, bool)| e.1).map_values(
            |e: (Seq<char>, bool)| e.0,
        ),
{
    proof {
        law_function_names_are_the_flagged_entries(item_views(items@));
    }
    let mut funcs: Vec<String> = Vec::new();
    let mut i: usize = 0;
    while i < items.len()
        invariant
            i <= items@.len(),
            string_views(funcs@) == spec_function_names(item_views(items@.take(i as int))),
        decreases items@.len() - i,
    {
        proof {
            assert(items@.take(i + 1).drop_last() =~= items@.take(i as int));
            assert(item_views(items@.take(i + 1)).drop_last() =~= item_views(items@.take(i as int)));
        }
        if items[i].1 {
            funcs.push(items[i].0.clone());
            proof {
                assert(string_views(funcs@) =~= spec_function_names(item_views(items@.take(i as int))).push(
                    items@[i as int].0@,
                ));
            }
        }
        i = i + 1;
    }
    proof {
        assert(items@.take(items@.len() as int) =~= items@);
    }
    funcs
}

/// The imports that a compiled module declares: the name of each and
/// whether it is a function, in order.
pub uninterp spec fn declared_imports(module: ::wasmtime::Module) -> Seq<(Seq<char>, bool)>;

/// The exports that a compiled module declares: the name of each and
/// whether it is a function, in order.
pub uninterp spec fn declared_exports(module: ::wasmtime::Module) -> Seq<(Seq<char>, bool)>;

/// Lists the imports of `module` with `wasmtime::Module::imports`: the name
/// of each import and whether it is a function.
#[verifier::external_body]
fn module_imports(module: &::wasmtime::Module) -> (r: Vec<(String, bool)>)
    ensures
        item_views(r@) == declared_imports(*module),
{
    module.imports().map(|i| (i.name().to_string(), i.ty().func().is_some())).collect()
}

/// Lists the exports of `module` with `wasmtime::Module::exports`: the name
/// of each export and whether it is a function.
#[verifier::external_body]
fn module_exports(module: &::wasmtime::Module) -> (r: Vec<(String, bool)>)
    ensures
        item_views(r@) == declared_exports(*module),
{
    module.exports().map(|e| (e.name().to_string(), e.ty().func().is_some())).collect()
}

impl WasmtimeModule {
    /// A module for `config`, not compiled or instantiated yet.
    pub fn new(config: ModuleConfig) -> (r: Result<Self, String>)
        ensures
            r matches Ok(m) && m.module is None && m.instance is None && m.id == config.id
                && m.name == config.name && m.path == config.path && m.functions is None,
    {
        Ok(WasmtimeModule {
            module: None,
            instance: None,
            id: config.id,
            name: config.name,
            path: config.path,
            functions: None,
        })
    }

    /// The names of the functions that the module imports; none before it is compiled.
    pub fn get_all_imports(&self) -> (r: Vec<String>)
        ensures
            match self.module {
                Some(m) => string_views(r@) == spec_function_names(declared_imports(m)),
                None => r@.len() == 0,
            },
    {
        match &self.module {
            Some(module_reference) => {
                let imports = module_imports(module_reference);
                function_names(&imports)
            },
            None => Vec::new(),
        }
    }

    /// The names of the functions that the module exports; none before it is compiled.
    pub fn get_all_exports(&self) -> (r: Vec<String>)
        ensures
            match self.module {
                Some(m) => string_views(r@) == spec_function_names(declared_exports(m)),
                None => r@.len() == 0,
            },
    {
        match &self.module {
            Some(module_reference) => {
                let exports = module_exports(module_reference);
                function_names(&exports)
            },
            None => Vec::new(),
        }
    }
}

/// A module's name, file location and the files mounted for it: what a
/// module instance for running functions is created from.
#[derive(Debug, Clone)]
pub struct ModuleConfig {
    pub id: String,
    pub name: String,
    pub path: String,
    /// Paths of the module's data files by name.
    pub data_files: StrMap<String>,
    pub ml_model: Option<MLModel>,
    pub data_ptr_function_name: String,
}

impl ModuleConfig {
    /// A configuration whose data pointer function is `get_image_ptr`.
    pub fn new(
        id: String,
        name: String,
        path: String,
        data_files: StrMap<String>,
        ml_model: Option<MLModel>,
    ) -> (r: Self)
        ensures
            r.id == id,
            r.name == name,
            r.path == path,
            r.data_files == data_files,
            r.ml_model == ml_model,
            r.data_ptr_function_name@ == "get_image_ptr"@,
    {
        ModuleConfig {
            id,
            name,
            path,
            data_files,
            ml_model,
            data_ptr_function_name: "get_image_ptr".to_string(),
        }
    }

    /// Sets the model to the file `key`, or to `model.pb` without a key.
    pub fn set_model_from_data_files(&mut self, key: Option<String>)
        ensures
            final(self).ml_model matches Some(m) && m.path@ == match key {
                Some(k) => k@,
                None => "model.pb"@,
            } && m.alloc_function_name@ == "alloc"@ && m.infer_function_name@ == "infer_from_ptrs"@,
            final(self).id == old(self).id,
            final(self).name == old(self).name,
            final(self).path == old(self).path,
            final(self).data_files == old(self).data_files,
            final(self).data_ptr_function_name == old(self).data_ptr_function_name,
    {
        let model_name = match key {
            Some(key_str) => key_str,
            None => "model.pb".to_string(),
        };
        self.ml_model = Some(MLModel::new(model_name));
    }
}

/// A machine learning model and the functions that run it.
#[derive(Debug, Clone)]
pub struct MLModel {
    pub path: String,
    pub alloc_function_name: String,
    pub infer_function_name: String,
}

impl MLModel {
    /// The model at `path`, allocated with `alloc` and run with `infer_from_ptrs`.
    pub fn new(path: String) -> (r: Self)
        ensures
            r.path == path,
            r.alloc_function_name@ == "alloc"@,
            r.infer_function_name@ == "infer_from_ptrs"@,
    {
        MLModel {
            path,
            alloc_function_name: "alloc".to_string(),
            infer_function_name: "infer_from_ptrs".to_string(),
        }
    }
}

/// The path with its extension set to `ext`, as `Path::with_extension` of
/// std makes it.
pub uninterp spec fn path_with_extension(path: Seq<char>, ext: Seq<char>) -> Seq<char>;

/// Whether `s` holds no path separator, neither `/` nor `\\`.
pub open spec fn has_no_separator(s: Seq<char>) -> bool {
    forall|i: int| 0 <= i < s.len() ==> #[trigger] s[i] != '/' && s[i] != '\\'
}

/// Sets the extension of `path` with `Path::with_extension` of std, which
/// panics on an extension that holds a path separator.
#[verifier::external_body]
fn with_extension(path: &str, ext: &str) -> (r: String)
    requires
        has_no_separator(ext@),
    ensures
        r@ == path_with_extension(path@, ext@),
{
    std::path::Path::new(path).with_extension(ext).to_string_lossy().into_owned()
}

/// Where the serialized form of the module at `path` is kept: the path with
/// the extension `SERIALIZED.wasm`.
pub fn serialized_module_path(path: &str) -> (r: String)
    ensures
        r@ == path_with_extension(path@, SERIALIZED_MODULE_POSTFIX@),
{
    proof {
        reveal_strlit("SERIALIZED.wasm");
    }
    with_extension(path, SERIALIZED_MODULE_POSTFIX)
}

/// Whether time `a` is later than time `b`.
pub open spec fn later(a: Timestamp, b: Timestamp) -> bool {
    a.secs > b.secs || (a.secs == b.secs && a.nanos > b.nanos)
}

/// Whether a module has to be compiled (again): when there is no serialized
/// form, or the module changed after it was serialized.
pub fn should_compile(source_modified: Timestamp, serialized_modified: Option<Timestamp>) -> (r: bool)
    ensures
        r == match serialized_modified {
            None => true,
            Some(s) => later(source_modified, s),
        },
{
    match serialized_modified {
        None => true,
        Some(s) => source_modified.secs > s.secs || (source_modified.secs == s.secs
            && source_modified.nanos > s.nanos),
    }
}

/// How a module is loaded into a runtime.
#[derive(Debug, Clone)]
pub enum ModuleLoadPlan {
    /// A module of that name is loaded already.
    AlreadyLoaded,
    /// Load the module from its serialized form, compiling and serializing
    /// it first when `compile` holds.
    Load { serialized_path: String, compile: bool },
}

/// Whether loading `config` into a runtime whose loaded modules are
/// `modules` is skipped: a module of that name is loaded already.
pub open spec fn load_is_skipped(modules: Map<Seq<char>, WasmtimeModule>, config: ModuleConfig) -> bool {
    modules.contains_key(config.name@)
}

/// Decides how the module of `config` is loaded into a runtime whose loaded
/// modules are `modules`.
pub fn plan_module_load(
    modules: &StrMap<WasmtimeModule>,
    config: &ModuleConfig,
    source_modified: Timestamp,
    serialized_modified: Option<Timestamp>,
) -> (r: ModuleLoadPlan)
    ensures
        load_is_skipped(modules@, *config) ==> r is AlreadyLoaded,
        !load_is_skipped(modules@, *config) ==> (r matches ModuleLoadPlan::Load {
            serialized_path,
            compile,
        } && serialized_path@ == path_with_extension(config.path@, SERIALIZED_MODULE_POSTFIX@)
            && compile == match serialized_modified {
            None => true,
            Some(s) => later(source_modified, s),
        }),
{
    if modules.contains_key(config.name.as_str()) {
        return ModuleLoadPlan::AlreadyLoaded;
    }
    ModuleLoadPlan::Load {
        serialized_path: serialized_module_path(config.path.as_str()),
        compile: should_compile(source_modified, serialized_modified),
    }
}

/// Records a module that was loaded and instantiated under its name.
pub fn add_loaded_module(
    modules: &mut StrMap<WasmtimeModule>,
    config: ModuleConfig,
    module: ::wasmtime::Module,
    instance: ::wasmtime::Instance,
)
    ensures
        final(modules)@.dom() == old(modules)@.dom().insert(config.name@),
        forall|k: Seq<char>| k != config.name@ && old(modules)@.contains_key(k) ==> #[trigger] final(modules)@[k]
            == old(modules)@[k],
        final(modules)@[config.name@].module == Some(module),
        final(modules)@[config.name@].instance == Some(instance),
        final(modules)@[config.name@].id == config.id,
        final(modules)@[config.name@].name == config.name,
        final(modules)@[config.name@].path == config.path,
        final(modules)@[config.name@].functions is None,
{
    let key = config.name.clone();
    let m = WasmtimeModule {
        module: Some(module),
        instance: Some(instance),
        id: config.id,
        name: config.name,
        path: config.path,
        functions: None,
    };
    modules.insert(key, m);
    assert(modules@.dom() =~= old(modules)@.dom().insert(config.name@));
}

/// Law: loading the same module twice keeps the first.  Once a module has
/// been recorded under its name (as [`add_loaded_module`] leaves the loaded
/// modules), loading a configuration of that name again is skipped, whatever
/// the times of its files, and the loaded modules stay as they are.
pub proof fn law_second_load_is_skipped(
    before: Map<Seq<char>, WasmtimeModule>,
    after: Map<Seq<char>, WasmtimeModule>,
    config: ModuleConfig,
    again: ModuleConfig,
)
    requires
        after.dom() == before.dom().insert(config.name@),
        again.name@ == config.name@,
    ensures
        load_is_skipped(after, again),
{
    assert(after.dom().contains(config.name@));
}

/// The functions that the module `module_name` of a runtime exports; none
/// when no such module is loaded.
pub fn functions(modules: &StrMap<WasmtimeModule>, module_name: &str) -> (r: Vec<String>)
    ensures
        !modules@.contains_key(module_name@) ==> r@.len() == 0,
        modules@.contains_key(module_name@) ==> match modules@[module_name@].module {
            Some(m) => string_views(r@) == spec_function_names(declared_exports(m)),
            None => r@.len() == 0,
        },
{
    match modules.get(module_name) {
        Some(module) => module.get_all_exports(),
        None => Vec::new(),
    }
}

} // verus!
