//! The AetherScript standard library registry and the helpers that describe
//! its functions.

pub mod io;
pub mod collections;
pub mod math;
pub mod string;
pub mod console;
pub mod network;
pub mod memory;
pub mod http;
pub mod json;

use vstd::prelude::*;
use crate::ast::{
    annotation_unlocated, annotations_unlocated, export_name, lemma_specifier_views, primitive_of, specifier_view, unlocated, Block, SpecifierView, CallingConvention, ExportStatement, ExternalFunction, Function,
    FunctionMetadata, Identifier, Parameter, PassingMode, PrimitiveType, SourceLocation, TypeSpecifier,
    ConstantDeclaration, Module,
};

verus! {

/// Parameters built from `(name, type)` pairs: same names, same types, in
/// order, passed by value and without intent.
pub open spec fn params_built_from(ps: Seq<Parameter>, spec: Seq<(&str, TypeSpecifier)>) -> bool {
    &&& ps.len() == spec.len()
    &&& forall|i: int| 0 <= i < ps.len() ==> {
        &&& (#[trigger] ps[i]).name.name@ == spec[i].0@
        &&& *ps[i].param_type == spec[i].1
        &&& ps[i].passing_mode == PassingMode::ByValue
        &&& ps[i].intent.is_none()
        &&& unlocated(ps[i].name.source_location)
        &&& unlocated(ps[i].source_location)
    }
}

/// The names of a parameter list.
pub open spec fn param_names(ps: Seq<Parameter>) -> Seq<Seq<char>> {
    ps.map_values(|p: Parameter| p.name.name@)
}

/// The names of external functions, in order.
pub open spec fn ext_names(fs: Seq<ExternalFunction>) -> Seq<Seq<char>> {
    fs.map_values(|f: ExternalFunction| f.name.name@)
}


/// The names of function definitions, in order.
pub open spec fn fn_names(fs: Seq<Function>) -> Seq<Seq<char>> {
    fs.map_values(|f: Function| f.name.name@)
}


/// The names of constant declarations, in order.
pub open spec fn const_names(cs: Seq<ConstantDeclaration>) -> Seq<Seq<char>> {
    cs.map_values(|c: ConstantDeclaration| c.name.name@)
}

/// The names exported by a module, in order.
pub open spec fn export_names(es: Seq<ExportStatement>) -> Seq<Seq<char>> {
    es.map_values(|e: ExportStatement| export_name(e))
}

/// The runtime symbols of external functions, in order.
pub open spec fn ext_symbols(fs: Seq<ExternalFunction>) -> Seq<Option<Seq<char>>> {
    fs.map_values(|f: ExternalFunction| match f.symbol {
        Some(s) => Some(s@),
        None => None,
    })
}

/// The parameter names of external functions, in order.
pub open spec fn ext_param_names(fs: Seq<ExternalFunction>) -> Seq<Seq<Seq<char>>> {
    fs.map_values(|f: ExternalFunction| param_names(f.parameters@))
}

/// The return types of external functions, in order.
pub open spec fn ext_return_types(fs: Seq<ExternalFunction>) -> Seq<SpecifierView> {
    fs.map_values(|f: ExternalFunction| specifier_view(*f.return_type))
}

/// The parameter types of external functions, in order.
pub open spec fn ext_param_types(fs: Seq<ExternalFunction>) -> Seq<Seq<SpecifierView>> {
    fs.map_values(|f: ExternalFunction| param_types(f.parameters@))
}

/// The parameter names of function definitions, in order.
pub open spec fn fn_param_names(fs: Seq<Function>) -> Seq<Seq<Seq<char>>> {
    fs.map_values(|f: Function| param_names(f.parameters@))
}

/// The return types of function definitions, in order.
pub open spec fn fn_return_types(fs: Seq<Function>) -> Seq<SpecifierView> {
    fs.map_values(|f: Function| specifier_view(*f.return_type))
}

/// The parameter types of function definitions, in order.
pub open spec fn fn_param_types(fs: Seq<Function>) -> Seq<Seq<SpecifierView>> {
    fs.map_values(|f: Function| param_types(f.parameters@))
}

/// The types of a parameter list, in order.
pub open spec fn param_types(ps: Seq<Parameter>) -> Seq<SpecifierView> {
    ps.map_values(|p: Parameter| specifier_view(*p.param_type))
}

/// Whether every parameter is passed by value, has no intent, and carries
/// the location of synthesized items, in its name and its type too.
pub open spec fn plain_params(ps: Seq<Parameter>) -> bool {
    forall|i: int| 0 <= i < ps.len() ==> {
        &&& (#[trigger] ps[i]).passing_mode == PassingMode::ByValue
        &&& ps[i].intent.is_none()
        &&& unlocated(ps[i].name.source_location)
        &&& unlocated(ps[i].source_location)
        &&& annotation_unlocated(*ps[i].param_type)
    }
}

/// Whether an export carries the location of synthesized items, in its
/// name too.
pub open spec fn plain_export(e: ExportStatement) -> bool {
    match e {
        ExportStatement::Function { name, source_location } => unlocated(name.source_location) && unlocated(source_location),
        ExportStatement::Type { name, source_location } => unlocated(name.source_location) && unlocated(source_location),
        ExportStatement::Constant { name, source_location } => unlocated(name.source_location) && unlocated(source_location),
    }
}

/// Whether an external function is described as the standard library
/// describes them: linked statically, with the C calling convention,
/// thread safe, not blocking, not variadic, with plain parameters, at the
/// location of synthesized items.
pub open spec fn plain_external(f: ExternalFunction) -> bool {
    &&& f.library@ == "STATIC"@
    &&& f.calling_convention == CallingConvention::C
    &&& f.thread_safe
    &&& !f.may_block
    &&& !f.variadic
    &&& plain_params(f.parameters@)
    &&& annotation_unlocated(*f.return_type)
    &&& unlocated(f.name.source_location)
    &&& unlocated(f.source_location)
}

/// Whether a function definition is a stub: no intent, no generic
/// parameters, no contracts, no algorithm hint, no exceptions, no thread
/// safety or blocking information, an empty body and plain parameters, at
/// the location of synthesized items.
pub open spec fn stub_function(f: Function) -> bool {
    &&& f.intent.is_none()
    &&& f.generic_parameters@.len() == 0
    &&& f.metadata.preconditions@.len() == 0
    &&& f.metadata.postconditions@.len() == 0
    &&& f.metadata.invariants@.len() == 0
    &&& f.metadata.algorithm_hint.is_none()
    &&& f.metadata.throws_exceptions@.len() == 0
    &&& f.metadata.thread_safe.is_none()
    &&& f.metadata.may_block.is_none()
    &&& f.body.statements@.len() == 0
    &&& unlocated(f.body.source_location)
    &&& plain_params(f.parameters@)
    &&& annotation_unlocated(*f.return_type)
    &&& unlocated(f.name.source_location)
    &&& unlocated(f.source_location)
}

/// A primitive type annotation.
pub open spec fn annot_prim(p: PrimitiveType) -> SpecifierView {
    SpecifierView::Primitive(p)
}

/// A pointer type annotation.
pub open spec fn annot_ptr(target: SpecifierView, is_mutable: bool) -> SpecifierView {
    SpecifierView::Pointer(Box::new(target), is_mutable)
}

/// A dynamically sized array type annotation.
pub open spec fn annot_array(element: SpecifierView) -> SpecifierView {
    SpecifierView::Array(Box::new(element), None)
}

/// A map type annotation.
pub open spec fn annot_map(key: SpecifierView, value: SpecifierView) -> SpecifierView {
    SpecifierView::Mapping(Box::new(key), Box::new(value))
}

/// A function type annotation.
pub open spec fn annot_fn(params: Seq<SpecifierView>, ret: SpecifierView) -> SpecifierView {
    SpecifierView::Function(params, Box::new(ret))
}

/// A type parameter annotation without constraints.
pub open spec fn annot_param(name: Seq<char>) -> SpecifierView {
    SpecifierView::TypeParameter(name, Seq::empty())
}

/// The registry of standard library modules, keyed by module name.
pub struct StandardLibrary {
    modules: Vec<(String, Module)>,
}

impl View for StandardLibrary {
    type V = Map<Seq<char>, Module>;

    /// The registered modules, by name.
    closed spec fn view(&self) -> Map<Seq<char>, Module> {
        let names = self.modules@.map_values(|e: (String, Module)| e.0@);
        Map::new(|k: Seq<char>| names.contains(k), |k: Seq<char>| self.modules@[names.index_of(k)].1)
    }
}

/// The names under which the core modules are registered.
pub open spec fn core_module_names() -> Set<Seq<char>> {
    set![
        "std.io"@,
        "std.collections"@,
        "std.math"@,
        "std.string"@,
        "std.console"@,
        "std.network"@,
        "std.memory"@,
        "std.http"@,
        "std.json"@,
    ]
}

/// Whether the registry holds exactly the core modules, each under its own
/// name and each as its `create_*_module` function describes it.
pub open spec fn holds_core_modules(lib: Map<Seq<char>, Module>) -> bool {
    &&& lib.dom() == core_module_names()
    &&& forall|k: Seq<char>| lib.contains_key(k) ==> (#[trigger] lib[k]).name.name@ == k
    &&& io::is_io_module(lib["std.io"@])
    &&& collections::is_collections_module(lib["std.collections"@])
    &&& math::is_math_module(lib["std.math"@])
    &&& string::is_string_module(lib["std.string"@])
    &&& console::is_console_module(lib["std.console"@])
    &&& network::is_network_module(lib["std.network"@])
    &&& memory::is_memory_module(lib["std.memory"@])
    &&& http::is_http_module(lib["std.http"@])
    &&& json::is_json_module(lib["std.json"@])
}

impl StandardLibrary {
    spec fn names(&self) -> Seq<Seq<char>> {
        self.modules@.map_values(|e: (String, Module)| e.0@)
    }

    /// No name is registered twice.
    #[verifier::type_invariant]
    spec fn names_distinct(&self) -> bool {
        self.names().no_duplicates()
    }

    proof fn lemma_view_entry(&self, i: int)
        requires
            self.names().no_duplicates(),
            0 <= i < self.modules@.len(),
        ensures
            self@.contains_key(self.modules@[i].0@),
            self@[self.modules@[i].0@] == self.modules@[i].1,
    {
        let names = self.names();
        assert(names[i] == self.modules@[i].0@);
        assert(names.contains(names[i]));
        let j = names.index_of(names[i]);
        assert(names[j] == names[i]);
    }

    /// Creates the registry holding the core modules.
    pub fn new() -> (lib: Self)
        ensures
            holds_core_modules(lib@),
    {
        let mut stdlib = StandardLibrary { modules: Vec::new() };
        proof {
            assert(stdlib@.dom() =~= Set::<Seq<char>>::empty());
        }
        stdlib.register_core_modules();
        stdlib
    }

    /// Registers the nine core modules.
    fn register_core_modules(&mut self)
        requires
            old(self)@.dom() == Set::<Seq<char>>::empty(),
        ensures
            holds_core_modules(final(self)@),
    {
        let ghost start = self@;
        let io_m = io::create_io_module();
        let ghost io_v = io_m;
        self.register_module("std.io", io_m);
        let collections_m = collections::create_collections_module();
        let ghost collections_v = collections_m;
        self.register_module("std.collections", collections_m);
        let math_m = math::create_math_module();
        let ghost math_v = math_m;
        self.register_module("std.math", math_m);
        let string_m = string::create_string_module();
        let ghost string_v = string_m;
        self.register_module("std.string", string_m);
        let console_m = console::create_console_module();
        let ghost console_v = console_m;
        self.register_module("std.console", console_m);
        let network_m = network::create_network_module();
        let ghost network_v = network_m;
        self.register_module("std.network", network_m);
        let memory_m = memory::create_memory_module();
        let ghost memory_v = memory_m;
        self.register_module("std.memory", memory_m);
        let http_m = http::create_http_module();
        let ghost http_v = http_m;
        self.register_module("std.http", http_m);
        let json_m = json::create_json_module();
        let ghost json_v = json_m;
        self.register_module("std.json", json_m);
        proof {
            reveal_strlit("std.io");
            reveal_strlit("std.collections");
            reveal_strlit("std.math");
            reveal_strlit("std.string");
            reveal_strlit("std.console");
            reveal_strlit("std.network");
            reveal_strlit("std.memory");
            reveal_strlit("std.http");
            reveal_strlit("std.json");
            assert(self@ == start.insert("std.io"@, io_v).insert("std.collections"@, collections_v).insert(
                "std.math"@,
                math_v,
            ).insert("std.string"@, string_v).insert("std.console"@, console_v).insert("std.network"@, network_v).insert(
                "std.memory"@,
                memory_v,
            ).insert("std.http"@, http_v).insert("std.json"@, json_v));
            assert(self@.dom() =~= core_module_names());
            assert("std.io"@ != "std.collections"@) by {
                assert("std.io"@.len() != "std.collections"@.len() || "std.io"@[4] != "std.collections"@[4]);
            }
            assert("std.io"@ != "std.math"@) by {
                assert("std.io"@.len() != "std.math"@.len() || "std.io"@[4] != "std.math"@[4]);
            }
            assert("std.io"@ != "std.string"@) by {
                assert("std.io"@.len() != "std.string"@.len() || "std.io"@[4] != "std.string"@[4]);
            }
            assert("std.io"@ != "std.console"@) by {
                assert("std.io"@.len() != "std.console"@.len() || "std.io"@[4] != "std.console"@[4]);
            }
            assert("std.io"@ != "std.network"@) by {
                assert("std.io"@.len() != "std.network"@.len() || "std.io"@[4] != "std.network"@[4]);
            }
            assert("std.io"@ != "std.memory"@) by {
                assert("std.io"@.len() != "std.memory"@.len() || "std.io"@[4] != "std.memory"@[4]);
            }
            assert("std.io"@ != "std.http"@) by {
                assert("std.io"@.len() != "std.http"@.len() || "std.io"@[4] != "std.http"@[4]);
            }
            assert("std.io"@ != "std.json"@) by {
                assert("std.io"@.len() != "std.json"@.len() || "std.io"@[4] != "std.json"@[4]);
            }
            assert("std.collections"@ != "std.math"@) by {
                assert("std.collections"@.len() != "std.math"@.len() || "std.collections"@[4] != "std.math"@[4]);
            }
            assert("std.collections"@ != "std.string"@) by {
                assert("std.collections"@.len() != "std.string"@.len() || "std.collections"@[4] != "std.string"@[4]);
            }
            assert("std.collections"@ != "std.console"@) by {
                assert("std.collections"@.len() != "std.console"@.len() || "std.collections"@[4] != "std.console"@[4]);
            }
            assert("std.collections"@ != "std.network"@) by {
                assert("std.collections"@.len() != "std.network"@.len() || "std.collections"@[4] != "std.network"@[4]);
            }
            assert("std.collections"@ != "std.memory"@) by {
                assert("std.collections"@.len() != "std.memory"@.len() || "std.collections"@[4] != "std.memory"@[4]);
            }
            assert("std.collections"@ != "std.http"@) by {
                assert("std.collections"@.len() != "std.http"@.len() || "std.collections"@[4] != "std.http"@[4]);
            }
            assert("std.collections"@ != "std.json"@) by {
                assert("std.collections"@.len() != "std.json"@.len() || "std.collections"@[4] != "std.json"@[4]);
            }
            assert("std.math"@ != "std.string"@) by {
                assert("std.math"@.len() != "std.string"@.len() || "std.math"@[4] != "std.string"@[4]);
            }
            assert("std.math"@ != "std.console"@) by {
                assert("std.math"@.len() != "std.console"@.len() || "std.math"@[4] != "std.console"@[4]);
            }
            assert("std.math"@ != "std.network"@) by {
                assert("std.math"@.len() != "std.network"@.len() || "std.math"@[4] != "std.network"@[4]);
            }
            assert("std.math"@ != "std.memory"@) by {
                assert("std.math"@.len() != "std.memory"@.len() || "std.math"@[4] != "std.memory"@[4]);
            }
            assert("std.math"@ != "std.http"@) by {
                assert("std.math"@.len() != "std.http"@.len() || "std.math"@[4] != "std.http"@[4]);
            }
            assert("std.math"@ != "std.json"@) by {
                assert("std.math"@.len() != "std.json"@.len() || "std.math"@[4] != "std.json"@[4]);
            }
            assert("std.string"@ != "std.console"@) by {
                assert("std.string"@.len() != "std.console"@.len() || "std.string"@[4] != "std.console"@[4]);
            }
            assert("std.string"@ != "std.network"@) by {
                assert("std.string"@.len() != "std.network"@.len() || "std.string"@[4] != "std.network"@[4]);
            }
            assert("std.string"@ != "std.memory"@) by {
                assert("std.string"@.len() != "std.memory"@.len() || "std.string"@[4] != "std.memory"@[4]);
            }
            assert("std.string"@ != "std.http"@) by {
                assert("std.string"@.len() != "std.http"@.len() || "std.string"@[4] != "std.http"@[4]);
            }
            assert("std.string"@ != "std.json"@) by {
                assert("std.string"@.len() != "std.json"@.len() || "std.string"@[4] != "std.json"@[4]);
            }
            assert("std.console"@ != "std.network"@) by {
                assert("std.console"@.len() != "std.network"@.len() || "std.console"@[4] != "std.network"@[4]);
            }
            assert("std.console"@ != "std.memory"@) by {
                assert("std.console"@.len() != "std.memory"@.len() || "std.console"@[4] != "std.memory"@[4]);
            }
            assert("std.console"@ != "std.http"@) by {
                assert("std.console"@.len() != "std.http"@.len() || "std.console"@[4] != "std.http"@[4]);
            }
            assert("std.console"@ != "std.json"@) by {
                assert("std.console"@.len() != "std.json"@.len() || "std.console"@[4] != "std.json"@[4]);
            }
            assert("std.network"@ != "std.memory"@) by {
                assert("std.network"@.len() != "std.memory"@.len() || "std.network"@[4] != "std.memory"@[4]);
            }
            assert("std.network"@ != "std.http"@) by {
                assert("std.network"@.len() != "std.http"@.len() || "std.network"@[4] != "std.http"@[4]);
            }
            assert("std.network"@ != "std.json"@) by {
                assert("std.network"@.len() != "std.json"@.len() || "std.network"@[4] != "std.json"@[4]);
            }
            assert("std.memory"@ != "std.http"@) by {
                assert("std.memory"@.len() != "std.http"@.len() || "std.memory"@[4] != "std.http"@[4]);
            }
            assert("std.memory"@ != "std.json"@) by {
                assert("std.memory"@.len() != "std.json"@.len() || "std.memory"@[4] != "std.json"@[4]);
            }
            assert("std.http"@ != "std.json"@) by {
                assert("std.http"@.len() != "std.json"@.len() || "std.http"@[4] != "std.json"@[4]);
            }
            assert(self@["std.io"@] == io_v);
            assert(self@["std.collections"@] == collections_v);
            assert(self@["std.math"@] == math_v);
            assert(self@["std.string"@] == string_v);
            assert(self@["std.console"@] == console_v);
            assert(self@["std.network"@] == network_v);
            assert(self@["std.memory"@] == memory_v);
            assert(self@["std.http"@] == http_v);
            assert(self@["std.json"@] == json_v);
            assert forall|k: Seq<char>| self@.contains_key(k) implies (#[trigger] self@[k]).name.name@ == k by {
                assert(core_module_names().contains(k));
            }
        }
    }

    /// The module registered under `name`, if any.
    pub fn get_module(&self, name: &str) -> (r: Option<&Module>)
        ensures
            r is Some <==> self@.contains_key(name@),
            r matches Some(m) ==> *m == self@[name@],
    {
        proof {
            use_type_invariant(self);
        }
        match self.position(name) {
            Some(i) => {
                proof {
                    self.lemma_view_entry(i as int);
                }
                Some(&self.modules[i].1)
            },
            None => None,
        }
    }

    /// The names of all registered modules, each once.
    pub fn list_modules(&self) -> (r: Vec<&str>)
        ensures
            r@.len() == self@.dom().len(),
            forall|i: int| 0 <= i < r@.len() ==> self@.contains_key(#[trigger] r@[i]@),
            forall|k: Seq<char>| self@.contains_key(k) ==> exists|i: int| 0 <= i < r@.len() && #[trigger] r@[i]@ == k,
            forall|i: int, j: int| 0 <= i < r@.len() && 0 <= j < r@.len() && i != j ==> r@[i]@ != r@[j]@,
    {
        proof {
            use_type_invariant(self);
        }
        let mut r: Vec<&str> = Vec::new();
        let n = self.modules.len();
        let mut i: usize = 0;
        while i < n
            invariant
                n == self.modules@.len(),
                i <= n,
                self.names().no_duplicates(),
                r@.len() == i,
                forall|j: int| 0 <= j < i ==> (#[trigger] r@[j])@ == self.names()[j],
            decreases n - i,
        {
            r.push(self.modules[i].0.as_str());
            i = i + 1;
        }
        proof {
            let names = self.names();
            assert forall|j: int| 0 <= j < r@.len() implies self@.contains_key(#[trigger] r@[j]@) by {
                assert(names[j] == r@[j]@);
            }
            assert forall|k: Seq<char>| self@.contains_key(k) implies exists|j: int| 0 <= j < r@.len() && #[trigger] r@[j]@ == k by {
                let j = names.index_of(k);
                assert(r@[j]@ == k);
            }
            assert(self@.dom() =~= names.to_set());
            names.unique_seq_to_set();
        }
        r
    }

    /// Whether a module is registered under `name`.
    pub fn is_stdlib_module(&self, name: &str) -> (r: bool)
        ensures
            r == self@.contains_key(name@),
    {
        proof {
            use_type_invariant(self);
        }
        match self.position(name) {
            Some(i) => {
                proof {
                    self.lemma_view_entry(i as int);
                }
                true
            },
            None => false,
        }
    }

    /// All registered modules with the names they are registered under.
    pub fn modules(&self) -> (r: &Vec<(String, Module)>)
        ensures
            forall|i: int| 0 <= i < r@.len() ==> self@.contains_key((#[trigger] r@[i]).0@) && self@[r@[i].0@] == r@[i].1,
            forall|k: Seq<char>| self@.contains_key(k) ==> exists|i: int| 0 <= i < r@.len() && #[trigger] r@[i].0@ == k,
            forall|i: int, j: int| 0 <= i < r@.len() && 0 <= j < r@.len() && i != j ==> (#[trigger] r@[i]).0@ != (#[trigger] r@[j]).0@,
            r@.len() == self@.dom().len(),
    {
        proof {
            use_type_invariant(self);
            assert forall|i: int| 0 <= i < self.modules@.len() implies self@.contains_key((#[trigger] self.modules@[i]).0@) && self@[self.modules@[i].0@] == self.modules@[i].1 by {
                self.lemma_view_entry(i);
            }
            assert forall|k: Seq<char>| self@.contains_key(k) implies exists|i: int| 0 <= i < self.modules@.len() && #[trigger] self.modules@[i].0@ == k by {
                let j = self.names().index_of(k);
                assert(self.modules@[j].0@ == k);
            }
            assert forall|i: int, j: int| 0 <= i < self.modules@.len() && 0 <= j < self.modules@.len() && i != j implies (#[trigger] self.modules@[i]).0@ != (#[trigger] self.modules@[j]).0@ by {
                assert(self.names()[i] == self.modules@[i].0@);
                assert(self.names()[j] == self.modules@[j].0@);
            }
            assert(self@.dom() =~= self.names().to_set());
            self.names().unique_seq_to_set();
        }
        &self.modules
    }

    /// The position of the entry registered under `name`, if any.
    fn position(&self, name: &str) -> (r: Option<usize>)
        ensures
            r matches Some(i) ==> i < self.modules@.len() && self.names()[i as int] == name@,
            r is None ==> !self.names().contains(name@),
    {
        let n = self.modules.len();
        let mut i: usize = 0;
        while i < n
            invariant
                n == self.modules@.len(),
                i <= n,
                forall|j: int| 0 <= j < i ==> self.names()[j] != name@,
            decreases n - i,
        {
            if crate::text::str_eq(self.modules[i].0.as_str(), name) {
                return Some(i);
            }
            i = i + 1;
        }
        None
    }

    /// Registers a module under a name, replacing any module of that name.
    fn register_module(&mut self, name: &str, module: Module)
        ensures
            final(self)@ == old(self)@.insert(name@, module),
    {
        proof {
            use_type_invariant(&*self);
        }
        let ghost old_self = *self;
        let key = name.to_owned();
        match self.position(name) {
            Some(i) => {
                let mut entries: Vec<(String, Module)> = Vec::new();
                std::mem::swap(&mut entries, &mut self.modules);
                entries.set(i, (key, module));
                proof {
                    assert(entries@.map_values(|e: (String, Module)| e.0@) =~= old_self.names());
                }
                self.modules = entries;
                proof {
                    assert(self.names() =~= old_self.names());
                    assert forall|k: Seq<char>| #![auto] self@.contains_key(k) <==> old_self@.insert(name@, module).contains_key(k) by {
                        if k != name@ && self.names().contains(k) {
                            let j = self.names().index_of(k);
                            assert(old_self.names()[j] == k);
                        }
                    }
                    assert forall|k: Seq<char>| #![auto] self@.contains_key(k) implies self@[k] == old_self@.insert(name@, module)[k] by {
                        let j = self.names().index_of(k);
                        self.lemma_view_entry(j);
                        if k != name@ {
                            old_self.lemma_view_entry(j);
                        }
                    }
                    assert(self@ =~= old_self@.insert(name@, module));
                }
            }
            None => {
                let mut entries: Vec<(String, Module)> = Vec::new();
                std::mem::swap(&mut entries, &mut self.modules);
                entries.push((key, module));
                proof {
                    assert(entries@.map_values(|e: (String, Module)| e.0@) =~= old_self.names().push(name@));
                }
                self.modules = entries;
                proof {
                    assert(self.names() =~= old_self.names().push(name@));
                    assert forall|k: Seq<char>| #![auto] self@.contains_key(k) <==> old_self@.insert(name@, module).contains_key(k) by {
                        let old_len = old_self.names().len() as int;
                        if k == name@ {
                            assert(self.names()[old_len] == k);
                        }
                        if old_self.names().contains(k) {
                            let j = old_self.names().index_of(k);
                            assert(self.names()[j] == k);
                        }
                        if self.names().contains(k) && k != name@ {
                            let j = self.names().index_of(k);
                            assert(old_self.names()[j] == k);
                        }
                    }
                    assert forall|k: Seq<char>| #![auto] self@.contains_key(k) implies self@[k] == old_self@.insert(name@, module)[k] by {
                        let j = self.names().index_of(k);
                        self.lemma_view_entry(j);
                        if k != name@ {
                            old_self.lemma_view_entry(j);
                        }
                    }
                    assert(self@ =~= old_self@.insert(name@, module));
                }
            }
        }
    }
}

impl Default for StandardLibrary {
    fn default() -> (lib: Self)
        ensures
            holds_core_modules(lib@),
    {
        Self::new()
    }
}

/// Turns `(name, type)` pairs into by-value parameters.
fn build_parameters(parameters: Vec<(&str, TypeSpecifier)>) -> (ps: Vec<Parameter>)
    ensures
        params_built_from(ps@, parameters@),
{
    let ghost spec = parameters@;
    let mut rest = parameters;
    let mut ps: Vec<Parameter> = Vec::new();
    while rest.len() > 0
        invariant
            ps@.len() + rest@.len() == spec.len(),
            rest@ == spec.subrange(ps@.len() as int, spec.len() as int),
            params_built_from(ps@, spec.subrange(0, ps@.len() as int)),
        decreases rest@.len(),
    {
        let (name, ty) = rest.remove(0);
        let p = Parameter {
            name: Identifier::new(name.to_owned(), SourceLocation::unknown()),
            param_type: Box::new(ty),
            intent: None,
            passing_mode: PassingMode::ByValue,
            source_location: SourceLocation::unknown(),
        };
        ps.push(p);
    }
    ps
}

/// Describes an external function whose AetherScript name is also its
/// runtime symbol name.
pub(crate) fn create_external_function(
    runtime_name: &str,
    parameters: Vec<(&str, TypeSpecifier)>,
    return_type: TypeSpecifier,
    calling_convention: CallingConvention,
) -> (f: ExternalFunction)
    ensures
        f.name.name@ == runtime_name@,
        f.library@ == "STATIC"@,
        f.symbol.is_none(),
        params_built_from(f.parameters@, parameters@),
        *f.return_type == return_type,
        f.calling_convention == calling_convention,
        f.thread_safe,
        !f.may_block,
        !f.variadic,
        unlocated(f.name.source_location),
        unlocated(f.source_location),
{
    ExternalFunction {
        name: Identifier::new(runtime_name.to_owned(), SourceLocation::unknown()),
        library: "STATIC".to_owned(),
        symbol: None,
        parameters: build_parameters(parameters),
        return_type: Box::new(return_type),
        calling_convention,
        thread_safe: true,
        may_block: false,
        variadic: false,
        source_location: SourceLocation::unknown(),
    }
}

/// Describes an external function with an AetherScript name and a distinct
/// runtime symbol.
pub(crate) fn create_external_function_named(
    aether_name: &str,
    runtime_name: &str,
    parameters: Vec<(&str, TypeSpecifier)>,
    return_type: TypeSpecifier,
    calling_convention: CallingConvention,
) -> (f: ExternalFunction)
    ensures
        f.name.name@ == aether_name@,
        f.library@ == "STATIC"@,
        f.symbol matches Some(s) && s@ == runtime_name@,
        params_built_from(f.parameters@, parameters@),
        *f.return_type == return_type,
        f.calling_convention == calling_convention,
        f.thread_safe,
        !f.may_block,
        !f.variadic,
        unlocated(f.name.source_location),
        unlocated(f.source_location),
{
    ExternalFunction {
        name: Identifier::new(aether_name.to_owned(), SourceLocation::unknown()),
        library: "STATIC".to_owned(),
        symbol: Some(runtime_name.to_owned()),
        parameters: build_parameters(parameters),
        return_type: Box::new(return_type),
        calling_convention,
        thread_safe: true,
        may_block: false,
        variadic: false,
        source_location: SourceLocation::unknown(),
    }
}

/// Describes a function definition with an empty body and no contracts.
pub(crate) fn create_function_stub(
    name: &str,
    parameters: Vec<(&str, TypeSpecifier)>,
    return_type: TypeSpecifier,
) -> (f: Function)
    ensures
        f.name.name@ == name@,
        f.intent.is_none(),
        f.generic_parameters@.len() == 0,
        params_built_from(f.parameters@, parameters@),
        *f.return_type == return_type,
        f.metadata.preconditions@.len() == 0,
        f.metadata.postconditions@.len() == 0,
        f.metadata.invariants@.len() == 0,
        f.metadata.algorithm_hint.is_none(),
        f.metadata.throws_exceptions@.len() == 0,
        f.metadata.thread_safe.is_none(),
        f.metadata.may_block.is_none(),
        f.body.statements@.len() == 0,
        unlocated(f.body.source_location),
        unlocated(f.name.source_location),
        unlocated(f.source_location),
{
    Function {
        name: Identifier::new(name.to_owned(), SourceLocation::unknown()),
        intent: None,
        generic_parameters: Vec::new(),
        parameters: build_parameters(parameters),
        return_type: Box::new(return_type),
        metadata: FunctionMetadata {
            preconditions: Vec::new(),
            postconditions: Vec::new(),
            invariants: Vec::new(),
            algorithm_hint: None,
            throws_exceptions: Vec::new(),
            thread_safe: None,
            may_block: None,
        },
        body: Block { statements: Vec::new(), source_location: SourceLocation::unknown() },
        source_location: SourceLocation::unknown(),
    }
}

/// A primitive type annotation.
pub fn primitive(p: PrimitiveType) -> (t: TypeSpecifier)
    ensures
        primitive_of(t) == Some(p),
        specifier_view(t) == annot_prim(p),
        annotation_unlocated(t),
{
    TypeSpecifier::Primitive { prim: p, source_location: SourceLocation::unknown() }
}

/// A pointer type annotation.
pub fn pointer(target: TypeSpecifier, is_mutable: bool) -> (t: TypeSpecifier)
    ensures
        t matches TypeSpecifier::Pointer { target_type, is_mutable: m, .. } && *target_type == target
            && m == is_mutable,
        specifier_view(t) == annot_ptr(specifier_view(target), is_mutable),
        annotation_unlocated(t) == annotation_unlocated(target),
{
    TypeSpecifier::Pointer { target_type: Box::new(target), is_mutable, source_location: SourceLocation::unknown() }
}

/// A dynamically sized array type annotation.
pub fn array_of(element: TypeSpecifier) -> (t: TypeSpecifier)
    ensures
        t matches TypeSpecifier::Array { element_type, size, .. } && *element_type == element && size.is_none(),
        specifier_view(t) == annot_array(specifier_view(element)),
        annotation_unlocated(t) == annotation_unlocated(element),
{
    TypeSpecifier::Array { element_type: Box::new(element), size: None, source_location: SourceLocation::unknown() }
}

/// A map type annotation.
pub fn map_of(key: TypeSpecifier, value: TypeSpecifier) -> (t: TypeSpecifier)
    ensures
        t matches TypeSpecifier::Mapping { key_type, value_type, .. } && *key_type == key && *value_type == value,
        specifier_view(t) == annot_map(specifier_view(key), specifier_view(value)),
        annotation_unlocated(t) == (annotation_unlocated(key) && annotation_unlocated(value)),
{
    TypeSpecifier::Mapping {
        key_type: Box::new(key),
        value_type: Box::new(value),
        source_location: SourceLocation::unknown(),
    }
}

/// A function type annotation.
pub fn function_of(params: Vec<Box<TypeSpecifier>>, ret: TypeSpecifier) -> (t: TypeSpecifier)
    ensures
        t matches TypeSpecifier::Function { parameter_types, return_type, .. } && parameter_types == params
            && *return_type == ret,
        specifier_view(t) == annot_fn(params@.map_values(|b: Box<TypeSpecifier>| specifier_view(*b)), specifier_view(ret)),
        annotation_unlocated(t) == (annotations_unlocated(params@) && annotation_unlocated(ret)),
{
    proof {
        lemma_specifier_views(params@);
    }
    TypeSpecifier::Function { parameter_types: params, return_type: Box::new(ret), source_location: SourceLocation::unknown() }
}

/// A type parameter annotation without constraints.
pub fn type_param(name: &str) -> (t: TypeSpecifier)
    ensures
        t matches TypeSpecifier::TypeParameter { name: n, constraints, .. } && n.name@ == name@
            && constraints@.len() == 0,
        specifier_view(t) == annot_param(name@),
        annotation_unlocated(t),
{
    let constraints: Vec<Identifier> = Vec::new();
    assert(constraints@.map_values(|c: Identifier| c.name@) =~= Seq::<Seq<char>>::empty());
    TypeSpecifier::TypeParameter {
        name: Identifier::new(name.to_owned(), SourceLocation::unknown()),
        constraints,
        source_location: SourceLocation::unknown(),
    }
}

/// An export of a function.
pub fn export_function(name: &str) -> (e: ExportStatement)
    ensures
        e is Function,
        export_name(e) == name@,
        plain_export(e),
{
    ExportStatement::Function {
        name: Identifier::new(name.to_owned(), SourceLocation::unknown()),
        source_location: SourceLocation::unknown(),
    }
}

/// An export of a constant.
pub fn export_constant(name: &str) -> (e: ExportStatement)
    ensures
        e is Constant,
        export_name(e) == name@,
        plain_export(e),
{
    ExportStatement::Constant {
        name: Identifier::new(name.to_owned(), SourceLocation::unknown()),
        source_location: SourceLocation::unknown(),
    }
}

/// Read after write for the registry: a registered module is found under its
/// name, and the other modules stay as they were.
pub proof fn law_get_after_register(before: StandardLibrary, after: StandardLibrary, name: Seq<char>, module: Module, other: Seq<char>)
    requires
        after@ == before@.insert(name, module),
    ensures
        after@.contains_key(name),
        after@[name] == module,
        other != name ==> (after@.contains_key(other) == before@.contains_key(other)),
        other != name && before@.contains_key(other) ==> after@[other] == before@[other],
{
}

} // verus!
