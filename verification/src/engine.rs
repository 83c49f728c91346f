//! The front door: the settings of a run, and the registry of extensions
//! that programs may call into.

use vstd::prelude::*;
use vstd::hash_map::StringHashMap;

verus! {

/// The settings of a run.
pub struct Config {
    /// The working directory.
    pub work_dir: Option<String>,
    /// Where imports that are not local are looked for.
    pub base_path: Option<String>,
    /// Whether the parser prints what it does.
    pub trace_parser: bool,
    /// Whether the type checker prints what it does.
    pub trace_checker: bool,
    /// Whether errors are printed when a program could not be compiled.
    pub trace_vm: bool,
}

/// The constructors of the extensions, by name. `C` is whatever makes an
/// extension; the registry only keeps it.
#[verifier::reject_recursive_types(C)]
pub struct FfiFactory<C> {
    registry: StringHashMap<C>,
}

impl<C> View for FfiFactory<C> {
    type V = Map<Seq<char>, C>;

    closed spec fn view(&self) -> Map<Seq<char>, C> {
        self.registry@
    }
}

impl<C> FfiFactory<C> {
    pub fn new() -> (f: FfiFactory<C>)
        ensures
            f@ == Map::<Seq<char>, C>::empty(),
    {
        FfiFactory { registry: StringHashMap::new() }
    }

    /// Registers `ctor` under `name`, in place of what was there.
    pub fn register(&mut self, name: &'static str, ctor: C)
        ensures
            final(self)@ == old(self)@.insert(name@, ctor),
    {
        self.registry.insert(name.to_owned(), ctor);
    }

    pub fn get(&self, name: &str) -> (found: Option<&C>)
        ensures
            match found {
                Some(c) => self@.contains_key(name@) && *c == self@[name@],
                None => !self@.contains_key(name@),
            },
    {
        self.registry.get(name)
    }
}

/// What is to be done once a program went through the compiler.
#[derive(Clone, Copy, Debug, PartialEq, Eq, Structural)]
pub enum AfterCompile {
    /// Run the program; the run then ends with 0.
    Execute,
    /// Give up with the count of errors, after printing them if asked to.
    Fail { print_errors: bool, exit_code: usize },
}

/// The settings and the extensions of a run.
#[verifier::reject_recursive_types(C)]
pub struct Engine<C> {
    config: Config,
    ffi: FfiFactory<C>,
}

impl<C> Engine<C> {
    pub closed spec fn spec_config(&self) -> Config {
        self.config
    }

    /// The extensions registered, by name.
    pub closed spec fn extensions(&self) -> Map<Seq<char>, C> {
        self.ffi@
    }

    pub fn new(config: Config) -> (engine: Engine<C>)
        ensures
            engine.spec_config() == config,
            engine.extensions() == Map::<Seq<char>, C>::empty(),
    {
        Engine { config: config, ffi: FfiFactory::new() }
    }

    pub fn config(&self) -> (config: &Config)
        ensures
            *config == self.spec_config(),
    {
        &self.config
    }

    /// Registers the extension `name`, in place of one of that name.
    pub fn register_extension(&mut self, name: &'static str, ctor: C)
        ensures
            final(self).spec_config() == old(self).spec_config(),
            final(self).extensions() == old(self).extensions().insert(name@, ctor),
    {
        self.ffi.register(name, ctor);
    }

    /// The constructor of the extension `name`, if one is registered.
    pub fn extension(&self, name: &str) -> (found: Option<&C>)
        ensures
            match found {
                Some(c) => self.extensions().contains_key(name@) && *c == self.extensions()[name@],
                None => !self.extensions().contains_key(name@),
            },
    {
        self.ffi.get(name)
    }

    /// Decides what follows the compiler: a program that compiled is run; one
    /// that did not ends the run with its count of errors, which are printed
    /// only where the settings ask for it.
    pub fn after_compile(&self, compiled: Result<(), usize>) -> (next: AfterCompile)
        ensures
            next == match compiled {
                Ok(()) => AfterCompile::Execute,
                Err(n) => AfterCompile::Fail {
                    print_errors: self.spec_config().trace_vm,
                    exit_code: n,
                },
            },
    {
        match compiled {
            Ok(()) => AfterCompile::Execute,
            Err(n) => AfterCompile::Fail { print_errors: self.config.trace_vm, exit_code: n },
        }
    }
}

} // verus!
