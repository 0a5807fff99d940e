//! The plugin registry: a name-indexed directory of capability objects, some
//! compiled in and some backed by a loaded library.
use vstd::prelude::*;
use crate::text::{contains_str, ends_with, matches_at, occurs_in, same_str, starts_with};
use crate::plugin::{CommandDef, CommandResult, Plugin, PluginContext, PluginError, PluginInfo};

verus! {

/// Why a registry operation failed.
#[derive(Debug)]
pub enum RegistryError {
    /// A library could not be opened.
    PluginLoadFailed(String),
    /// A library lacks the creation symbol.
    PluginMissingEntryPoint(String),
    /// A library's creation function returned a null handle.
    PluginCreateFailed(String),
    /// A plugin of this name is already registered.
    DuplicateName(String),
    /// No plugin of this name is registered.
    PluginNotFound(String),
    /// The load hook of the named plugin failed.
    LoadHookFailed { name: String, error: PluginError },
    /// The plugin failed while executing a command.
    CommandFailed(PluginError),
}

/// One registered capability object. Fields drop in order, so the object is
/// dropped before the library that backs it.
pub struct Registered<P, L> {
    pub name: String,
    pub plugin: P,
    pub library: Option<L>,
}

/// Name-indexed directory of capability objects of type `P`; a dynamically
/// loaded one keeps its library, of type `L`, beside it.
pub struct PluginManager<P, L> {
    entries: Vec<Registered<P, L>>,
    plugin_paths: Vec<String>,
}

/// The names after an attempt to register `name`, and whether it was taken
/// in: a name already present is rejected and the earlier holder stays.
pub open spec fn after_register(names: Seq<Seq<char>>, name: Seq<char>) -> (Seq<Seq<char>>, bool) {
    if holds(names, name) {
        (names, false)
    } else {
        (names.push(name), true)
    }
}

/// The names after a sequence of registration attempts, in order.
pub open spec fn after_registers(names: Seq<Seq<char>>, attempts: Seq<Seq<char>>) -> Seq<Seq<char>>
    decreases attempts.len(),
{
    if attempts.len() == 0 {
        names
    } else {
        after_register(after_registers(names, attempts.drop_last()), attempts.last()).0
    }
}

/// Whether `s` holds `x`.
pub open spec fn holds(s: Seq<Seq<char>>, x: Seq<char>) -> bool {
    exists|i: int| 0 <= i < s.len() && s[i] == x
}

impl<P: Plugin, L> PluginManager<P, L> {
    /// Names of the registered plugins, in order of registration.
    pub closed spec fn names(&self) -> Seq<Seq<char>> {
        self.entries@.map_values(|e: Registered<P, L>| e.name@)
    }

    /// Which registered plugins are backed by a library.
    pub closed spec fn dynamic_flags(&self) -> Seq<bool> {
        self.entries@.map_values(|e: Registered<P, L>| e.library is Some)
    }

    /// The registered plugin objects, in order of registration.
    pub closed spec fn plugin_objects(&self) -> Seq<P> {
        self.entries@.map_values(|e: Registered<P, L>| e.plugin)
    }

    /// The search directories, in order.
    pub closed spec fn paths(&self) -> Seq<Seq<char>> {
        self.plugin_paths@.map_values(|p: String| p@)
    }

    /// No two registered plugins share a name, and each name goes with one
    /// plugin object and one flag.
    pub open spec fn wf(&self) -> bool {
        &&& self.names().no_duplicates()
        &&& self.plugin_objects().len() == self.names().len()
        &&& self.dynamic_flags().len() == self.names().len()
    }

    /// An empty registry with no search directories.
    pub fn new() -> (r: Self)
        ensures
            r.wf(),
            r.names() == Seq::<Seq<char>>::empty(),
            r.plugin_objects() == Seq::<P>::empty(),
            r.dynamic_flags() == Seq::<bool>::empty(),
            r.paths() == Seq::<Seq<char>>::empty(),
    {
        let r = PluginManager { entries: Vec::new(), plugin_paths: Vec::new() };
        assert(r.names() =~= Seq::<Seq<char>>::empty());
        assert(r.plugin_objects() =~= Seq::<P>::empty());
        assert(r.dynamic_flags() =~= Seq::<bool>::empty());
        assert(r.paths() =~= Seq::<Seq<char>>::empty());
        r
    }

    /// Adds a directory to search for plugin libraries.
    pub fn add_plugin_path(&mut self, path: String)
        ensures
            final(self).paths() == old(self).paths().push(path@),
            final(self).names() == old(self).names(),
            final(self).dynamic_flags() == old(self).dynamic_flags(),
            final(self).plugin_objects() == old(self).plugin_objects(),
    {
        self.plugin_paths.push(path);
        assert(self.paths() =~= old(self).paths().push(path@));
        assert(self.names() =~= old(self).names());
        assert(self.dynamic_flags() =~= old(self).dynamic_flags());
        assert(self.plugin_objects() =~= old(self).plugin_objects());
    }

    /// The search directories, in order.
    pub fn plugin_paths(&self) -> (r: Vec<String>)
        ensures
            r@.map_values(|p: String| p@) == self.paths(),
    {
        let mut r: Vec<String> = Vec::new();
        let mut i: usize = 0;
        while i < self.plugin_paths.len()
            invariant
                i <= self.plugin_paths@.len(),
                r@.len() == i,
                r@.map_values(|p: String| p@) == self.paths().take(i as int),
            decreases self.plugin_paths@.len() - i,
        {
            r.push(self.plugin_paths[i].clone());
            assert(r@[i as int]@ == self.paths()[i as int]);
            assert(r@.map_values(|p: String| p@) =~= self.paths().take(i + 1));
            i = i + 1;
        }
        assert(self.paths().take(i as int) =~= self.paths());
        r
    }

    /// Position of the plugin named `name`.
    fn find(&self, name: &str) -> (r: Option<usize>)
        ensures
            match r {
                Some(i) => i < self.names().len() && self.names()[i as int] == name@,
                None => !holds(self.names(), name@),
            },
    {
        let mut i: usize = 0;
        while i < self.entries.len()
            invariant
                i <= self.entries@.len(),
                forall|j: int| 0 <= j < i ==> self.names()[j] != name@,
            decreases self.entries@.len() - i,
        {
            if same_str(self.entries[i].name.as_str(), name) {
                return Some(i);
            }
            i = i + 1;
        }
        None
    }

    /// Whether a plugin named `name` is registered.
    pub fn has_plugin(&self, name: &str) -> (r: bool)
        ensures
            r == holds(self.names(), name@),
    {
        self.find(name).is_some()
    }

    /// The plugin named `name`, if one is registered.
    pub fn get(&self, name: &str) -> (r: Option<&P>)
        ensures
            match r {
                Some(p) => exists|i: int|
                    0 <= i < self.names().len() && self.names()[i] == name@
                        && self.plugin_objects()[i] == *p,
                None => !holds(self.names(), name@),
            },
            self.wf() ==> forall|i: int|
                0 <= i < self.names().len() && self.names()[i] == name@ ==> (r matches Some(p)
                    && *p == self.plugin_objects()[i]),
    {
        match self.find(name) {
            Some(k) => {
                assert(self.plugin_objects()[k as int] == self.entries@[k as int].plugin);
                assert(self.wf() ==> forall|i: int|
                    0 <= i < self.names().len() && self.names()[i] == name@ ==> i == k);
                Some(&self.entries[k].plugin)
            },
            None => None,
        }
    }

    /// Names of the registered plugins, in order of registration.
    pub fn plugin_names(&self) -> (r: Vec<String>)
        ensures
            r@.map_values(|p: String| p@) == self.names(),
    {
        let mut r: Vec<String> = Vec::new();
        let mut i: usize = 0;
        while i < self.entries.len()
            invariant
                i <= self.entries@.len(),
                r@.len() == i,
                r@.map_values(|p: String| p@) == self.names().take(i as int),
            decreases self.entries@.len() - i,
        {
            r.push(self.entries[i].name.clone());
            assert(r@[i as int]@ == self.names()[i as int]);
            assert(r@.map_values(|p: String| p@) =~= self.names().take(i + 1));
            i = i + 1;
        }
        assert(self.names().take(i as int) =~= self.names());
        r
    }

    /// Metadata of each registered plugin, in order of registration, under
    /// the name it was registered with.
    pub fn plugin_infos(&self) -> (r: Vec<PluginInfo>)
        ensures
            r@.len() == self.names().len(),
            forall|i: int| 0 <= i < r@.len() ==> r@[i].name@ == self.names()[i],
    {
        let mut r: Vec<PluginInfo> = Vec::new();
        let mut i: usize = 0;
        while i < self.entries.len()
            invariant
                i <= self.entries@.len(),
                r@.len() == i,
                forall|j: int| 0 <= j < i ==> r@[j].name@ == self.names()[j],
            decreases self.entries@.len() - i,
        {
            let e = &self.entries[i];
            let info = PluginInfo {
                name: e.name.clone(),
                version: e.plugin.version().to_owned(),
                description: e.plugin.description().to_owned(),
                commands: e.plugin.commands(),
            };
            r.push(info);
            i = i + 1;
        }
        r
    }

    /// Appends an entry whose name is new.
    fn push_entry(&mut self, name: String, plugin: P, library: Option<L>)
        requires
            old(self).wf(),
            !holds(old(self).names(), name@),
        ensures
            final(self).wf(),
            final(self).names() == old(self).names().push(name@),
            final(self).plugin_objects() == old(self).plugin_objects().push(plugin),
            final(self).dynamic_flags() == old(self).dynamic_flags().push(library is Some),
            final(self).paths() == old(self).paths(),
    {
        let ghost n = name@;
        let ghost is_dyn = library is Some;
        self.entries.push(Registered { name, plugin, library });
        assert(self.names() =~= old(self).names().push(n));
        assert(self.plugin_objects() =~= old(self).plugin_objects().push(plugin));
        assert(self.dynamic_flags() =~= old(self).dynamic_flags().push(is_dyn));
        assert(self.paths() =~= old(self).paths());
        assert forall|a: int, b: int|
            0 <= a < b < self.names().len() implies self.names()[a] != self.names()[b] by {
            if b == old(self).names().len() {
                assert(old(self).names()[a] == self.names()[a]);
            }
        }
    }

    /// Registers `plugin` under `name`, backed by `library` where it came from
    /// one. Fails with `DuplicateName` exactly when `name` is taken, and then
    /// leaves the registry as it was.
    pub fn register_named(&mut self, name: String, plugin: P, library: Option<L>) -> (r: Result<
        (),
        RegistryError,
    >)
        requires
            old(self).wf(),
        ensures
            final(self).wf(),
            final(self).paths() == old(self).paths(),
            holds(old(self).names(), name@) <==> (r matches Err(RegistryError::DuplicateName(n))
                && n@ == name@),
            (final(self).names(), r is Ok) == after_register(old(self).names(), name@),
            r is Ok || r matches Err(RegistryError::DuplicateName(_)),
            match r {
                Ok(()) => {
                    &&& final(self).names() == old(self).names().push(name@)
                    &&& final(self).plugin_objects() == old(self).plugin_objects().push(plugin)
                    &&& final(self).dynamic_flags() == old(self).dynamic_flags().push(
                        library is Some,
                    )
                },
                Err(_) => {
                    &&& final(self).names() == old(self).names()
                    &&& final(self).plugin_objects() == old(self).plugin_objects()
                    &&& final(self).dynamic_flags() == old(self).dynamic_flags()
                },
            },
    {
        if self.find(name.as_str()).is_some() {
            return Err(RegistryError::DuplicateName(name));
        }
        self.push_entry(name, plugin, library);
        Ok(())
    }

    /// Finishes an in-process registration under the free name `name`, given
    /// what the plugin's load hook returned: a failing hook gives
    /// `LoadHookFailed` with the hook's own error and leaves the registry as it
    /// was; a passing one registers the plugin.
    pub fn register_after_hook(&mut self, name: String, plugin: P, hook: Result<(), PluginError>) -> (r:
        Result<(), RegistryError>)
        requires
            old(self).wf(),
            !holds(old(self).names(), name@),
        ensures
            final(self).wf(),
            final(self).paths() == old(self).paths(),
            match hook {
                Ok(()) => {
                    &&& r is Ok
                    &&& final(self).names() == old(self).names().push(name@)
                    &&& final(self).plugin_objects() == old(self).plugin_objects().push(plugin)
                    &&& final(self).dynamic_flags() == old(self).dynamic_flags().push(false)
                },
                Err(e) => {
                    &&& r == Err::<(), RegistryError>(
                        RegistryError::LoadHookFailed { name, error: e },
                    )
                    &&& final(self).names() == old(self).names()
                    &&& final(self).plugin_objects() == old(self).plugin_objects()
                    &&& final(self).dynamic_flags() == old(self).dynamic_flags()
                },
            },
    {
        match hook {
            Ok(()) => self.register_named(name, plugin, None),
            Err(error) => Err(RegistryError::LoadHookFailed { name, error }),
        }
    }

    /// Registers a plugin that is compiled into the host under the name it
    /// reports. A taken name fails with `DuplicateName` before the load hook
    /// runs; otherwise the hook runs and `register_after_hook` decides with its
    /// result: registered, or `LoadHookFailed` under that name. On failure the
    /// registry stays as it was.
    pub fn register_static(&mut self, plugin: P) -> (r: Result<(), RegistryError>)
        requires
            old(self).wf(),
        ensures
            final(self).wf(),
            final(self).paths() == old(self).paths(),
            holds(old(self).names(), plugin.spec_name()) ==> (r matches Err(
                RegistryError::DuplicateName(n),
            ) && n@ == plugin.spec_name()),
            !holds(old(self).names(), plugin.spec_name()) ==> (r is Ok || (r matches Err(
                RegistryError::LoadHookFailed { name: n, .. },
            ) && n@ == plugin.spec_name())),
            match r {
                Ok(()) => {
                    &&& final(self).names() == old(self).names().push(plugin.spec_name())
                    &&& final(self).plugin_objects() == old(self).plugin_objects().push(plugin)
                    &&& final(self).dynamic_flags() == old(self).dynamic_flags().push(false)
                },
                Err(_) => {
                    &&& final(self).names() == old(self).names()
                    &&& final(self).plugin_objects() == old(self).plugin_objects()
                    &&& final(self).dynamic_flags() == old(self).dynamic_flags()
                },
            },
    {
        let name = plugin.name().to_owned();
        if self.has_plugin(name.as_str()) {
            return Err(RegistryError::DuplicateName(name));
        }
        let hook = plugin.on_load();
        self.register_after_hook(name, plugin, hook)
    }

    /// Registers a plugin created from a loaded library under the name it
    /// reports, keeping the library alive beside it, through
    /// `register_named`. The load hook is not run. It fails with
    /// `DuplicateName` exactly when that name is taken, and the registry then
    /// stays as it was.
    pub fn register_dynamic(&mut self, plugin: P, library: L) -> (r: Result<(), RegistryError>)
        requires
            old(self).wf(),
        ensures
            final(self).wf(),
            final(self).paths() == old(self).paths(),
            holds(old(self).names(), plugin.spec_name()) <==> (r matches Err(
                RegistryError::DuplicateName(n),
            ) && n@ == plugin.spec_name()),
            r is Ok || r matches Err(RegistryError::DuplicateName(_)),
            (final(self).names(), r is Ok) == after_register(old(self).names(), plugin.spec_name()),
            match r {
                Ok(()) => {
                    &&& final(self).names() == old(self).names().push(plugin.spec_name())
                    &&& final(self).plugin_objects() == old(self).plugin_objects().push(plugin)
                    &&& final(self).dynamic_flags() == old(self).dynamic_flags().push(true)
                },
                Err(_) => {
                    &&& final(self).names() == old(self).names()
                    &&& final(self).plugin_objects() == old(self).plugin_objects()
                    &&& final(self).dynamic_flags() == old(self).dynamic_flags()
                },
            },
    {
        let name = plugin.name().to_owned();
        self.register_named(name, plugin, Some(library))
    }

    /// Whether the plugin named `plugin_name` is registered and lists
    /// `command` among the commands it reports.
    pub fn has_command(&self, plugin_name: &str, command: &str) -> (r: bool)
        ensures
            r ==> holds(self.names(), plugin_name@),
    {
        match self.find(plugin_name) {
            Some(i) => {
                let cmds = self.entries[i].plugin.commands();
                lists_command(&cmds, command)
            },
            None => false,
        }
    }

    /// Runs `command` on the plugin named `name`; fails with `PluginNotFound`
    /// exactly when no such plugin is registered, and otherwise hands on what
    /// the plugin returned through `command_outcome`.
    pub fn execute(&self, name: &str, command: &str, args: &[String], ctx: &mut PluginContext) -> (r:
        Result<CommandResult, RegistryError>)
        ensures
            !holds(self.names(), name@) ==> (r matches Err(RegistryError::PluginNotFound(n)) && n@
                == name@ && *final(ctx) == *old(ctx)),
            holds(self.names(), name@) ==> (r matches Ok(_) || r matches Err(
                RegistryError::CommandFailed(_),
            )),
    {
        match self.find(name) {
            None => Err(RegistryError::PluginNotFound(name.to_owned())),
            Some(i) => command_outcome(self.entries[i].plugin.execute(command, args, ctx)),
        }
    }

    /// The registered plugin objects, in order of registration.
    pub fn plugins(&self) -> (r: Vec<&P>)
        ensures
            r@.len() == self.plugin_objects().len(),
            forall|i: int| 0 <= i < r@.len() ==> *r@[i] == self.plugin_objects()[i],
    {
        let mut r: Vec<&P> = Vec::new();
        let mut i: usize = 0;
        while i < self.entries.len()
            invariant
                i <= self.entries@.len(),
                r@.len() == i,
                forall|j: int| 0 <= j < i ==> *r@[j] == self.plugin_objects()[j],
            decreases self.entries@.len() - i,
        {
            r.push(&self.entries[i].plugin);
            i = i + 1;
        }
        r
    }

    /// Drops every plugin, each before its library. Unload hooks are not run.
    pub fn unload_all(&mut self)
        ensures
            final(self).wf(),
            final(self).names() == Seq::<Seq<char>>::empty(),
            final(self).plugin_objects() == Seq::<P>::empty(),
            final(self).dynamic_flags() == Seq::<bool>::empty(),
            final(self).paths() == old(self).paths(),
    {
        self.entries = Vec::new();
        assert(self.names() =~= Seq::<Seq<char>>::empty());
        assert(self.plugin_objects() =~= Seq::<P>::empty());
        assert(self.dynamic_flags() =~= Seq::<bool>::empty());
    }
}

/// What the registry answers for a plugin's own result of a command: its
/// success as it is, its error wrapped in `CommandFailed`.
pub fn command_outcome(outcome: Result<CommandResult, PluginError>) -> (r: Result<
    CommandResult,
    RegistryError,
>)
    ensures
        match outcome {
            Ok(c) => r == Ok::<CommandResult, RegistryError>(c),
            Err(e) => r == Err::<CommandResult, RegistryError>(RegistryError::CommandFailed(e)),
        },
{
    match outcome {
        Ok(c) => Ok(c),
        Err(e) => Err(RegistryError::CommandFailed(e)),
    }
}

/// Whether one of `cmds` is named `command`.
pub fn lists_command(cmds: &Vec<CommandDef>, command: &str) -> (r: bool)
    ensures
        r == exists|i: int| 0 <= i < cmds@.len() && #[trigger] cmds@[i].name@ == command@,
{
    let mut i: usize = 0;
    while i < cmds.len()
        invariant
            i <= cmds@.len(),
            forall|j: int| 0 <= j < i ==> #[trigger] cmds@[j].name@ != command@,
        decreases cmds@.len() - i,
    {
        if same_str(cmds[i].name.as_str(), command) {
            return true;
        }
        i = i + 1;
    }
    false
}

/// However registrations follow one another, no two registered plugins share
/// a name, and every plugin registered before stays registered in its place: a
/// registration under a name already present is the one rejected.
pub proof fn lemma_registration_keeps_names_unique(names: Seq<Seq<char>>, attempts: Seq<Seq<char>>)
    requires
        names.no_duplicates(),
    ensures
        after_registers(names, attempts).no_duplicates(),
        after_registers(names, attempts).len() >= names.len(),
        after_registers(names, attempts).subrange(0, names.len() as int) == names,
        forall|i: int|
            0 <= i < attempts.len() ==> holds(after_registers(names, attempts), #[trigger] attempts[i]),
    decreases attempts.len(),
{
    if attempts.len() > 0 {
        let init = attempts.drop_last();
        lemma_registration_keeps_names_unique(names, init);
        let before = after_registers(names, init);
        let name = attempts.last();
        if !holds(before, name) {
            let after = before.push(name);
            assert forall|a: int, b: int| 0 <= a < b < after.len() implies after[a] != after[b] by {
                if b == before.len() {
                    assert(before[a] == after[a]);
                }
            }
            assert(after.subrange(0, names.len() as int) =~= before.subrange(0, names.len() as int));
            assert(after[before.len() as int] == name);
        }
        let after = after_registers(names, attempts);
        assert forall|i: int| 0 <= i < attempts.len() implies holds(after, #[trigger] attempts[i]) by {
            if i < init.len() {
                assert(init[i] == attempts[i]);
                let j = choose|j: int| 0 <= j < before.len() && before[j] == init[i];
                assert(after[j] == before[j]);
            } else if holds(before, name) {
            } else {
                assert(after[before.len() as int] == name);
            }
        }
    }
}

/// Whether a file name carries the library extension `ext` (given without its
/// dot) after a non-empty stem.
pub open spec fn is_library_name(file_name: Seq<char>, ext: Seq<char>) -> bool {
    file_name.len() > ext.len() + 1 && ends_with(file_name, seq!['.'] + ext)
}

/// A file name without the platform's library prefix and suffix, each removed
/// where present.
pub open spec fn base_name_of(file_name: Seq<char>, prefix: Seq<char>, suffix: Seq<char>) -> Seq<
    char,
> {
    let s = if starts_with(file_name, prefix) {
        file_name.subrange(prefix.len() as int, file_name.len() as int)
    } else {
        file_name
    };
    if ends_with(s, suffix) {
        s.subrange(0, s.len() - suffix.len())
    } else {
        s
    }
}

/// Whether `file_name` names a plugin library of extension `ext`.
pub fn is_library_file(file_name: &str, ext: &str) -> (r: bool)
    ensures
        r == is_library_name(file_name@, ext@),
{
    let n = file_name.unicode_len();
    let m = ext.unicode_len();
    if n <= m || n - m <= 1 {
        return false;
    }
    let dot = n - m - 1;
    if file_name.get_char(dot) != '.' {
        assert(file_name@.subrange(dot as int, n as int)[0] != (seq!['.'] + ext@)[0]);
        return false;
    }
    let r = matches_at(file_name, dot + 1, ext);
    assert(file_name@.subrange(dot as int, n as int) =~= seq![file_name@[dot as int]]
        + file_name@.subrange(dot + 1, n as int));
    if !r {
        assert(file_name@.subrange(dot as int, n as int).subrange(1, m + 1) =~= file_name@.subrange(
            dot + 1,
            n as int,
        ));
        assert((seq!['.'] + ext@).subrange(1, m + 1) =~= ext@);
    }
    r
}

/// `file_name` without the library prefix and suffix, each removed where
/// present.
pub fn plugin_base_name(file_name: &str, prefix: &str, suffix: &str) -> (r: String)
    ensures
        r@ == base_name_of(file_name@, prefix@, suffix@),
{
    let n = file_name.unicode_len();
    let start: usize = if matches_at(file_name, 0, prefix) {
        prefix.unicode_len()
    } else {
        0
    };
    let ghost s = file_name@.subrange(start as int, n as int);
    assert(s =~= (if starts_with(file_name@, prefix@) {
        file_name@.subrange(prefix@.len() as int, file_name@.len() as int)
    } else {
        file_name@
    }));
    let m = suffix.unicode_len();
    let mut end: usize = n;
    if m <= n - start && matches_at(file_name, n - m, suffix) {
        end = n - m;
        assert(s.subrange(s.len() - m, s.len() as int) =~= file_name@.subrange(n - m, n as int));
    } else if m <= n - start {
        assert(s.subrange(s.len() - m, s.len() as int) =~= file_name@.subrange(n - m, n as int));
    }
    let r = file_name.substring_char(start, end).to_owned();
    assert(r@ =~= base_name_of(file_name@, prefix@, suffix@));
    r
}

/// One discovery pass over the search directories: the paths loaded so far,
/// by which later candidates of the same base name are skipped.
pub struct DiscoveryPass {
    loaded: Vec<String>,
}

/// What the caller does after a candidate's load attempt.
pub enum LoadReport {
    /// Loaded; the path is recorded.
    Loaded,
    /// The name was already registered: expected while discovering, not reported.
    Duplicate,
    /// Another failure: reported as a warning, and discovery goes on.
    Warn,
}

/// Whether a loaded path holds `base`.
pub open spec fn seen_base(loaded: Seq<Seq<char>>, base: Seq<char>) -> bool {
    exists|i: int| 0 <= i < loaded.len() && occurs_in(base, #[trigger] loaded[i])
}

/// Whether discovery loads a file: it has the library extension and no loaded
/// path holds its base name.
pub open spec fn wants(
    loaded: Seq<Seq<char>>,
    file_name: Seq<char>,
    ext: Seq<char>,
    prefix: Seq<char>,
    suffix: Seq<char>,
) -> bool {
    is_library_name(file_name, ext) && !seen_base(loaded, base_name_of(file_name, prefix, suffix))
}

/// The base name of a file occurs in the file name.
proof fn lemma_base_name_occurs(file_name: Seq<char>, prefix: Seq<char>, suffix: Seq<char>)
    ensures
        occurs_in(base_name_of(file_name, prefix, suffix), file_name),
{
    let start: int = if starts_with(file_name, prefix) { prefix.len() as int } else { 0 };
    let s = file_name.subrange(start, file_name.len() as int);
    let b = base_name_of(file_name, prefix, suffix);
    assert(file_name.subrange(start, start + b.len()) =~= b);
}

/// A part occurring in a string that occurs in another occurs there too.
proof fn lemma_occurs_trans(a: Seq<char>, b: Seq<char>, c: Seq<char>)
    requires
        occurs_in(a, b),
        occurs_in(b, c),
    ensures
        occurs_in(a, c),
{
    let k1 = choose|k: int| 0 <= k && k + a.len() <= b.len() && #[trigger] b.subrange(k, k + a.len()) == a;
    let k2 = choose|k: int| 0 <= k && k + b.len() <= c.len() && #[trigger] c.subrange(k, k + b.len()) == b;
    assert(c.subrange(k2 + k1, k2 + k1 + a.len()) =~= a);
}

/// Once a library file has been loaded from one directory, the same file
/// found in any later directory is not loaded again in the same pass.
pub proof fn lemma_same_artifact_loaded_once(
    loaded: Seq<Seq<char>>,
    path: Seq<char>,
    file_name: Seq<char>,
    ext: Seq<char>,
    prefix: Seq<char>,
    suffix: Seq<char>,
)
    requires
        ends_with(path, file_name),
    ensures
        !wants(loaded.push(path), file_name, ext, prefix, suffix),
{
    let b = base_name_of(file_name, prefix, suffix);
    lemma_base_name_occurs(file_name, prefix, suffix);
    let k = path.len() - file_name.len();
    assert(path.subrange(k, k + file_name.len()) == file_name);
    lemma_occurs_trans(b, file_name, path);
    let l = loaded.push(path);
    assert(l[loaded.len() as int] == path);
    assert(occurs_in(b, l[loaded.len() as int]));
}

impl DiscoveryPass {
    /// Paths loaded so far, in order.
    pub closed spec fn loaded_paths(&self) -> Seq<Seq<char>> {
        self.loaded@.map_values(|p: String| p@)
    }

    /// A pass that has loaded nothing.
    pub fn new() -> (r: DiscoveryPass)
        ensures
            r.loaded_paths() == Seq::<Seq<char>>::empty(),
    {
        let r = DiscoveryPass { loaded: Vec::new() };
        assert(r.loaded_paths() =~= Seq::<Seq<char>>::empty());
        r
    }

    /// Whether to load the file `file_name`, given the platform's library
    /// extension `ext` and the prefix and suffix around a library's base name.
    pub fn should_load(&self, file_name: &str, ext: &str, prefix: &str, suffix: &str) -> (r: bool)
        ensures
            r == wants(self.loaded_paths(), file_name@, ext@, prefix@, suffix@),
    {
        if !is_library_file(file_name, ext) {
            return false;
        }
        let base = plugin_base_name(file_name, prefix, suffix);
        let mut i: usize = 0;
        while i < self.loaded.len()
            invariant
                i <= self.loaded@.len(),
                base@ == base_name_of(file_name@, prefix@, suffix@),
                forall|j: int| 0 <= j < i ==> !occurs_in(base@, #[trigger] self.loaded_paths()[j]),
            decreases self.loaded@.len() - i,
        {
            if contains_str(self.loaded[i].as_str(), base.as_str()) {
                assert(occurs_in(base@, self.loaded_paths()[i as int]));
                return false;
            }
            i = i + 1;
        }
        true
    }

    /// Records the outcome of loading the file at `path`, and says what to
    /// report.
    pub fn record(&mut self, path: String, outcome: &Result<(), RegistryError>) -> (r: LoadReport)
        ensures
            match outcome {
                Ok(()) => r is Loaded && final(self).loaded_paths() == old(
                    self,
                ).loaded_paths().push(path@),
                Err(RegistryError::DuplicateName(_)) => r is Duplicate && final(self).loaded_paths()
                    == old(self).loaded_paths(),
                Err(_) => r is Warn && final(self).loaded_paths() == old(self).loaded_paths(),
            },
    {
        match outcome {
            Ok(()) => {
                self.loaded.push(path);
                assert(self.loaded_paths() =~= old(self).loaded_paths().push(path@));
                LoadReport::Loaded
            },
            Err(RegistryError::DuplicateName(_)) => LoadReport::Duplicate,
            Err(_) => LoadReport::Warn,
        }
    }

    /// The paths loaded in this pass, in order.
    pub fn into_loaded(self) -> (r: Vec<String>)
        ensures
            r@.map_values(|p: String| p@) == self.loaded_paths(),
    {
        self.loaded
    }
}

} // verus!
