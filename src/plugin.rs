//! Capability objects: the `Plugin` trait, its descriptors, the per-call
//! execution context and the opaque handle that crosses a library boundary.
use vstd::prelude::*;

verus! {

/// Errors raised by a plugin while it executes a command.
///
/// Where an error was caused by another one, `source` holds that cause's
/// message.
#[derive(Debug)]
pub enum PluginError {
    CommandFailed(String),
    InvalidArg { arg: String, message: String },
    ArgOutOfRange { arg: String, value: i64, min: i64, max: i64 },
    IpcConnection { message: String, source: Option<String> },
    DaemonNotRunning { source: Option<String> },
    Io(String),
    Json(String),
    Other(String),
}

impl PluginError {
    /// An argument that could not be used.
    pub fn invalid_arg(arg: String, message: String) -> (r: PluginError)
        ensures
            r matches PluginError::InvalidArg { arg: a, message: m } && a@ == arg@ && m@
                == message@,
    {
        PluginError::InvalidArg { arg, message }
    }

    /// An argument outside the range `min..=max`.
    pub fn arg_out_of_range(arg: String, value: i64, min: i64, max: i64) -> (r: PluginError)
        ensures
            r matches PluginError::ArgOutOfRange { arg: a, value: v, min: lo, max: hi } && a@
                == arg@ && v == value && lo == min && hi == max,
    {
        PluginError::ArgOutOfRange { arg, value, min, max }
    }

    /// A failure of the local channel, with no further cause.
    pub fn ipc_connection(message: String) -> (r: PluginError)
        ensures
            r matches PluginError::IpcConnection { message: m, source: s } && m@ == message@
                && s is None,
    {
        PluginError::IpcConnection { message, source: None }
    }

    /// A failure of the local channel caused by another error.
    pub fn ipc_connection_with_source(message: String, source: String) -> (r: PluginError)
        ensures
            r matches PluginError::IpcConnection { message: m, source: Some(s) } && m@
                == message@ && s@ == source@,
    {
        PluginError::IpcConnection { message, source: Some(source) }
    }

    /// The daemon could not be reached and could not be started.
    pub fn daemon_not_running() -> (r: PluginError)
        ensures
            r matches PluginError::DaemonNotRunning { source: s } && s is None,
    {
        PluginError::DaemonNotRunning { source: None }
    }

    /// The daemon could not be reached, because of `source`.
    pub fn daemon_not_running_with_source(source: String) -> (r: PluginError)
        ensures
            r matches PluginError::DaemonNotRunning { source: Some(s) } && s@ == source@,
    {
        PluginError::DaemonNotRunning { source: Some(source) }
    }
}

/// Definition of one argument of a command, for help text.
pub struct ArgDef {
    pub name: String,
    pub description: String,
    pub required: bool,
}

impl ArgDef {
    /// A required argument.
    pub fn new(name: String, description: String) -> (r: ArgDef)
        ensures
            r.name@ == name@,
            r.description@ == description@,
            r.required,
    {
        ArgDef { name, description, required: true }
    }

    /// The same argument, no longer required.
    pub fn optional(self) -> (r: ArgDef)
        ensures
            r.name@ == self.name@,
            r.description@ == self.description@,
            !r.required,
    {
        let mut a = self;
        a.required = false;
        a
    }
}

/// Immutable description of one command that a plugin provides.
pub struct CommandDef {
    pub name: String,
    pub description: String,
    pub usage: Option<String>,
    pub args: Vec<ArgDef>,
}

impl CommandDef {
    /// A command with no usage text and no arguments.
    pub fn new(name: String, description: String) -> (r: CommandDef)
        ensures
            r.name@ == name@,
            r.description@ == description@,
            r.usage is None,
            r.args@.len() == 0,
    {
        CommandDef { name, description, usage: None, args: Vec::new() }
    }

    /// The same command with its usage text set.
    pub fn with_usage(self, usage: String) -> (r: CommandDef)
        ensures
            r.name@ == self.name@,
            r.description@ == self.description@,
            r.usage matches Some(u) && u@ == usage@,
            r.args@ == self.args@,
    {
        let mut c = self;
        c.usage = Some(usage);
        c
    }

    /// The same command with one more argument, after the others.
    pub fn with_arg(self, arg: ArgDef) -> (r: CommandDef)
        ensures
            r.name@ == self.name@,
            r.description@ == self.description@,
            r.usage == self.usage,
            r.args@ == self.args@.push(arg),
    {
        let mut c = self;
        c.args.push(arg);
        c
    }
}

/// Keys of a list of pairs, in order.
pub open spec fn pair_keys(pairs: Seq<(String, String)>) -> Seq<Seq<char>> {
    pairs.map_values(|p: (String, String)| p.0@)
}

/// The key/value map that a list of pairs with distinct keys stands for.
pub open spec fn pair_map(pairs: Seq<(String, String)>) -> Map<Seq<char>, Seq<char>>
    decreases pairs.len(),
{
    if pairs.len() == 0 {
        Map::empty()
    } else {
        let last = pairs.last();
        pair_map(pairs.drop_last()).insert(last.0@, last.1@)
    }
}

/// Mutable, per-call context handed to a plugin.
pub struct PluginContext {
    /// Path of the data directory.
    pub data_dir: String,
    /// Free-form string entries, each key at most once.
    pub extra: Vec<(String, String)>,
    /// Plugin configuration, serialized.
    pub config_json: Option<String>,
}

impl PluginContext {
    /// Keys of `extra` are distinct.
    pub open spec fn wf(&self) -> bool {
        pair_keys(self.extra@).no_duplicates()
    }

    /// What `extra` holds, as a map.
    pub open spec fn extra_map(&self) -> Map<Seq<char>, Seq<char>> {
        pair_map(self.extra@)
    }

    /// A context for the given data directory, with no entries and no
    /// configuration.
    pub fn new(data_dir: String) -> (r: PluginContext)
        ensures
            r.wf(),
            r.data_dir@ == data_dir@,
            r.extra_map() == Map::<Seq<char>, Seq<char>>::empty(),
            r.config_json is None,
    {
        let r = PluginContext { data_dir, extra: Vec::new(), config_json: None };
        assert(pair_keys(r.extra@) =~= Seq::<Seq<char>>::empty());
        r
    }

    /// The same context with `key` mapped to `value`, replacing an earlier
    /// value of `key`.
    pub fn with_extra(self, key: String, value: String) -> (r: PluginContext)
        requires
            self.wf(),
        ensures
            r.wf(),
            r.data_dir@ == self.data_dir@,
            r.extra_map() == self.extra_map().insert(key@, value@),
            r.config_json == self.config_json,
    {
        let mut c = self;
        let n = c.extra.len();
        let mut i: usize = 0;
        while i < n
            invariant
                n == c.extra@.len(),
                i <= n,
                c.data_dir == self.data_dir,
                c.config_json == self.config_json,
                c.extra@ == self.extra@,
                pair_keys(c.extra@).no_duplicates(),
                forall|j: int| 0 <= j < i ==> c.extra@[j].0@ != key@,
            decreases n - i,
        {
            if c.extra[i].0 == key {
                let ghost old_extra = c.extra@;
                let _ = c.extra.remove(i);
                c.extra.push((key, value));
                proof {
                    assert(c.extra@.drop_last() =~= old_extra.remove(i as int));
                    lemma_replace_key(old_extra, i as int, c.extra@);
                }
                return c;
            }
            i = i + 1;
        }
        let ghost old_extra = c.extra@;
        c.extra.push((key, value));
        proof {
            assert(c.extra@.drop_last() =~= old_extra);
            lemma_push_new_key(old_extra, c.extra@);
        }
        c
    }

    /// The same context with its configuration set.
    pub fn with_config(self, config_json: String) -> (r: PluginContext)
        ensures
            r.data_dir@ == self.data_dir@,
            r.extra@ == self.extra@,
            r.config_json matches Some(c) && c@ == config_json@,
    {
        let mut c = self;
        c.config_json = Some(config_json);
        c
    }
}

proof fn lemma_pair_map_domain(pairs: Seq<(String, String)>, k: Seq<char>)
    ensures
        pair_map(pairs).dom().contains(k) <==> pair_keys(pairs).contains(k),
    decreases pairs.len(),
{
    if pairs.len() == 0 {
        assert(pair_keys(pairs) =~= Seq::<Seq<char>>::empty());
    } else {
        lemma_pair_map_domain(pairs.drop_last(), k);
        assert(pair_keys(pairs) =~= pair_keys(pairs.drop_last()).push(pairs.last().0@));
        if k == pairs.last().0@ {
            assert(pair_keys(pairs)[pairs.len() - 1] == k);
        }
        if pair_keys(pairs.drop_last()).contains(k) {
            let j = choose|j: int|
                0 <= j < pair_keys(pairs.drop_last()).len() && pair_keys(pairs.drop_last())[j]
                    == k;
            assert(pair_keys(pairs)[j] == k);
        }
        if pair_keys(pairs).contains(k) && k != pairs.last().0@ {
            let j = choose|j: int| 0 <= j < pair_keys(pairs).len() && pair_keys(pairs)[j] == k;
            assert(pair_keys(pairs.drop_last())[j] == k);
        }
    }
}

/// Removing the pair at `i` and pushing a pair with the same key yields the
/// map with that key's value replaced.
proof fn lemma_replace_key(old_pairs: Seq<(String, String)>, i: int, new_pairs: Seq<(String, String)>)
    requires
        0 <= i < old_pairs.len(),
        pair_keys(old_pairs).no_duplicates(),
        new_pairs.len() == old_pairs.len(),
        new_pairs.drop_last() == old_pairs.remove(i),
        new_pairs.last().0@ == old_pairs[i].0@,
    ensures
        pair_keys(new_pairs).no_duplicates(),
        pair_map(new_pairs) == pair_map(old_pairs).insert(new_pairs.last().0@, new_pairs.last().1@),
{
    let key = old_pairs[i].0@;
    let rest = old_pairs.remove(i);
    lemma_map_without(old_pairs, i);
    assert forall|j: int| 0 <= j < rest.len() implies rest[j].0@ != key by {
        let j2 = if j < i { j } else { j + 1 };
        assert(pair_keys(old_pairs)[j2] == rest[j].0@);
        assert(pair_keys(old_pairs)[i] == key);
    }
    lemma_push_new_key(rest, new_pairs);
    assert(pair_map(new_pairs) =~= pair_map(old_pairs).insert(key, new_pairs.last().1@));
}

/// With distinct keys, dropping the pair at `i` drops its key from the map.
proof fn lemma_map_without(pairs: Seq<(String, String)>, i: int)
    requires
        0 <= i < pairs.len(),
        pair_keys(pairs).no_duplicates(),
    ensures
        pair_map(pairs.remove(i)) == pair_map(pairs).remove(pairs[i].0@),
        pair_keys(pairs.remove(i)).no_duplicates(),
    decreases pairs.len(),
{
    let key = pairs[i].0@;
    if i == pairs.len() - 1 {
        assert(pairs.remove(i) =~= pairs.drop_last());
        assert(pair_keys(pairs.drop_last()) =~= pair_keys(pairs).drop_last());
        lemma_pair_map_domain(pairs.drop_last(), key);
        assert(!pair_keys(pairs.drop_last()).contains(key)) by {
            if pair_keys(pairs.drop_last()).contains(key) {
                let j = choose|j: int|
                    0 <= j < pair_keys(pairs.drop_last()).len() && pair_keys(pairs.drop_last())[j]
                        == key;
                assert(pair_keys(pairs)[j] == pair_keys(pairs)[i]);
            }
        }
        assert(pair_map(pairs.remove(i)) =~= pair_map(pairs).remove(key));
    } else {
        let init = pairs.drop_last();
        let last = pairs.last();
        assert(pair_keys(init) =~= pair_keys(pairs).drop_last());
        lemma_map_without(init, i);
        assert(pairs.remove(i) =~= init.remove(i).push(last));
        assert(pairs.remove(i).drop_last() =~= init.remove(i));
        assert(pair_keys(pairs)[i] != pair_keys(pairs)[pairs.len() - 1]);
        assert(pair_map(pairs.remove(i)) =~= pair_map(pairs).remove(key));
        assert(pair_keys(pairs.remove(i)) =~= pair_keys(pairs).remove(i));
        assert forall|a: int, b: int|
            0 <= a < b < pair_keys(pairs.remove(i)).len() implies pair_keys(pairs.remove(i))[a]
            != pair_keys(pairs.remove(i))[b] by {
            let a2 = if a < i { a } else { a + 1 };
            let b2 = if b < i { b } else { b + 1 };
            assert(pair_keys(pairs)[a2] == pair_keys(pairs.remove(i))[a]);
            assert(pair_keys(pairs)[b2] == pair_keys(pairs.remove(i))[b]);
        }
    }
}

/// Pushing a pair whose key is new keeps keys distinct and adds it to the map.
proof fn lemma_push_new_key(old_pairs: Seq<(String, String)>, new_pairs: Seq<(String, String)>)
    requires
        pair_keys(old_pairs).no_duplicates(),
        new_pairs.len() == old_pairs.len() + 1,
        new_pairs.drop_last() == old_pairs,
        forall|j: int| 0 <= j < old_pairs.len() ==> old_pairs[j].0@ != new_pairs.last().0@,
    ensures
        pair_keys(new_pairs).no_duplicates(),
        pair_map(new_pairs) == pair_map(old_pairs).insert(new_pairs.last().0@, new_pairs.last().1@),
{
    assert(pair_keys(new_pairs) =~= pair_keys(old_pairs).push(new_pairs.last().0@));
    assert forall|a: int, b: int|
        0 <= a < b < pair_keys(new_pairs).len() implies pair_keys(new_pairs)[a] != pair_keys(
            new_pairs,
        )[b] by {
        if b == old_pairs.len() {
            assert(pair_keys(new_pairs)[a] == old_pairs[a].0@);
        } else {
            assert(pair_keys(new_pairs)[a] == pair_keys(old_pairs)[a]);
            assert(pair_keys(new_pairs)[b] == pair_keys(old_pairs)[b]);
        }
    }
}

/// Outcome of a command that a plugin executed.
pub enum CommandResult {
    /// Completed, with an optional message.
    Success(Option<String>),
    /// Failed, with a message.
    Error(String),
    /// Started background work, described by the message.
    Async(String),
}

/// A capability object: a provider of commands that the host dispatches to.
///
/// Implementations come from outside this library: compiled in, or loaded
/// from a shared library.
pub trait Plugin {
    /// The name that `name` reports, as chars. Verified code that holds a
    /// plugin of an unknown type knows only that `name` returns it; the body
    /// lets an implementation outside this library leave it out.
    closed spec fn spec_name(&self) -> Seq<char> {
        Seq::empty()
    }

    /// The plugin's unique name.
    fn name(&self) -> (r: &str)
        ensures
            r@ == self.spec_name(),
    ;

    /// The plugin's version.
    fn version(&self) -> &str;

    /// A short description of the plugin.
    fn description(&self) -> &str;

    /// The commands this plugin provides.
    fn commands(&self) -> Vec<CommandDef>;

    /// Executes `command` with `args`.
    fn execute(&self, command: &str, args: &[String], ctx: &mut PluginContext) -> Result<
        CommandResult,
        PluginError,
    >;

    /// Hook run when the plugin is registered in-process.
    fn on_load(&self) -> Result<(), PluginError> {
        Ok(())
    }

    /// Hook run when the plugin is taken out.
    fn on_unload(&self) -> Result<(), PluginError> {
        Ok(())
    }
}

/// Metadata of a plugin, for listing.
pub struct PluginInfo {
    pub name: String,
    pub version: String,
    pub description: String,
    pub commands: Vec<CommandDef>,
}

impl PluginInfo {
    /// Collects the metadata that `plugin` reports.
    pub fn from_plugin<P: Plugin>(plugin: &P) -> PluginInfo {
        let name = plugin.name().to_owned();
        let version = plugin.version().to_owned();
        let description = plugin.description().to_owned();
        let commands = plugin.commands();
        PluginInfo { name, version, description, commands }
    }
}

/// Opaque two-word handle that a plugin library's creation function returns:
/// the addresses of a capability object's data and of its method table.
///
/// A handle may be turned back into a capability object at most once, and only
/// while its library stays loaded.
pub struct RawPlugin {
    pub data: usize,
    pub vtable: usize,
}

impl RawPlugin {
    /// Whether the creation function signalled failure with a null data
    /// address.
    pub fn is_null(&self) -> (r: bool)
        ensures
            r == (self.data == 0),
    {
        self.data == 0
    }
}

} // verus!
