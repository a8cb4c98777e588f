//! The plugin registry: which plugins are known, which of them are enabled,
//! and which files a plugin may serve to the frontend.
//!
//! Reading plugin directories and storing the enabled flags are the caller's
//! part; the registry holds the state in between.

use crate::json::JsonValue;
use crate::text::{text_contains, text_ends_with, to_ascii_lowercase, ascii_lowercase, contains_text};
use vstd::prelude::*;
use vstd::string::*;

verus! {

/// What a plugin contributes to the frontend.
#[derive(Debug)]
pub struct FrontendMeta {
    pub entry: Option<String>,
    pub permissions: Vec<String>,
    /// Free-form placement of the plugin in the user interface.
    pub ui: Option<JsonValue>,
}

/// What a plugin contributes to the backend.
#[derive(Clone, Debug)]
pub struct BackendMeta {
    pub entry: Option<String>,
    pub permissions: Vec<String>,
}

/// The description that a plugin ships with.
#[derive(Debug)]
pub struct PluginMetadata {
    pub id: String,
    pub name: String,
    pub version: String,
    pub description: String,
    pub author: String,
    pub icon: Option<String>,
    /// `action` for a plugin that runs on request, `background` for one
    /// that is always active.
    pub plugin_type: Option<String>,
    pub frontend: Option<FrontendMeta>,
    pub backend: Option<BackendMeta>,
}

/// A known plugin.
#[derive(Debug)]
pub struct Plugin {
    pub meta: PluginMetadata,
    pub enabled: bool,
}

/// The stored flag of one plugin.
#[derive(Clone, Debug)]
pub struct EnabledFlag {
    pub id: String,
    pub enabled: bool,
}

/// The plugins of one plugin directory.
#[derive(Debug)]
pub struct PluginManager {
    pub plugins_dir: String,
    /// The known plugins; no two share an id.
    pub plugins: Vec<Plugin>,
    /// The stored flags; no two are for the same id.
    pub enabled_map: Vec<EnabledFlag>,
}

/// Whether `flags` holds a flag for `id`.
pub open spec fn has_flag(flags: Seq<EnabledFlag>, id: Seq<char>) -> bool {
    exists|i: int| 0 <= i < flags.len() && (#[trigger] flags[i]).id@ == id
}

/// The stored flag for `id`, if there is one.
pub open spec fn flag_of(flags: Seq<EnabledFlag>, id: Seq<char>) -> Option<bool> {
    if has_flag(flags, id) {
        Some(flags[choose|i: int| 0 <= i < flags.len() && (#[trigger] flags[i]).id@ == id].enabled)
    } else {
        None
    }
}

/// Whether no two flags are for the same id.
pub open spec fn distinct_flags(flags: Seq<EnabledFlag>) -> bool {
    forall|i: int, j: int|
        0 <= i < j < flags.len() ==> (#[trigger] flags[i]).id@ != (#[trigger] flags[j]).id@
}

/// Whether no two plugins share an id.
pub open spec fn distinct_plugins(plugins: Seq<Plugin>) -> bool {
    forall|i: int, j: int|
        0 <= i < j < plugins.len() ==> (#[trigger] plugins[i]).meta.id@ != (
        #[trigger] plugins[j]).meta.id@
}

/// Whether a plugin with the id `id` is known.
pub open spec fn is_known(plugins: Seq<Plugin>, id: Seq<char>) -> bool {
    exists|i: int| 0 <= i < plugins.len() && (#[trigger] plugins[i]).meta.id@ == id
}

/// A plugin is enabled unless a stored flag says otherwise.
pub open spec fn enabled_by(flags: Seq<EnabledFlag>, id: Seq<char>) -> bool {
    match flag_of(flags, id) {
        Some(flag) => flag,
        None => true,
    }
}

fn find_flag(flags: &Vec<EnabledFlag>, id: &str) -> (found: Option<usize>)
    ensures
        match found {
            Some(i) => i < flags.len() && flags@[i as int].id@ == id@,
            None => !has_flag(flags@, id@),
        },
{
    let key = String::from_str(id);
    let mut i: usize = 0;
    while i < flags.len()
        invariant
            i <= flags.len(),
            key@ == id@,
            forall|k: int| 0 <= k < i ==> (#[trigger] flags@[k]).id@ != id@,
        decreases flags.len() - i,
    {
        if flags[i].id == key {
            return Some(i);
        }
        i = i + 1;
    }
    None
}

fn find_plugin(plugins: &Vec<Plugin>, id: &str) -> (found: Option<usize>)
    ensures
        match found {
            Some(i) => i < plugins.len() && plugins@[i as int].meta.id@ == id@,
            None => !is_known(plugins@, id@),
        },
{
    let key = String::from_str(id);
    let mut i: usize = 0;
    while i < plugins.len()
        invariant
            i <= plugins.len(),
            key@ == id@,
            forall|k: int| 0 <= k < i ==> (#[trigger] plugins@[k]).meta.id@ != id@,
        decreases plugins.len() - i,
    {
        if plugins[i].meta.id == key {
            return Some(i);
        }
        i = i + 1;
    }
    None
}

proof fn flag_of_is_the_flag_at(flags: Seq<EnabledFlag>, at: int)
    requires
        distinct_flags(flags),
        0 <= at < flags.len(),
    ensures
        flag_of(flags, flags[at].id@) == Some(flags[at].enabled),
{
    let id = flags[at].id@;
    let chosen = choose|i: int| 0 <= i < flags.len() && (#[trigger] flags[i]).id@ == id;
    if chosen < at {
        assert(flags[chosen].id@ != flags[at].id@);
    } else if at < chosen {
        assert(flags[at].id@ != flags[chosen].id@);
    }
}

impl PluginManager {
    /// No id occurs twice, neither among the plugins nor among the flags.
    pub open spec fn wf(&self) -> bool {
        distinct_plugins(self.plugins@) && distinct_flags(self.enabled_map@)
    }

    /// Whether the stored flags, or their absence, enable the plugin `id`.
    pub open spec fn enables(&self, id: Seq<char>) -> bool {
        enabled_by(self.enabled_map@, id)
    }

    /// A manager for the plugins below `plugins_dir`, with no plugin loaded
    /// and no flag stored.
    pub fn new(plugins_dir: &str) -> (m: PluginManager)
        ensures
            m.wf(),
            m.plugins_dir@ == plugins_dir@,
            m.plugins@.len() == 0,
            m.enabled_map@.len() == 0,
    {
        PluginManager {
            plugins_dir: String::from_str(plugins_dir),
            plugins: Vec::new(),
            enabled_map: Vec::new(),
        }
    }

    /// Stores the flag of `plugin_id`, in place of an earlier one if there
    /// is one, and leaves every other flag as it is.
    pub fn set_flag(&mut self, plugin_id: &str, enable: bool)
        requires
            old(self).wf(),
        ensures
            final(self).wf(),
            final(self).plugins == old(self).plugins,
            final(self).plugins_dir == old(self).plugins_dir,
            flag_of(final(self).enabled_map@, plugin_id@) == Some(enable),
            forall|other: Seq<char>|
                other != plugin_id@ ==> flag_of(final(self).enabled_map@, other) == flag_of(
                    old(self).enabled_map@,
                    other,
                ),
    {
        let ghost before = self.enabled_map@;
        let entry = EnabledFlag { id: String::from_str(plugin_id), enabled: enable };
        let at = match find_flag(&self.enabled_map, plugin_id) {
            Some(i) => {
                self.enabled_map.set(i, entry);
                i
            },
            None => {
                self.enabled_map.push(entry);
                self.enabled_map.len() - 1
            },
        };
        let ghost after = self.enabled_map@;
        proof {
            assert(after[at as int].id@ == plugin_id@);
            assert(forall|k: int|
                0 <= k < after.len() && k != at ==> after[k] == before[k] && (
                #[trigger] after[k]).id@ != plugin_id@);
            assert(distinct_flags(after));
            flag_of_is_the_flag_at(after, at as int);
            assert forall|other: Seq<char>| other != plugin_id@ implies flag_of(after, other)
                == flag_of(before, other) by {
                if has_flag(before, other) {
                    let k = choose|i: int|
                        0 <= i < before.len() && (#[trigger] before[i]).id@ == other;
                    assert(after[k] == before[k]);
                    flag_of_is_the_flag_at(before, k);
                    flag_of_is_the_flag_at(after, k);
                } else if has_flag(after, other) {
                    let k = choose|i: int| 0 <= i < after.len() && (#[trigger] after[i]).id@ == other;
                    assert(before[k].id@ == other);
                }
            }
        }
    }

    /// Enables or disables a plugin: its flag is stored, and the plugin, if
    /// it is known, is switched; everything else stays as it is.
    pub fn toggle(&mut self, plugin_id: &str, enable: bool)
        requires
            old(self).wf(),
        ensures
            final(self).wf(),
            final(self).plugins_dir == old(self).plugins_dir,
            flag_of(final(self).enabled_map@, plugin_id@) == Some(enable),
            forall|other: Seq<char>|
                other != plugin_id@ ==> flag_of(final(self).enabled_map@, other) == flag_of(
                    old(self).enabled_map@,
                    other,
                ),
            final(self).plugins@.len() == old(self).plugins@.len(),
            forall|i: int|
                0 <= i < old(self).plugins@.len() ==> (#[trigger] final(self).plugins@[i]).meta
                    == old(self).plugins@[i].meta && final(self).plugins@[i].enabled == if old(
                    self,
                ).plugins@[i].meta.id@ == plugin_id@ {
                    enable
                } else {
                    old(self).plugins@[i].enabled
                },
    {
        self.set_flag(plugin_id, enable);
        match find_plugin(&self.plugins, plugin_id) {
            Some(i) => {
                let ghost before = self.plugins@;
                let plugin = self.plugins.remove(i);
                self.plugins.insert(i, Plugin { meta: plugin.meta, enabled: enable });
                proof {
                    let after = self.plugins@;
                    assert(after.len() == before.len());
                    assert forall|k: int| 0 <= k < before.len() implies (#[trigger] after[k]).meta
                        == before[k].meta by {}
                    assert forall|k: int| 0 <= k < before.len() && k != i implies (
                    #[trigger] after[k]) == before[k] by {}
                    assert forall|k: int| 0 <= k < before.len() && k != i implies (
                    #[trigger] before[k]).meta.id@ != plugin_id@ by {
                        if k < i {
                            assert(before[k].meta.id@ != before[i as int].meta.id@);
                        } else {
                            assert(before[i as int].meta.id@ != before[k].meta.id@);
                        }
                    }
                }
            },
            None => {},
        }
    }

    /// Makes a plugin known, in place of an earlier one with the same id.
    /// It is enabled unless its stored flag says otherwise.
    pub fn register(&mut self, meta: PluginMetadata)
        requires
            old(self).wf(),
        ensures
            final(self).wf(),
            final(self).enabled_map == old(self).enabled_map,
            final(self).plugins_dir == old(self).plugins_dir,
            exists|at: int|
                0 <= at < final(self).plugins@.len() && (#[trigger] final(self).plugins@[at]).meta
                    == meta && final(self).plugins@[at].enabled == old(self).enables(meta.id@),
            forall|other: Seq<char>|
                other != meta.id@ ==> is_known(final(self).plugins@, other) == is_known(
                    old(self).plugins@,
                    other,
                ),
    {
        let ghost before = self.plugins@;
        let enabled = match find_flag(&self.enabled_map, meta.id.as_str()) {
            Some(i) => {
                proof {
                    flag_of_is_the_flag_at(self.enabled_map@, i as int);
                }
                self.enabled_map[i].enabled
            },
            None => true,
        };
        let found = find_plugin(&self.plugins, meta.id.as_str());
        let ghost id = meta.id@;
        let ghost kept = meta;
        let at = match found {
            Some(i) => {
                self.plugins.set(i, Plugin { meta, enabled });
                i
            },
            None => {
                self.plugins.push(Plugin { meta, enabled });
                self.plugins.len() - 1
            },
        };
        proof {
            let after = self.plugins@;
            assert(after[at as int].meta == kept);
            assert(forall|k: int|
                0 <= k < after.len() && k != at ==> after[k] == before[k] && (
                #[trigger] after[k]).meta.id@ != id);
            assert(distinct_plugins(after));
            assert forall|other: Seq<char>| other != id implies is_known(after, other)
                == is_known(before, other) by {
                if is_known(before, other) {
                    let k = choose|i: int|
                        0 <= i < before.len() && (#[trigger] before[i]).meta.id@ == other;
                    assert(after[k] == before[k]);
                } else if is_known(after, other) {
                    let k = choose|i: int|
                        0 <= i < after.len() && (#[trigger] after[i]).meta.id@ == other;
                    assert(before[k].meta.id@ == other);
                }
            }
        }
    }

    /// Forgets a plugin and its flag; the others stay as they are.
    pub fn delete_plugin(&mut self, plugin_id: &str)
        requires
            old(self).wf(),
        ensures
            final(self).wf(),
            final(self).plugins_dir == old(self).plugins_dir,
            !is_known(final(self).plugins@, plugin_id@),
            !has_flag(final(self).enabled_map@, plugin_id@),
            forall|other: Seq<char>|
                other != plugin_id@ ==> is_known(final(self).plugins@, other) == is_known(
                    old(self).plugins@,
                    other,
                ) && has_flag(final(self).enabled_map@, other) == has_flag(
                    old(self).enabled_map@,
                    other,
                ),
    {
        let ghost flags = self.enabled_map@;
        let ghost plugins = self.plugins@;
        match find_flag(&self.enabled_map, plugin_id) {
            Some(i) => {
                self.enabled_map.remove(i);
                proof {
                    let after = self.enabled_map@;
                    assert forall|k: int| 0 <= k < after.len() implies (#[trigger] after[k]).id@
                        != plugin_id@ by {
                        if k < i {
                            assert(after[k] == flags[k]);
                            assert(flags[k].id@ != flags[i as int].id@);
                        } else {
                            assert(after[k] == flags[k + 1]);
                            assert(flags[i as int].id@ != flags[k + 1].id@);
                        }
                    }
                    assert forall|a: int, b: int| 0 <= a < b < after.len() implies (
                    #[trigger] after[a]).id@ != (#[trigger] after[b]).id@ by {
                        let a0 = if a < i { a } else { a + 1 };
                        let b0 = if b < i { b } else { b + 1 };
                        assert(after[a] == flags[a0] && after[b] == flags[b0]);
                        assert(flags[a0].id@ != flags[b0].id@);
                    }
                    assert forall|other: Seq<char>| other != plugin_id@ implies has_flag(
                        after,
                        other,
                    ) == has_flag(flags, other) by {
                        if has_flag(flags, other) {
                            let k = choose|j: int|
                                0 <= j < flags.len() && (#[trigger] flags[j]).id@ == other;
                            let k1 = if k < i { k } else { k - 1 };
                            assert(after[k1] == flags[k]);
                        } else if has_flag(after, other) {
                            let k = choose|j: int|
                                0 <= j < after.len() && (#[trigger] after[j]).id@ == other;
                            let k0 = if k < i { k } else { k + 1 };
                            assert(after[k] == flags[k0]);
                        }
                    }
                }
            },
            None => {},
        }
        match find_plugin(&self.plugins, plugin_id) {
            Some(i) => {
                self.plugins.remove(i);
                proof {
                    let after = self.plugins@;
                    assert forall|k: int| 0 <= k < after.len() implies (
                    #[trigger] after[k]).meta.id@ != plugin_id@ by {
                        if k < i {
                            assert(after[k] == plugins[k]);
                            assert(plugins[k].meta.id@ != plugins[i as int].meta.id@);
                        } else {
                            assert(after[k] == plugins[k + 1]);
                            assert(plugins[i as int].meta.id@ != plugins[k + 1].meta.id@);
                        }
                    }
                    assert forall|a: int, b: int| 0 <= a < b < after.len() implies (
                    #[trigger] after[a]).meta.id@ != (#[trigger] after[b]).meta.id@ by {
                        let a0 = if a < i { a } else { a + 1 };
                        let b0 = if b < i { b } else { b + 1 };
                        assert(after[a] == plugins[a0] && after[b] == plugins[b0]);
                        assert(plugins[a0].meta.id@ != plugins[b0].meta.id@);
                    }
                    assert forall|other: Seq<char>| other != plugin_id@ implies is_known(
                        after,
                        other,
                    ) == is_known(plugins, other) by {
                        if is_known(plugins, other) {
                            let k = choose|j: int|
                                0 <= j < plugins.len() && (#[trigger] plugins[j]).meta.id@
                                    == other;
                            let k1 = if k < i { k } else { k - 1 };
                            assert(after[k1] == plugins[k]);
                        } else if is_known(after, other) {
                            let k = choose|j: int|
                                0 <= j < after.len() && (#[trigger] after[j]).meta.id@ == other;
                            let k0 = if k < i { k } else { k + 1 };
                            assert(after[k] == plugins[k0]);
                        }
                    }
                }
            },
            None => {},
        }
    }
}

/// The entry that is served where the caller names none.
pub open spec fn default_entry() -> Seq<char> {
    "frontend/main.js"@
}

/// Whether an entry may be served: it is a JavaScript module by its ending,
/// whatever the case, and it does not climb out of the plugin's directory.
pub open spec fn entry_verdict(entry: Seq<char>) -> Result<(), Seq<char>> {
    if !(".js"@.is_suffix_of(ascii_lowercase(entry)) || ".mjs"@.is_suffix_of(
        ascii_lowercase(entry),
    )) {
        Err("only .js or .mjs entries are allowed"@)
    } else if contains_text(entry, ".."@) {
        Err("invalid entry path"@)
    } else {
        Ok(())
    }
}

/// Checks the frontend entry that a caller asks for and returns the entry
/// to serve, relative to the plugin's directory.
pub fn frontend_entry(entry: Option<&str>) -> (r: Result<String, String>)
    ensures
        match r {
            Ok(e) => e@ == match entry {
                Some(x) => x@,
                None => default_entry(),
            } && entry_verdict(e@) is Ok,
            Err(m) => entry_verdict(
                match entry {
                    Some(x) => x@,
                    None => default_entry(),
                },
            ) == Err::<(), Seq<char>>(m@),
        },
{
    let chosen = match entry {
        Some(x) => String::from_str(x),
        None => String::from_str("frontend/main.js"),
    };
    let lower = to_ascii_lowercase(chosen.as_str());
    if !(text_ends_with(lower.as_str(), ".js") || text_ends_with(lower.as_str(), ".mjs")) {
        return Err(String::from_str("only .js or .mjs entries are allowed"));
    }
    if text_contains(chosen.as_str(), "..") {
        return Err(String::from_str("invalid entry path"));
    }
    Ok(chosen)
}

/// The error for an entry that the plugin's directory does not hold.
pub fn entry_not_found(plugin_id: &str, entry: &str) -> (m: String)
    ensures
        m@ == "frontend entry not found for plugin '"@ + plugin_id@ + "' at '"@ + entry@
            + "' (checked appDataDir only)"@,
{
    let mut m = String::from_str("frontend entry not found for plugin '");
    m.append(plugin_id);
    m.append("' at '");
    m.append(entry);
    m.append("' (checked appDataDir only)");
    m
}

} // verus!
