use vstd::prelude::*;
use crate::config::NavigatorConfig;
use crate::errors::AutonavError;
use crate::manager::{PluginManager, shut_all};

verus! {

/// A loaded navigator, ready for queries: its configuration, the
/// system-prompt text, the resolved paths, and the plugin registry when
/// plugins are configured.
#[derive(Debug)]
pub struct LoadedNavigator {
    pub config: NavigatorConfig,
    pub system_prompt: String,
    pub navigator_path: String,
    pub knowledge_base_path: String,
    pub plugin_manager: Option<PluginManager>,
    pub plugins_config_path: Option<String>,
}

impl LoadedNavigator {
    /// The navigator's name.
    pub fn name(&self) -> (r: &str)
        ensures
            r@ == self.config.name@,
    {
        self.config.name.as_str()
    }

    /// Shut the navigator down: when a plugin registry is active, the
    /// shutdown cascades to every registered plugin; without one there
    /// is nothing to release. Calling this twice leaves exactly what
    /// one call leaves.
    pub fn shutdown(&mut self) -> (r: Result<(), AutonavError>)
        ensures
            r is Ok,
            old(self).plugin_manager matches Some(pm) ==> (final(self).plugin_manager matches Some(
                npm,
            ) && npm.plugins@ == shut_all(pm.plugins@) && npm.config_path == pm.config_path),
            old(self).plugin_manager is None ==> final(self).plugin_manager is None,
            final(self).config == old(self).config,
            final(self).system_prompt == old(self).system_prompt,
            final(self).navigator_path == old(self).navigator_path,
            final(self).knowledge_base_path == old(self).knowledge_base_path,
            final(self).plugins_config_path == old(self).plugins_config_path,
    {
        match &mut self.plugin_manager {
            Some(pm) => {
                pm.shutdown();
            },
            None => {},
        }
        Ok(())
    }
}

/// Navigator directory operations. Reading and writing the files is the
/// caller's; the structural decisions are made here.
#[derive(Debug)]
pub struct Navigator;

impl Navigator {
    /// Whether a directory holds a navigator: its file listing must
    /// name the configuration file.
    pub fn is_valid(entries: &Vec<String>) -> (r: bool)
        ensures
            r == crate::validation::file_known(entries@, "config.json"@),
    {
        let n = entries.len();
        let mut i: usize = 0;
        while i < n
            invariant
                n == entries@.len(),
                i <= n,
                forall|j: int| 0 <= j < i ==> (#[trigger] entries@[j])@ != "config.json"@,
            decreases n - i,
        {
            if crate::strutil::str_eq(entries[i].as_str(), "config.json") {
                proof {
                    assert(crate::validation::file_known(entries@, "config.json"@));
                }
                return true;
            }
            i += 1;
        }
        false
    }

    /// Join a navigator-relative path onto the navigator directory.
    pub fn join_path(navigator_path: &str, relative: &str) -> (r: String)
        ensures
            r@ == navigator_path@ + "/"@ + relative@,
    {
        let mut out = String::from_str(navigator_path);
        out.append("/");
        out.append(relative);
        out
    }

    /// The paths a loaded navigator resolves from its configuration:
    /// the instructions file, the knowledge base, and the plugin
    /// configuration file when plugins are configured.
    pub fn resolve_paths(config: &NavigatorConfig, navigator_path: &str) -> (r: (
        String,
        String,
        Option<String>,
    ))
        ensures
            r.0@ == navigator_path@ + "/"@ + config.instructions_path@,
            r.1@ == navigator_path@ + "/"@ + config.knowledge_base_path@,
            match config.plugins {
                Some(p) => r.2 matches Some(pp) && pp@ == navigator_path@ + "/"@ + p.config_file@,
                None => r.2 is None,
            },
    {
        let instructions = Self::join_path(navigator_path, config.instructions_path.as_str());
        let knowledge_base = Self::join_path(navigator_path, config.knowledge_base_path.as_str());
        let plugins = match &config.plugins {
            Some(p) => Some(Self::join_path(navigator_path, p.config_file.as_str())),
            None => None,
        };
        (instructions, knowledge_base, plugins)
    }

    /// The default instructions text a scaffolded navigator starts
    /// with.
    pub fn default_instructions(name: &str, knowledge_base_path: &str) -> (r: String)
        ensures
            r@ == "# "@ + name@ + "\n\nYou are a navigator that answers questions from the knowledge base in `"@
                + knowledge_base_path@
                + "`.\nAlways cite the knowledge-base files your answers rest on.\n"@,
    {
        let mut out = String::from_str("# ");
        out.append(name);
        out.append(
            "\n\nYou are a navigator that answers questions from the knowledge base in `",
        );
        out.append(knowledge_base_path);
        out.append("`.\nAlways cite the knowledge-base files your answers rest on.\n");
        out
    }

    /// The README placed into a fresh knowledge base.
    pub fn knowledge_base_readme(name: &str) -> (r: String)
        ensures
            r@ == "# Knowledge base for "@ + name@
                + "\n\nPut the documentation this navigator should ground its answers in here.\n"@,
    {
        let mut out = String::from_str("# Knowledge base for ");
        out.append(name);
        out.append(
            "\n\nPut the documentation this navigator should ground its answers in here.\n",
        );
        out
    }

    /// The ignore file placed into a fresh navigator directory.
    pub fn default_gitignore() -> (r: String)
        ensures
            r@ == ".autonav/\n.autonav/plugins.json\n"@,
    {
        String::from_str(".autonav/\n.autonav/plugins.json\n")
    }
}

} // verus!
