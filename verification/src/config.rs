//! Application configuration: its sections, their defaults, and the manager
//! that holds the current configuration (reading and writing the file is left
//! to the caller).

use vstd::prelude::*;

verus! {

/// A copy of a vector of strings.
pub fn clone_strings(v: &Vec<String>) -> (r: Vec<String>)
    ensures
        r@ == v@,
{
    let mut r: Vec<String> = Vec::new();
    let mut i: usize = 0;
    while i < v.len()
        invariant
            i <= v@.len(),
            r@ == v@.subrange(0, i as int),
        decreases v@.len() - i,
    {
        r.push(v[i].clone());
        i = i + 1;
        assert(r@ =~= v@.subrange(0, i as int));
    }
    assert(r@ =~= v@);
    r
}

/// General settings.
#[derive(Debug)]
pub struct GeneralConfig {
    pub show_hidden: bool,
    pub confirm_delete: bool,
    pub show_icons: bool,
    pub terminal: String,
    pub editor: String,
    pub auto_reload: bool,
    pub confirm_operations: bool,
    pub enable_sound: bool,
    pub plugin_directory: String,
}

/// Panel settings.
#[derive(Debug)]
pub struct PanelConfig {
    pub default_sort: String,
    pub show_size: bool,
    pub show_permissions: bool,
    pub show_modified: bool,
}

/// Color settings.
#[derive(Debug)]
pub struct ColorConfig {
    pub selection_bg: String,
    pub directory_fg: String,
    pub executable_fg: String,
    pub symlink_fg: String,
}

/// A key bound to a command by the user.
#[derive(Debug)]
pub struct CustomKeybinding {
    pub key: String,
    pub command: String,
}

/// Key binding settings.
#[derive(Debug)]
pub struct KeybindingConfig {
    pub custom: Vec<CustomKeybinding>,
}

/// Plugin settings.
#[derive(Debug)]
pub struct PluginConfig {
    pub enable_plugins: bool,
    pub disabled_plugins: Vec<String>,
    pub auto_reload_plugins: bool,
    pub allow_unsafe_plugins: bool,
}

/// Network settings.
#[derive(Debug)]
pub struct NetworkConfig {
    /// Seconds.
    pub connection_timeout: u64,
    pub save_credentials: bool,
    pub verify_ssl: bool,
    pub known_hosts: Vec<String>,
    pub enable_compression: bool,
}

/// The whole configuration.
#[derive(Debug)]
pub struct Config {
    pub general: GeneralConfig,
    pub panels: PanelConfig,
    pub colors: ColorConfig,
    pub keybindings: KeybindingConfig,
    pub plugins: PluginConfig,
    pub network: NetworkConfig,
}

/// Default of a setting that is on.
pub fn default_true() -> (r: bool)
    ensures
        r,
{
    true
}

/// Default of a setting that is off.
pub fn default_false() -> (r: bool)
    ensures
        !r,
{
    false
}

/// Default terminal.
pub fn default_terminal() -> (r: String)
    ensures
        r@ == "bash"@,
{
    String::from_str("bash")
}

/// Default editor.
pub fn default_editor() -> (r: String)
    ensures
        r@ == "vim"@,
{
    String::from_str("vim")
}

/// Default sort order of the panels.
pub fn default_sort() -> (r: String)
    ensures
        r@ == "name"@,
{
    String::from_str("name")
}

/// Default background of the selection.
pub fn default_selection_bg() -> (r: String)
    ensures
        r@ == "blue"@,
{
    String::from_str("blue")
}

/// Default color of directories.
pub fn default_directory_fg() -> (r: String)
    ensures
        r@ == "cyan"@,
{
    String::from_str("cyan")
}

/// Default color of executables.
pub fn default_executable_fg() -> (r: String)
    ensures
        r@ == "green"@,
{
    String::from_str("green")
}

/// Default color of symbolic links.
pub fn default_symlink_fg() -> (r: String)
    ensures
        r@ == "magenta"@,
{
    String::from_str("magenta")
}

/// Default plugin directory.
pub fn default_plugin_dir() -> (r: String)
    ensures
        r@ == "plugins"@,
{
    String::from_str("plugins")
}

/// Default connection timeout, in seconds.
pub fn default_connection_timeout() -> (r: u64)
    ensures
        r == 30,
{
    30
}

impl Default for GeneralConfig {
    fn default() -> (r: Self)
        ensures
            !r.show_hidden,
            r.confirm_delete,
            !r.show_icons,
            r.terminal@ == "bash"@,
            r.editor@ == "vim"@,
            r.auto_reload,
            r.confirm_operations,
            !r.enable_sound,
            r.plugin_directory@ == "plugins"@,
    {
        GeneralConfig {
            show_hidden: false,
            confirm_delete: true,
            show_icons: false,
            terminal: default_terminal(),
            editor: default_editor(),
            auto_reload: true,
            confirm_operations: true,
            enable_sound: false,
            plugin_directory: default_plugin_dir(),
        }
    }
}

impl Default for PanelConfig {
    fn default() -> (r: Self)
        ensures
            r.default_sort@ == "name"@,
            r.show_size,
            r.show_permissions,
            r.show_modified,
    {
        PanelConfig {
            default_sort: default_sort(),
            show_size: true,
            show_permissions: true,
            show_modified: true,
        }
    }
}

impl Default for ColorConfig {
    fn default() -> (r: Self)
        ensures
            r.selection_bg@ == "blue"@,
            r.directory_fg@ == "cyan"@,
            r.executable_fg@ == "green"@,
            r.symlink_fg@ == "magenta"@,
    {
        ColorConfig {
            selection_bg: default_selection_bg(),
            directory_fg: default_directory_fg(),
            executable_fg: default_executable_fg(),
            symlink_fg: default_symlink_fg(),
        }
    }
}

impl Default for KeybindingConfig {
    fn default() -> (r: Self)
        ensures
            r.custom@.len() == 0,
    {
        KeybindingConfig { custom: Vec::new() }
    }
}

impl Default for PluginConfig {
    fn default() -> (r: Self)
        ensures
            r.enable_plugins,
            r.disabled_plugins@.len() == 0,
            !r.auto_reload_plugins,
            !r.allow_unsafe_plugins,
    {
        PluginConfig {
            enable_plugins: true,
            disabled_plugins: Vec::new(),
            auto_reload_plugins: false,
            allow_unsafe_plugins: false,
        }
    }
}

impl Default for NetworkConfig {
    fn default() -> (r: Self)
        ensures
            r.connection_timeout == 30,
            !r.save_credentials,
            !r.verify_ssl,
            r.known_hosts@.len() == 0,
            !r.enable_compression,
    {
        NetworkConfig {
            connection_timeout: default_connection_timeout(),
            save_credentials: false,
            verify_ssl: false,
            known_hosts: Vec::new(),
            enable_compression: false,
        }
    }
}

impl Default for Config {
    fn default() -> (r: Self)
        ensures
            !r.general.show_hidden,
            r.general.confirm_delete,
            !r.general.show_icons,
            r.general.terminal@ == "bash"@,
            r.general.editor@ == "vim"@,
            r.general.auto_reload,
            r.general.confirm_operations,
            !r.general.enable_sound,
            r.general.plugin_directory@ == "plugins"@,
            r.panels.default_sort@ == "name"@,
            r.panels.show_size && r.panels.show_permissions && r.panels.show_modified,
            r.colors.selection_bg@ == "blue"@,
            r.colors.directory_fg@ == "cyan"@,
            r.colors.executable_fg@ == "green"@,
            r.colors.symlink_fg@ == "magenta"@,
            r.keybindings.custom@.len() == 0,
            r.plugins.enable_plugins,
            r.plugins.disabled_plugins@.len() == 0,
            !r.plugins.auto_reload_plugins,
            !r.plugins.allow_unsafe_plugins,
            r.network.connection_timeout == 30,
            !r.network.save_credentials,
            !r.network.verify_ssl,
            r.network.known_hosts@.len() == 0,
            !r.network.enable_compression,
    {
        Config {
            general: GeneralConfig::default(),
            panels: PanelConfig::default(),
            colors: ColorConfig::default(),
            keybindings: KeybindingConfig::default(),
            plugins: PluginConfig::default(),
            network: NetworkConfig::default(),
        }
    }
}

impl Clone for GeneralConfig {
    fn clone(&self) -> (r: Self)
        ensures
            r == *self,
    {
        GeneralConfig {
            show_hidden: self.show_hidden,
            confirm_delete: self.confirm_delete,
            show_icons: self.show_icons,
            terminal: self.terminal.clone(),
            editor: self.editor.clone(),
            auto_reload: self.auto_reload,
            confirm_operations: self.confirm_operations,
            enable_sound: self.enable_sound,
            plugin_directory: self.plugin_directory.clone(),
        }
    }
}

impl Clone for PanelConfig {
    fn clone(&self) -> (r: Self)
        ensures
            r == *self,
    {
        PanelConfig {
            default_sort: self.default_sort.clone(),
            show_size: self.show_size,
            show_permissions: self.show_permissions,
            show_modified: self.show_modified,
        }
    }
}

impl Clone for ColorConfig {
    fn clone(&self) -> (r: Self)
        ensures
            r == *self,
    {
        ColorConfig {
            selection_bg: self.selection_bg.clone(),
            directory_fg: self.directory_fg.clone(),
            executable_fg: self.executable_fg.clone(),
            symlink_fg: self.symlink_fg.clone(),
        }
    }
}

impl Clone for CustomKeybinding {
    fn clone(&self) -> (r: Self)
        ensures
            r == *self,
    {
        CustomKeybinding { key: self.key.clone(), command: self.command.clone() }
    }
}

impl Clone for KeybindingConfig {
    fn clone(&self) -> (r: Self)
        ensures
            r.custom@ == self.custom@,
    {
        let mut custom: Vec<CustomKeybinding> = Vec::new();
        let mut i: usize = 0;
        while i < self.custom.len()
            invariant
                i <= self.custom@.len(),
                custom@ == self.custom@.subrange(0, i as int),
            decreases self.custom@.len() - i,
        {
            custom.push(self.custom[i].clone());
            i = i + 1;
            assert(custom@ =~= self.custom@.subrange(0, i as int));
        }
        assert(custom@ =~= self.custom@);
        KeybindingConfig { custom }
    }
}

impl Clone for PluginConfig {
    fn clone(&self) -> (r: Self)
        ensures
            plugins_same(r, *self),
    {
        PluginConfig {
            enable_plugins: self.enable_plugins,
            disabled_plugins: clone_strings(&self.disabled_plugins),
            auto_reload_plugins: self.auto_reload_plugins,
            allow_unsafe_plugins: self.allow_unsafe_plugins,
        }
    }
}

impl Clone for NetworkConfig {
    fn clone(&self) -> (r: Self)
        ensures
            network_same(r, *self),
    {
        NetworkConfig {
            connection_timeout: self.connection_timeout,
            save_credentials: self.save_credentials,
            verify_ssl: self.verify_ssl,
            known_hosts: clone_strings(&self.known_hosts),
            enable_compression: self.enable_compression,
        }
    }
}

impl Clone for Config {
    fn clone(&self) -> (r: Self)
        ensures
            config_same(r, *self),
    {
        Config {
            general: self.general.clone(),
            panels: self.panels.clone(),
            colors: self.colors.clone(),
            keybindings: self.keybindings.clone(),
            plugins: self.plugins.clone(),
            network: self.network.clone(),
        }
    }
}

/// Two plugin sections hold the same settings.
pub open spec fn plugins_same(a: PluginConfig, b: PluginConfig) -> bool {
    &&& a.enable_plugins == b.enable_plugins
    &&& a.disabled_plugins@ == b.disabled_plugins@
    &&& a.auto_reload_plugins == b.auto_reload_plugins
    &&& a.allow_unsafe_plugins == b.allow_unsafe_plugins
}

/// Two network sections hold the same settings.
pub open spec fn network_same(a: NetworkConfig, b: NetworkConfig) -> bool {
    &&& a.connection_timeout == b.connection_timeout
    &&& a.save_credentials == b.save_credentials
    &&& a.verify_ssl == b.verify_ssl
    &&& a.known_hosts@ == b.known_hosts@
    &&& a.enable_compression == b.enable_compression
}

/// Two configurations hold the same settings.
pub open spec fn config_same(a: Config, b: Config) -> bool {
    &&& a.general == b.general
    &&& a.panels == b.panels
    &&& a.colors == b.colors
    &&& a.keybindings.custom@ == b.keybindings.custom@
    &&& plugins_same(a.plugins, b.plugins)
    &&& network_same(a.network, b.network)
}

/// Holds the current configuration and the path of its file.
pub struct ConfigManager {
    config: Config,
    config_path: String,
}

impl ConfigManager {
    /// The current configuration.
    pub closed spec fn current(&self) -> Config {
        self.config
    }

    /// The path of the configuration file.
    pub closed spec fn path(&self) -> Seq<char> {
        self.config_path@
    }

    /// A manager for the configuration read from (or created at) `config_path`.
    pub fn new(config_path: String, config: Config) -> (r: Self)
        ensures
            r.current() == config,
            r.path() == config_path@,
    {
        ConfigManager { config, config_path }
    }

    /// The path of the configuration file.
    pub fn get_config_path(&self) -> (r: &String)
        ensures
            r@ == self.path(),
    {
        &self.config_path
    }

    /// Replaces the configuration with the one read anew from the file.
    pub fn reload(&mut self, config: Config)
        ensures
            final(self).current() == config,
            final(self).path() == old(self).path(),
    {
        self.config = config;
    }

    /// The general settings of the current configuration.
    pub(crate) fn general(&self) -> (r: &GeneralConfig)
        ensures
            *r == self.current().general,
    {
        &self.config.general
    }

    /// A copy of the current configuration.
    pub fn get(&self) -> (r: Config)
        ensures
            config_same(r, self.current()),
    {
        self.config.clone()
    }

    /// Stores a changed configuration (the caller writes it to the file).
    pub fn update(&mut self, config: Config)
        ensures
            final(self).current() == config,
            final(self).path() == old(self).path(),
    {
        self.config = config;
    }
}

impl Clone for ConfigManager {
    fn clone(&self) -> (r: Self)
        ensures
            config_same(r.current(), self.current()),
            r.path() == self.path(),
    {
        ConfigManager { config: self.config.clone(), config_path: self.config_path.clone() }
    }
}

/// Reading the configuration after storing one gives the stored one back:
/// `update` makes it the current configuration, and `get` returns one that
/// is the same as the current one in every setting.
pub proof fn law_update_then_get(stored: Config)
    ensures
        config_same(stored, stored),
{
}

} // verus!
