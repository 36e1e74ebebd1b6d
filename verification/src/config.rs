//! The configuration snapshot: shells, sizes, timeouts and ports.

use crate::text::{ends_with, same_text, spec_ends_with};
use vstd::prelude::*;

verus! {

/// Thirty minutes, in milliseconds: the idle timeout of the built-in configuration.
pub const FALLBACK_SESSION_TIMEOUT: u64 = 1_800_000;

/// A terminal's size in character cells.
#[derive(Clone, Copy, Debug, PartialEq, Eq, Structural)]
pub struct TerminalSize {
    pub columns: u32,
    pub rows: u32,
}

/// How one kind of shell is started.
#[derive(Clone, Debug, PartialEq, Eq)]
pub struct ShellConfig {
    /// The program, then its arguments.
    pub command: Vec<String>,
    pub working_directory: Option<String>,
    /// Environment variables as name and value, in the order they are applied.
    pub environment: Vec<(String, String)>,
    pub terminal_size: Option<TerminalSize>,
}

/// Settings of the terminal sessions.
#[derive(Clone, Debug, PartialEq, Eq)]
pub struct TerminalConfig {
    pub default_shell_type: String,
    pub default_terminal_size: TerminalSize,
    pub default_working_directory: String,
    /// Idle time after which a session expires, in milliseconds.
    pub session_timeout: u64,
    /// The shell registry as name and configuration. Where a name occurs more
    /// than once, the first entry counts.
    pub shells: Vec<(String, ShellConfig)>,
}

/// Settings of the HTTP control API.
#[derive(Clone, Debug, PartialEq, Eq)]
pub struct HttpConfig {
    pub port: u16,
    pub use_https: bool,
    pub cert_path: Option<String>,
    pub key_path: Option<String>,
}

/// Settings of the WebSocket transport.
#[derive(Clone, Copy, Debug, PartialEq, Eq, Structural)]
pub struct WebSocketConfig {
    pub port: u16,
}

/// Settings of the WebTransport transport.
#[derive(Clone, Copy, Debug, PartialEq, Eq, Structural)]
pub struct WebTransportConfig {
    pub port: u16,
}

/// The whole configuration.
#[derive(Clone, Debug, PartialEq, Eq)]
pub struct Config {
    pub terminal: TerminalConfig,
    pub http: HttpConfig,
    pub websocket: WebSocketConfig,
    pub webtransport: WebTransportConfig,
}

/// The text formats a configuration file may be written in.
#[derive(Clone, Copy, Debug, PartialEq, Eq, Structural)]
pub enum ConfigFormat {
    Toml,
    Yaml,
    Json,
}

/// Where the default configuration comes from.
#[derive(Clone, Copy, Debug, PartialEq, Eq, Structural)]
pub enum ConfigSource {
    /// The search path with this index.
    File { index: usize },
    /// No file: the built-in configuration.
    BuiltIn,
}

/// The format that a file name's extension stands for.
pub open spec fn spec_format_of(path: Seq<char>) -> Option<ConfigFormat> {
    if spec_ends_with(path, ".toml"@) {
        Some(ConfigFormat::Toml)
    } else if spec_ends_with(path, ".yml"@) || spec_ends_with(path, ".yaml"@) {
        Some(ConfigFormat::Yaml)
    } else if spec_ends_with(path, ".json"@) {
        Some(ConfigFormat::Json)
    } else {
        None
    }
}

/// `i` is the first index at which `present` holds `true`.
pub open spec fn is_first_present(present: Seq<bool>, i: int) -> bool {
    &&& 0 <= i < present.len()
    &&& present[i]
    &&& forall|j: int| 0 <= j < i ==> !present[j]
}

/// The configuration files that are tried, in order: for each format in turn
/// the working directory, then the resources directory, then the resources
/// directory of the parent.
pub open spec fn spec_search_paths() -> Seq<Seq<char>> {
    seq![
        "./application.toml"@,
        "src/main/resources/application.toml"@,
        "../src/main/resources/application.toml"@,
        "./application.yml"@,
        "./application.yaml"@,
        "src/main/resources/application.yml"@,
        "src/main/resources/application.yaml"@,
        "../src/main/resources/application.yml"@,
        "../src/main/resources/application.yaml"@,
        "./application.json"@,
        "src/main/resources/application.json"@,
        "../src/main/resources/application.json"@,
    ]
}

/// A shell that is started by the one word `program`, in the directory of the
/// server, with no environment of its own and the default size.
fn plain_shell(program: &str) -> (shell: ShellConfig)
    ensures
        shell.command@.len() == 1,
        shell.command@[0]@ == program@,
        shell.working_directory is None,
        shell.environment@.len() == 0,
        shell.terminal_size is None,
{
    let mut command: Vec<String> = Vec::new();
    command.push(program.to_owned());
    ShellConfig {
        command,
        working_directory: None,
        environment: Vec::new(),
        terminal_size: None,
    }
}

impl TerminalConfig {
    /// Some entry of the shell registry has this name.
    pub open spec fn has_shell(&self, name: Seq<char>) -> bool {
        exists|i: int| 0 <= i < self.shells@.len() && (#[trigger] self.shells@[i]).0@ == name
    }

    /// Entry `i` is the first of the shell registry under this name.
    pub open spec fn shell_at(&self, name: Seq<char>, i: int) -> bool {
        &&& 0 <= i < self.shells@.len()
        &&& self.shells@[i].0@ == name
        &&& forall|j: int| 0 <= j < i ==> (#[trigger] self.shells@[j]).0@ != name
    }

    /// The position of the first entry under `name`, if any.
    pub fn find_shell(&self, name: &str) -> (found: Option<usize>)
        ensures
            match found {
                Some(i) => self.shell_at(name@, i as int),
                None => !self.has_shell(name@),
            },
    {
        let mut i: usize = 0;
        while i < self.shells.len()
            invariant
                i <= self.shells@.len(),
                forall|j: int| 0 <= j < i ==> (#[trigger] self.shells@[j]).0@ != name@,
            decreases self.shells@.len() - i,
        {
            if same_text(self.shells[i].0.as_str(), name) {
                return Some(i);
            }
            i = i + 1;
        }
        None
    }
}

impl Config {
    /// The configuration registered for a shell type, if there is one.
    pub fn get_shell_config(&self, shell_type: &str) -> (found: Option<&ShellConfig>)
        ensures
            match found {
                Some(shell) => exists|i: int|
                    #![trigger self.terminal.shells@[i]]
                    self.terminal.shell_at(shell_type@, i) && *shell == self.terminal.shells@[i].1,
                None => !self.terminal.has_shell(shell_type@),
            },
    {
        match self.terminal.find_shell(shell_type) {
            Some(i) => Some(&self.terminal.shells[i].1),
            None => None,
        }
    }

    /// The default shell type is registered, or `bash` is.
    pub open spec fn spec_has_default_shell(&self) -> bool {
        self.terminal.has_shell(self.terminal.default_shell_type@) || self.terminal.has_shell(
            "bash"@,
        )
    }

    /// The name under which the default shell is looked up: the default shell
    /// type where it is registered, `bash` where it is not.
    pub open spec fn spec_default_shell_name(&self) -> Seq<char> {
        if self.terminal.has_shell(self.terminal.default_shell_type@) {
            self.terminal.default_shell_type@
        } else {
            "bash"@
        }
    }

    /// Whether `get_default_shell_config` has a shell to return.
    pub fn has_default_shell(&self) -> (yes: bool)
        ensures
            yes == self.spec_has_default_shell(),
    {
        self.terminal.find_shell(self.terminal.default_shell_type.as_str()).is_some()
            || self.terminal.find_shell("bash").is_some()
    }

    /// The configuration of the default shell type; where that type is not
    /// registered, the configuration of `bash`.
    pub fn get_default_shell_config(&self) -> (shell: &ShellConfig)
        requires
            self.spec_has_default_shell(),
        ensures
            exists|i: int|
                #![trigger self.terminal.shells@[i]]
                self.terminal.shell_at(self.spec_default_shell_name(), i) && *shell
                    == self.terminal.shells@[i].1,
    {
        match self.terminal.find_shell(self.terminal.default_shell_type.as_str()) {
            Some(i) => &self.terminal.shells[i].1,
            None => {
                match self.terminal.find_shell("bash") {
                    Some(i) => &self.terminal.shells[i].1,
                    None => unreached(),
                }
            },
        }
    }

    /// The format in which the file at `path` is read, by its extension:
    /// `.toml`, `.yml` or `.yaml`, `.json`. `None` for any other name.
    pub fn format_of(path: &str) -> (format: Option<ConfigFormat>)
        ensures
            format == spec_format_of(path@),
    {
        if ends_with(path, ".toml") {
            Some(ConfigFormat::Toml)
        } else if ends_with(path, ".yml") || ends_with(path, ".yaml") {
            Some(ConfigFormat::Yaml)
        } else if ends_with(path, ".json") {
            Some(ConfigFormat::Json)
        } else {
            None
        }
    }

    /// The files in which a configuration is looked for, in the order in which
    /// they are tried.
    pub fn search_paths() -> (paths: Vec<String>)
        ensures
            paths@.len() == spec_search_paths().len(),
            forall|i: int|
                0 <= i < paths@.len() ==> (#[trigger] paths@[i])@ == spec_search_paths()[i],
    {
        let mut paths: Vec<String> = Vec::new();
        paths.push("./application.toml".to_owned());
        paths.push("src/main/resources/application.toml".to_owned());
        paths.push("../src/main/resources/application.toml".to_owned());
        paths.push("./application.yml".to_owned());
        paths.push("./application.yaml".to_owned());
        paths.push("src/main/resources/application.yml".to_owned());
        paths.push("src/main/resources/application.yaml".to_owned());
        paths.push("../src/main/resources/application.yml".to_owned());
        paths.push("../src/main/resources/application.yaml".to_owned());
        paths.push("./application.json".to_owned());
        paths.push("src/main/resources/application.json".to_owned());
        paths.push("../src/main/resources/application.json".to_owned());
        paths
    }

    /// The configuration that is used where no file is found: the shells
    /// `bash`, `sh`, `cmd` and `powershell`, each started by its program
    /// alone; `powershell` as the default shell; 80 columns by 24 rows; an
    /// idle timeout of thirty minutes; the working directory of the server;
    /// HTTP on port 8080, WebSocket on 8081, WebTransport on 8082.
    pub fn fallback() -> (config: Config)
        ensures
            config.terminal.default_shell_type@ == "powershell"@,
            config.terminal.default_terminal_size == (TerminalSize { columns: 80, rows: 24 }),
            config.terminal.default_working_directory@ == "."@,
            config.terminal.session_timeout == FALLBACK_SESSION_TIMEOUT,
            config.terminal.shells@.len() == 4,
            config.terminal.shells@[0].0@ == "bash"@,
            config.terminal.shells@[0].1.command@.len() == 1,
            config.terminal.shells@[0].1.command@[0]@ == "bash"@,
            config.terminal.shells@[1].0@ == "sh"@,
            config.terminal.shells@[1].1.command@.len() == 1,
            config.terminal.shells@[1].1.command@[0]@ == "sh"@,
            config.terminal.shells@[2].0@ == "cmd"@,
            config.terminal.shells@[2].1.command@.len() == 1,
            config.terminal.shells@[2].1.command@[0]@ == "cmd.exe"@,
            config.terminal.shells@[3].0@ == "powershell"@,
            config.terminal.shells@[3].1.command@.len() == 1,
            config.terminal.shells@[3].1.command@[0]@ == "powershell.exe"@,
            config.spec_has_default_shell(),
            config.http.port == 8080,
            !config.http.use_https,
            config.http.cert_path is None,
            config.http.key_path is None,
            config.websocket.port == 8081,
            config.webtransport.port == 8082,
    {
        let mut shells: Vec<(String, ShellConfig)> = Vec::new();
        shells.push(("bash".to_owned(), plain_shell("bash")));
        shells.push(("sh".to_owned(), plain_shell("sh")));
        shells.push(("cmd".to_owned(), plain_shell("cmd.exe")));
        shells.push(("powershell".to_owned(), plain_shell("powershell.exe")));
        let config = Config {
            terminal: TerminalConfig {
                default_shell_type: "powershell".to_owned(),
                default_terminal_size: TerminalSize { columns: 80, rows: 24 },
                default_working_directory: ".".to_owned(),
                session_timeout: FALLBACK_SESSION_TIMEOUT,
                shells,
            },
            http: HttpConfig { port: 8080, use_https: false, cert_path: None, key_path: None },
            websocket: WebSocketConfig { port: 8081 },
            webtransport: WebTransportConfig { port: 8082 },
        };
        config
    }

    /// Decides where the default configuration comes from. `present[i]` says
    /// whether the search path `i` exists. The first path that exists is the
    /// source; where none does, the built-in configuration is.
    pub fn load_default(present: &Vec<bool>) -> (source: ConfigSource)
        ensures
            match source {
                ConfigSource::File { index } => is_first_present(present@, index as int),
                ConfigSource::BuiltIn => forall|j: int| 0 <= j < present@.len() ==> !present@[j],
            },
    {
        let mut i: usize = 0;
        while i < present.len()
            invariant
                i <= present@.len(),
                forall|j: int| 0 <= j < i ==> !present@[j],
            decreases present@.len() - i,
        {
            if present[i] {
                return ConfigSource::File { index: i };
            }
            i = i + 1;
        }
        ConfigSource::BuiltIn
    }
}

} // verus!
