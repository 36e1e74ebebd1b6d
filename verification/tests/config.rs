use rs_terminal::config::{
    Config, ConfigFormat, ConfigSource, HttpConfig, ShellConfig, TerminalConfig, TerminalSize,
    WebSocketConfig, WebTransportConfig, FALLBACK_SESSION_TIMEOUT,
};

fn shell(words: &[&str]) -> ShellConfig {
    ShellConfig {
        command: words.iter().map(|w| w.to_string()).collect(),
        working_directory: None,
        environment: Vec::new(),
        terminal_size: None,
    }
}

fn config_with(default_shell: &str, shells: Vec<(&str, ShellConfig)>) -> Config {
    Config {
        terminal: TerminalConfig {
            default_shell_type: default_shell.to_string(),
            default_terminal_size: TerminalSize { columns: 80, rows: 24 },
            default_working_directory: "/tmp".to_string(),
            session_timeout: 2000,
            shells: shells.into_iter().map(|(n, s)| (n.to_string(), s)).collect(),
        },
        http: HttpConfig { port: 8080, use_https: false, cert_path: None, key_path: None },
        websocket: WebSocketConfig { port: 8081 },
        webtransport: WebTransportConfig { port: 8082 },
    }
}

#[test]
fn get_shell_config_finds_a_registered_shell() {
    let config = config_with("zsh", vec![("bash", shell(&["bash", "-l"])), ("zsh", shell(&["zsh"]))]);
    assert_eq!(config.get_shell_config("bash"), Some(&shell(&["bash", "-l"])));
    assert_eq!(config.get_shell_config("zsh"), Some(&shell(&["zsh"])));
}

#[test]
fn get_shell_config_knows_no_unregistered_shell() {
    let config = config_with("zsh", vec![("bash", shell(&["bash"]))]);
    assert_eq!(config.get_shell_config("fish"), None);
    assert_eq!(config.get_shell_config(""), None);
    assert_eq!(config.get_shell_config("BASH"), None);
}

#[test]
fn get_shell_config_takes_the_first_of_two_entries() {
    let config = config_with("sh", vec![("sh", shell(&["sh", "-a"])), ("sh", shell(&["sh", "-b"]))]);
    assert_eq!(config.get_shell_config("sh"), Some(&shell(&["sh", "-a"])));
}

#[test]
fn default_shell_is_the_configured_one() {
    let config = config_with("zsh", vec![("bash", shell(&["bash"])), ("zsh", shell(&["zsh", "-i"]))]);
    assert!(config.has_default_shell());
    assert_eq!(config.get_default_shell_config(), &shell(&["zsh", "-i"]));
}

#[test]
fn default_shell_falls_back_to_bash() {
    let config = config_with("fish", vec![("sh", shell(&["sh"])), ("bash", shell(&["bash", "-l"]))]);
    assert!(config.has_default_shell());
    assert_eq!(config.get_default_shell_config(), &shell(&["bash", "-l"]));
}

#[test]
fn no_default_shell_without_default_and_bash() {
    let config = config_with("fish", vec![("sh", shell(&["sh"]))]);
    assert!(!config.has_default_shell());
    let empty = config_with("bash", vec![]);
    assert!(!empty.has_default_shell());
}

#[test]
fn format_follows_the_extension() {
    assert_eq!(Config::format_of("./application.toml"), Some(ConfigFormat::Toml));
    assert_eq!(Config::format_of("a.yml"), Some(ConfigFormat::Yaml));
    assert_eq!(Config::format_of("a.yaml"), Some(ConfigFormat::Yaml));
    assert_eq!(Config::format_of("a.json"), Some(ConfigFormat::Json));
    assert_eq!(Config::format_of("a.conf"), None);
    assert_eq!(Config::format_of("toml"), None);
    assert_eq!(Config::format_of(""), None);
    assert_eq!(Config::format_of("a.toml.bak"), None);
    assert_eq!(Config::format_of(".json"), Some(ConfigFormat::Json));
}

#[test]
fn search_paths_are_tried_in_order() {
    let expected = vec![
        "./application.toml",
        "src/main/resources/application.toml",
        "../src/main/resources/application.toml",
        "./application.yml",
        "./application.yaml",
        "src/main/resources/application.yml",
        "src/main/resources/application.yaml",
        "../src/main/resources/application.yml",
        "../src/main/resources/application.yaml",
        "./application.json",
        "src/main/resources/application.json",
        "../src/main/resources/application.json",
    ];
    assert_eq!(Config::search_paths(), expected);
}

#[test]
fn every_search_path_has_a_format() {
    let formats: Vec<Option<ConfigFormat>> =
        Config::search_paths().iter().map(|p| Config::format_of(p)).collect();
    let t = Some(ConfigFormat::Toml);
    let y = Some(ConfigFormat::Yaml);
    let j = Some(ConfigFormat::Json);
    assert_eq!(formats, vec![t, t, t, y, y, y, y, y, y, j, j, j]);
}

#[test]
fn first_existing_path_is_the_source() {
    assert_eq!(
        Config::load_default(&vec![false, false, true, true]),
        ConfigSource::File { index: 2 }
    );
    assert_eq!(Config::load_default(&vec![true]), ConfigSource::File { index: 0 });
    assert_eq!(
        Config::load_default(&vec![false, false, false, true]),
        ConfigSource::File { index: 3 }
    );
}

#[test]
fn no_existing_path_gives_the_built_in_configuration() {
    assert_eq!(Config::load_default(&vec![false; 12]), ConfigSource::BuiltIn);
    assert_eq!(Config::load_default(&Vec::new()), ConfigSource::BuiltIn);
}

#[test]
fn fallback_is_the_documented_default() {
    let config = Config::fallback();
    assert_eq!(config.terminal.default_shell_type, "powershell");
    assert_eq!(config.terminal.default_terminal_size, TerminalSize { columns: 80, rows: 24 });
    assert_eq!(config.terminal.session_timeout, 30 * 60 * 1000);
    assert_eq!(FALLBACK_SESSION_TIMEOUT, 1_800_000);
    assert_eq!(config.terminal.default_working_directory, ".");
    let names: Vec<&str> = config.terminal.shells.iter().map(|(n, _)| n.as_str()).collect();
    assert_eq!(names, vec!["bash", "sh", "cmd", "powershell"]);
    assert_eq!(config.get_shell_config("bash"), Some(&shell(&["bash"])));
    assert_eq!(config.get_shell_config("sh"), Some(&shell(&["sh"])));
    assert_eq!(config.get_shell_config("cmd"), Some(&shell(&["cmd.exe"])));
    assert_eq!(config.get_shell_config("powershell"), Some(&shell(&["powershell.exe"])));
    assert!(config.has_default_shell());
    assert_eq!(config.get_default_shell_config(), &shell(&["powershell.exe"]));
    assert_eq!(config.http.port, 8080);
    assert!(!config.http.use_https);
    assert_eq!(config.websocket.port, 8081);
    assert_eq!(config.webtransport.port, 8082);
}
