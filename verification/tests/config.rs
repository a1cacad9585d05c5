use mcp_pool::config::{
    config_dir, config_path, control_socket_path, home_dir, join, run_dir, sanitize_socket_name,
    save_steps, server_socket_path, state_dir, unreadable_config_message, Directories,
    DirectoryError, Platform, PoolConfig, SaveStep, ServerDef,
};

fn nowhere(platform: Platform) -> Directories {
    Directories {
        platform,
        custom_home: None,
        home: None,
        config: None,
        state: None,
        data_local: None,
    }
}

fn usual() -> Directories {
    Directories {
        home: Some("/home/me".to_string()),
        config: Some("/home/me/.config".to_string()),
        state: Some("/home/me/.local/state".to_string()),
        data_local: Some("/home/me/.local/share".to_string()),
        ..nowhere(Platform::Unix)
    }
}

#[test]
fn server_def_transport_kind() {
    let stdio = ServerDef { command: "npx".into(), ..Default::default() };
    assert_eq!(stdio.transport_kind(), "stdio");
    let http = ServerDef { url: "http://x".into(), ..Default::default() };
    assert_eq!(http.transport_kind(), "http");
    let sse = ServerDef { url: "http://x".into(), transport: "sse".into(), ..Default::default() };
    assert_eq!(sse.transport_kind(), "sse");
}

#[test]
fn transport_kind_ignores_case_and_unknown_names() {
    let sse = ServerDef { url: "http://x".into(), transport: "SsE".into(), ..Default::default() };
    assert_eq!(sse.transport_kind(), "sse");
    let other = ServerDef { url: "http://x".into(), transport: "ssx".into(), ..Default::default() };
    assert_eq!(other.transport_kind(), "http");
    let local = ServerDef { command: "npx".into(), transport: "sse".into(), ..Default::default() };
    assert_eq!(local.transport_kind(), "stdio");
    assert!(!local.is_remote());
}

#[test]
fn directories_come_from_the_environment() {
    let directories = usual();
    assert_eq!(home_dir(&directories), Ok("/home/me".to_string()));
    assert_eq!(config_dir(&directories), Ok("/home/me/.config/mcp-pool".to_string()));
    assert_eq!(state_dir(&directories), Ok("/home/me/.local/state/mcp-pool".to_string()));
    assert_eq!(run_dir(&directories), Ok("/home/me/.local/state/mcp-pool/run".to_string()));
    assert_eq!(config_path(&directories), Ok("/home/me/.config/mcp-pool/config.toml".to_string()));
    assert_eq!(
        control_socket_path(&directories),
        "/home/me/.local/state/mcp-pool/control.sock"
    );
    assert_eq!(
        server_socket_path(&directories, "echo"),
        "/home/me/.local/state/mcp-pool/run/mcp-pool-echo.sock"
    );
}

#[test]
fn state_falls_back_to_local_data() {
    let directories = Directories { state: None, ..usual() };
    assert_eq!(state_dir(&directories), Ok("/home/me/.local/share/mcp-pool".to_string()));
}

#[test]
fn custom_home_replaces_everything() {
    let directories = Directories { custom_home: Some("/x/".to_string()), ..usual() };
    assert_eq!(home_dir(&directories), Ok("/x/".to_string()));
    assert_eq!(config_dir(&directories), Ok("/x/config".to_string()));
    assert_eq!(state_dir(&directories), Ok("/x/state".to_string()));
}

#[test]
fn missing_directories_are_errors() {
    let directories = nowhere(Platform::Unix);
    assert_eq!(home_dir(&directories), Err(DirectoryError::Home));
    assert_eq!(config_dir(&directories), Err(DirectoryError::Config));
    assert_eq!(config_path(&directories), Err(DirectoryError::Config));
    assert_eq!(state_dir(&directories), Err(DirectoryError::State));
    assert_eq!(run_dir(&directories), Err(DirectoryError::State));
    assert_eq!(DirectoryError::Home.message(), "home directory not found");
    assert_eq!(DirectoryError::Config.message(), "config directory not found");
    assert_eq!(DirectoryError::State.message(), "state directory not found");
}

#[test]
fn sockets_have_a_place_without_directories() {
    let unix = nowhere(Platform::Unix);
    assert_eq!(control_socket_path(&unix), "/tmp/mcp-pool-control.sock");
    assert_eq!(server_socket_path(&unix, "a/b"), "/tmp/mcp-pool-a_b.sock");
    let windows = nowhere(Platform::Windows);
    assert_eq!(control_socket_path(&windows), r"\\.\pipe\mcp-pool-control");
    assert_eq!(server_socket_path(&windows, "a b"), r"\\.\pipe\mcp-pool-a_b");
}

#[test]
fn joining_agrees_with_the_standard_library() {
    for base in ["", "/", "a", "a/", "/a/b", "é"] {
        for leaf in ["run", "config.toml"] {
            let expected = std::path::Path::new(base).join(leaf);
            assert_eq!(join(Platform::Unix, base, leaf), expected.to_str().unwrap());
        }
    }
}

#[test]
fn windows_paths_have_backslashes() {
    assert_eq!(join(Platform::Windows, r"C:\x", "run"), r"C:\x\run");
    assert_eq!(join(Platform::Windows, r"C:\x\", "run"), r"C:\x\run");
    assert_eq!(join(Platform::Windows, "C:/x/", "run"), "C:/x/run");
    assert_eq!(join(Platform::Windows, "C:", "run"), "C:run");
    assert_eq!(join(Platform::Windows, "", "run"), "run");
    assert_eq!(join(Platform::Unix, r"x\", "run"), r"x\/run");
    let directories = Directories {
        config: Some(r"C:\me".to_string()),
        ..nowhere(Platform::Windows)
    };
    assert_eq!(config_path(&directories), Ok(r"C:\me\mcp-pool\config.toml".to_string()));
}

#[test]
fn socket_names_are_sanitized() {
    assert_eq!(sanitize_socket_name("Ab-9_z"), "Ab-9_z");
    assert_eq!(sanitize_socket_name("../e\u{e9} t"), "___e__t");
    assert_eq!(sanitize_socket_name(""), "mcp");
}

#[test]
fn upsert_and_remove() {
    let mut config = PoolConfig::default();
    config.upsert(
        "echo",
        ServerDef { command: "npx".into(), args: vec!["-y".into()], ..Default::default() },
    );
    assert_eq!(config.server.len(), 1);
    let echo = config.server.get("echo").unwrap();
    assert_eq!(echo.command, "npx");
    assert_eq!(echo.args, vec!["-y".to_string()]);
    config.upsert("echo", ServerDef { command: "uvx".into(), ..Default::default() });
    assert_eq!(config.server.len(), 1);
    assert_eq!(config.server.get("echo").unwrap().command, "uvx");
    assert!(config.remove("echo"));
    assert!(!config.remove("echo"));
    assert_eq!(config.server.len(), 0);
}

#[test]
fn servers_are_walked_in_order() {
    let mut config = PoolConfig::default();
    for name in ["b", "a", "\u{e9}", "Z", "ab", ""] {
        config.upsert(name, ServerDef::default());
    }
    let names: Vec<&str> = (0..config.server.len()).map(|i| config.server.name_at(i)).collect();
    let mut expected = vec!["b", "a", "\u{e9}", "Z", "ab", ""];
    expected.sort();
    assert_eq!(names, expected);
}

#[test]
fn definitions_are_copied_whole() {
    let mut def = ServerDef { command: "c".into(), args: vec!["x".into()], ..Default::default() };
    def.env.insert("KEY".to_string(), "value".to_string());
    let copy = def.clone();
    assert_eq!(copy.command, "c");
    assert_eq!(copy.args, vec!["x".to_string()]);
    assert_eq!(copy.env.get("KEY"), Some(&"value".to_string()));
}

#[test]
fn configuration_is_written_beside_and_renamed() {
    let steps = save_steps(Platform::Unix, "/c");
    assert_eq!(steps.len(), 3);
    assert!(matches!(&steps[0], SaveStep::CreateDirectory(dir) if dir == "/c"));
    assert!(matches!(&steps[1], SaveStep::Write(path) if path == "/c/config.toml.tmp"));
    assert!(matches!(
        &steps[2],
        SaveStep::Rename { from, to } if from == "/c/config.toml.tmp" && to == "/c/config.toml"
    ));
    assert_eq!(unreadable_config_message("/c/config.toml", "bad"), "/c/config.toml: bad");
}

#[test]
fn verbatim_windows_paths_are_taken_as_they_stand() {
    let joined = |base: &str| join(Platform::Windows, base, "config");
    assert_eq!(joined(r"\\?\C:\a/"), r"\\?\C:\a/\config");
    assert_eq!(joined(r"\\?\C:\a\"), r"\\?\C:\a\config");
    assert_eq!(joined(r"\\?\C:\a\\b\\"), r"\\?\C:\a\b\config");
    assert_eq!(joined(r"\\?\C:"), r"\\?\C:\config");
    assert_eq!(joined(r"\\?\C:\"), r"\\?\C:\config");
    assert_eq!(joined(r"\\?\UNC\server\share"), r"\\?\UNC\server\share\config");
    assert_eq!(joined(r"\\?\UNC\server\share\\x"), r"\\?\UNC\server\share\x\config");
    assert_eq!(joined(r"\\server\share"), r"\\server\share\config");
    assert_eq!(join(Platform::Unix, r"\\?\C:\", "config"), r"\\?\C:\/config");
}

#[test]
fn configurations_are_copied_whole() {
    let mut config = PoolConfig::default();
    config.upsert("a", ServerDef { command: "npx".into(), ..Default::default() });
    config.upsert("b", ServerDef { url: "http://x".into(), ..Default::default() });
    let copy = config.clone();
    assert!(config.remove("a"));
    assert_eq!(copy.server.len(), 2);
    assert_eq!(copy.server.get("a").unwrap().command, "npx");
    assert_eq!(copy.server.get("b").unwrap().url, "http://x");
}
