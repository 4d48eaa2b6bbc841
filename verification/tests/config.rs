use gamayun::config::app_config::{app_config_path, initialize_app_config, SendGridSettings};
use gamayun::config::job_config::{
    ConfigError, DirEntry, DuplicateEntryPolicy, JobConfig, LoadedFile, OnDuplicateEntry,
    DEFAULT_RESULT_WAIT_TIMEOUT_MILLIS,
};

fn s(text: &str) -> String {
    text.to_string()
}

fn job(name: &str) -> JobConfig {
    JobConfig {
        name: s(name),
        path_to_executable: s("/bin/true"),
        arguments: vec![s("-v")],
        cron_string: s("* * * * *"),
        tags: vec![s("x")],
        result_wait_timeout_millis: None,
        random_trigger_offset_seconds: Some(3),
        duplicate_entry_policy: None,
    }
}

fn loaded(path: &str, name: &str) -> LoadedFile {
    LoadedFile { path: s(path), outcome: Ok(job(name)) }
}

#[test]
fn timeout_defaults_to_ten_seconds() {
    let mut config = job("a");
    assert_eq!(DEFAULT_RESULT_WAIT_TIMEOUT_MILLIS, 10_000);
    assert_eq!(config.effective_timeout_millis(), 10_000);
    config.result_wait_timeout_millis = Some(5000);
    assert_eq!(config.effective_timeout_millis(), 5000);
    config.result_wait_timeout_millis = Some(0);
    assert_eq!(config.effective_timeout_millis(), 0);
}

#[test]
fn policy_defaults_to_track_changes_without_identifying_fields() {
    let mut config = job("a");
    let policy = config.effective_policy();
    assert!(policy.unique_ids.is_empty());
    assert_eq!(policy.on_duplicate_entry, OnDuplicateEntry::TrackChanges);
    config.duplicate_entry_policy = Some(DuplicateEntryPolicy {
        unique_ids: vec![s("host"), s("port")],
        on_duplicate_entry: OnDuplicateEntry::IgnoreNew,
    });
    let policy = config.effective_policy();
    assert_eq!(policy.unique_ids, vec![s("host"), s("port")]);
    assert_eq!(policy.on_duplicate_entry, OnDuplicateEntry::IgnoreNew);
}

#[test]
fn clone_keeps_every_attribute() {
    let mut config = job("a");
    config.duplicate_entry_policy = Some(DuplicateEntryPolicy {
        unique_ids: vec![s("k")],
        on_duplicate_entry: OnDuplicateEntry::Overwrite,
    });
    config.result_wait_timeout_millis = Some(77);
    let copy = config.clone();
    assert_eq!(copy.name, "a");
    assert_eq!(copy.path_to_executable, "/bin/true");
    assert_eq!(copy.arguments, vec![s("-v")]);
    assert_eq!(copy.cron_string, "* * * * *");
    assert_eq!(copy.tags, vec![s("x")]);
    assert_eq!(copy.result_wait_timeout_millis, Some(77));
    assert_eq!(copy.random_trigger_offset_seconds, Some(3));
    let policy = copy.duplicate_entry_policy.unwrap();
    assert_eq!(policy.unique_ids, vec![s("k")]);
    assert_eq!(policy.on_duplicate_entry, OnDuplicateEntry::Overwrite);
}

#[test]
fn config_file_names_end_in_config_toml() {
    assert!(JobConfig::is_config_file_name("ping.config.toml"));
    assert!(JobConfig::is_config_file_name(".config.toml"));
    assert!(JobConfig::is_config_file_name("a.b.config.toml"));
    assert!(!JobConfig::is_config_file_name("ping.toml"));
    assert!(!JobConfig::is_config_file_name("ping.config.toml.bak"));
    assert!(!JobConfig::is_config_file_name("config.toml"));
    assert!(!JobConfig::is_config_file_name("ping.config.TOML"));
    assert!(!JobConfig::is_config_file_name(""));
}

#[test]
fn placeholder_is_replaced_by_the_directory() {
    assert_eq!(
        JobConfig::substitute_configuration_directory(
            "path_to_executable = \"${CONFIGURATION_FILE_DIRECTORY}/run.sh\"",
            "/etc/jobs/ping",
        ),
        "path_to_executable = \"/etc/jobs/ping/run.sh\""
    );
    assert_eq!(
        JobConfig::substitute_configuration_directory(
            "${CONFIGURATION_FILE_DIRECTORY}${CONFIGURATION_FILE_DIRECTORY} x ${CONFIGURATION_FILE_DIRECTORY}",
            "/d",
        ),
        "/d/d x /d"
    );
    assert_eq!(JobConfig::substitute_configuration_directory("name = \"a\"", "/d"), "name = \"a\"");
    assert_eq!(JobConfig::substitute_configuration_directory("${CONFIGURATION_FILE_DIRECTORY", "/d"), "${CONFIGURATION_FILE_DIRECTORY");
    assert_eq!(JobConfig::substitute_configuration_directory("", "/d"), "");
    assert_eq!(JobConfig::substitute_configuration_directory("a${CONFIGURATION_FILE_DIRECTORY}b", ""), "ab");
}

#[test]
fn walk_selects_config_files_in_order() {
    let listing = vec![
        DirEntry::Directory { path: s("/root/a") },
        DirEntry::File { path: s("/root/a/one.config.toml"), file_name: s("one.config.toml") },
        DirEntry::File { path: s("/root/a/readme.md"), file_name: s("readme.md") },
        DirEntry::Other { path: s("/root/a/socket") },
        DirEntry::Directory { path: s("/root/b.config.toml") },
        DirEntry::File { path: s("/root/b.config.toml/two.config.toml"), file_name: s("two.config.toml") },
        DirEntry::File { path: s("/root/three.config.toml.bak"), file_name: s("three.config.toml.bak") },
    ];
    assert_eq!(
        JobConfig::recursive_load(&listing),
        vec![s("/root/a/one.config.toml"), s("/root/b.config.toml/two.config.toml")]
    );
    assert!(JobConfig::recursive_load(&vec![]).is_empty());
}

#[test]
fn load_accepts_distinct_names_in_order() {
    let files = vec![loaded("/r/a.config.toml", "a"), loaded("/r/b.config.toml", "b"), loaded("/r/c.config.toml", "c")];
    let configs = JobConfig::load_configs_from_directory(&files).unwrap();
    let names: Vec<String> = configs.iter().map(|c| c.name.clone()).collect();
    assert_eq!(names, vec![s("a"), s("b"), s("c")]);
    assert_eq!(configs[0].arguments, vec![s("-v")]);
    assert!(JobConfig::load_configs_from_directory(&vec![]).unwrap().is_empty());
}

#[test]
fn load_fails_on_a_file_that_could_not_be_read() {
    let files = vec![
        loaded("/r/a.config.toml", "a"),
        LoadedFile { path: s("/r/b.config.toml"), outcome: Err(s("missing field `name`")) },
        loaded("/r/c.config.toml", "c"),
    ];
    match JobConfig::load_configs_from_directory(&files) {
        Err(ConfigError::Load { path, reason }) => {
            assert_eq!(path, "/r/b.config.toml");
            assert_eq!(reason, "missing field `name`");
        }
        other => panic!("unexpected {:?}", other),
    }
}

#[test]
fn load_fails_on_a_duplicate_name() {
    let files = vec![loaded("/r/a.config.toml", "a"), loaded("/r/b.config.toml", "b"), loaded("/r/x/a.config.toml", "a")];
    match JobConfig::load_configs_from_directory(&files) {
        Err(ConfigError::DuplicateName { name }) => assert_eq!(name, "a"),
        other => panic!("unexpected {:?}", other),
    }
}

#[test]
fn load_reports_the_first_failure() {
    let files = vec![
        loaded("/r/a.config.toml", "a"),
        loaded("/r/b.config.toml", "a"),
        LoadedFile { path: s("/r/c.config.toml"), outcome: Err(s("broken")) },
    ];
    match JobConfig::load_configs_from_directory(&files) {
        Err(ConfigError::DuplicateName { name }) => assert_eq!(name, "a"),
        other => panic!("unexpected {:?}", other),
    }
    let files = vec![
        LoadedFile { path: s("/r/c.config.toml"), outcome: Err(s("broken")) },
        loaded("/r/a.config.toml", "a"),
        loaded("/r/b.config.toml", "a"),
    ];
    match JobConfig::load_configs_from_directory(&files) {
        Err(ConfigError::Load { path, .. }) => assert_eq!(path, "/r/c.config.toml"),
        other => panic!("unexpected {:?}", other),
    }
}

#[test]
fn config_errors_read_well() {
    assert_eq!(
        ConfigError::Load { path: s("/r/a.config.toml"), reason: s("not found") }.message(),
        "Failed to load job configuration '/r/a.config.toml': not found"
    );
    assert_eq!(ConfigError::DuplicateName { name: s("ping") }.message(), "Duplicate job name 'ping'");
}

#[test]
fn app_config_without_sendgrid_table_disables_the_sink() {
    let config = initialize_app_config(None).unwrap();
    assert!(config.sendgrid_config.is_none());
}

#[test]
fn app_config_with_complete_sendgrid_table_enables_the_sink() {
    let config = initialize_app_config(Some(SendGridSettings {
        api_key: Some(s("SG.key")),
        from_email: Some(s("from@example.com")),
        to_emails: Some(vec![s("a@example.com"), s("b@example.com")]),
    }))
    .unwrap();
    let sendgrid = config.sendgrid_config.unwrap();
    assert_eq!(sendgrid.api_key, "SG.key");
    assert_eq!(sendgrid.from_email, "from@example.com");
    assert_eq!(sendgrid.to_emails, vec![s("a@example.com"), s("b@example.com")]);
}

#[test]
fn app_config_names_the_first_missing_key() {
    let settings = |a: Option<&str>, f: Option<&str>, t: Option<Vec<String>>| SendGridSettings {
        api_key: a.map(s),
        from_email: f.map(s),
        to_emails: t,
    };
    assert_eq!(initialize_app_config(Some(settings(None, None, None))).unwrap_err(), "missing field `api_key`");
    assert_eq!(
        initialize_app_config(Some(settings(Some("k"), None, None))).unwrap_err(),
        "missing field `from_email`"
    );
    assert_eq!(
        initialize_app_config(Some(settings(Some("k"), Some("f"), None))).unwrap_err(),
        "missing field `to_emails`"
    );
    assert_eq!(
        initialize_app_config(Some(settings(None, Some("f"), Some(vec![])))).unwrap_err(),
        "missing field `api_key`"
    );
}

#[test]
fn app_config_file_lies_below_the_root() {
    assert_eq!(app_config_path("/etc/gamayun"), "/etc/gamayun/app_config");
    assert_eq!(app_config_path(""), "/app_config");
}

#[test]
fn file_text_is_prepared_after_the_checks() {
    let placeholder = "dir = \"${CONFIGURATION_FILE_DIRECTORY}\"";
    assert_eq!(
        JobConfig::from_file("/r/a.config.toml", true, Ok(s(placeholder)), Some(s("/r"))).unwrap(),
        "dir = \"/r\""
    );
    assert_eq!(
        JobConfig::from_file("/r/a.config.toml", false, Ok(s(placeholder)), Some(s("/r"))).unwrap_err(),
        "The path '/r/a.config.toml' is not a valid file."
    );
    assert_eq!(
        JobConfig::from_file("/r/a.config.toml", false, Err(s("denied")), None).unwrap_err(),
        "The path '/r/a.config.toml' is not a valid file."
    );
    assert_eq!(
        JobConfig::from_file("/r/a.config.toml", true, Err(s("permission denied")), None).unwrap_err(),
        "permission denied"
    );
    assert_eq!(
        JobConfig::from_file("a.config.toml", true, Ok(s(placeholder)), None).unwrap_err(),
        "Failed to get the parent directory of 'a.config.toml'"
    );
}
