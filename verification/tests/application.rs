use moonshine::application::{
    build_exec_entries, build_exec_entry, default_launch_timeout, id_from_hash, job_removed,
    list_envs, make_envs, program_of, service_properties, terminal_state,
    ApplicationConfig, ApplicationContext, ExecEntry, FoundCommand, PropertyValue,
};

fn owned(words: &[&str]) -> Vec<String> {
    words.iter().map(|w| w.to_string()).collect()
}

fn context(hdr: bool) -> ApplicationContext {
    ApplicationContext {
        unit_name: "moonshine-session.service".to_string(),
        pulse_socket_path: "/run/user/1000/moonshine/pulse/native".to_string(),
        xdisplay: 3,
        wayland_display: "wayland-7".to_string(),
        hdr,
        extra_env: vec![("LANG".to_string(), "C".to_string())],
    }
}

#[test]
fn an_application_has_defaults() {
    let config = ApplicationConfig::default();
    assert_eq!(config.title, "");
    assert_eq!(config.boxart, None);
    assert!(config.command.is_empty());
    assert!(config.pre_command.is_empty());
    assert!(config.post_command.is_empty());
    assert_eq!(config.stdout, None);
    assert_eq!(config.stderr, None);
    assert_eq!(config.launch_timeout_secs, 2);
    assert_eq!(default_launch_timeout(), 2);
}

#[test]
fn the_number_of_an_application_goes_by_its_title() {
    let named = |title: &str| ApplicationConfig { title: title.to_string(), ..ApplicationConfig::default() };
    let mut same = named("Steam");
    same.command = owned(&["steam"]);
    assert_eq!(named("Steam").id(), same.id());
    assert_ne!(named("Steam").id(), named("Desktop").id());
    // SipHash-1-3 with zero keys over the bytes of the title and 0xff.
    assert_eq!(named("Steam").id(), 1794942107);
    assert_eq!(named("Desktop").id(), -1920257175);
}

#[test]
fn the_number_is_the_lower_half_of_the_hash() {
    assert_eq!(id_from_hash(0x0123_4567_89ab_cdef), 0x89ab_cdefu32 as i32);
    assert_eq!(id_from_hash(0xffff_ffff_0000_0001), 1);
    assert_eq!(id_from_hash(0), 0);
}

#[test]
fn the_environment_names_displays_and_audio() {
    assert_eq!(
        make_envs(&context(false)).unwrap(),
        owned(&[
            "PULSE_SERVER=unix:/run/user/1000/moonshine/pulse/native",
            "PULSE_RUNTIME_PATH=/run/user/1000/moonshine/pulse",
            "DISPLAY=:3",
            "WAYLAND_DISPLAY=wayland-7",
            "MOONSHINE_WAYLAND_DISPLAY=wayland-7",
            "ENABLE_MOONSHINE_WSI=1",
            "LANG=C",
        ])
    );
    assert_eq!(
        make_envs(&context(true)).unwrap()[6..],
        owned(&["DXVK_HDR=1", "MOONSHINE_HDR=1", "LANG=C"])[..]
    );
}

#[test]
fn an_audio_socket_without_a_directory_is_an_error() {
    let mut c = context(false);
    c.pulse_socket_path = "/".to_string();
    assert!(make_envs(&c).is_err());
    c.pulse_socket_path = String::new();
    assert!(make_envs(&c).is_err());
    c.pulse_socket_path = "native".to_string();
    assert_eq!(make_envs(&c).unwrap()[1], "PULSE_RUNTIME_PATH=");
    assert_eq!(list_envs(&c, "/d")[1], "PULSE_RUNTIME_PATH=/d");
}

#[test]
fn a_command_is_run_by_its_path() {
    let entry = build_exec_entry(Some("/usr/bin/echo".to_string()), &owned(&["a", "b"])).unwrap();
    assert_eq!(entry.path, "/usr/bin/echo");
    assert_eq!(entry.argv, owned(&["/usr/bin/echo", "a", "b"]));
    assert!(!entry.ignore_errors);
    assert!(build_exec_entry(None, &owned(&["a"])).is_none());
}

#[test]
fn commands_that_are_empty_or_missing_are_left_out() {
    let found = |words: &[&str], path: Option<&str>| FoundCommand {
        words: owned(words),
        path: path.map(|p| p.to_string()),
    };
    let entries = build_exec_entries(&[
        found(&["sync"], Some("/bin/sync")),
        found(&[], Some("/bin/none")),
        found(&["gone"], None),
        found(&["echo", "x"], Some("/bin/echo")),
    ]);
    assert_eq!(entries.len(), 2);
    assert_eq!(entries[0].argv, owned(&["/bin/sync"]));
    assert_eq!(entries[1].path, "/bin/echo");
    assert_eq!(entries[1].argv, owned(&["/bin/echo", "x"]));
}

fn entry(path: &str) -> ExecEntry {
    ExecEntry { path: path.to_string(), argv: owned(&[path]), ignore_errors: false }
}

#[test]
fn a_service_has_properties() {
    let properties =
        service_properties(owned(&["A=1"]), entry("/m"), vec![], vec![entry("/p")], &None, &Some("journal".to_string()));
    let names: Vec<&str> = properties.iter().map(|p| p.name.as_str()).collect();
    assert_eq!(
        names,
        vec![
            "Type",
            "Slice",
            "Environment",
            "ExecStart",
            "TimeoutStopUSec",
            "CollectMode",
            "StandardOutput",
            "StandardError",
            "ExecStopPost"
        ]
    );
    assert!(matches!(&properties[0].value, PropertyValue::Text(t) if t == "exec"));
    assert!(matches!(&properties[1].value, PropertyValue::Text(t) if t == "moonshine.slice"));
    assert!(matches!(&properties[2].value, PropertyValue::Texts(t) if *t == owned(&["A=1"])));
    assert!(matches!(&properties[3].value, PropertyValue::Commands(c) if c.len() == 1 && c[0].path == "/m"));
    assert!(matches!(&properties[4].value, PropertyValue::Number(5_000_000)));
    assert!(matches!(&properties[5].value, PropertyValue::Text(t) if t == "inactive-or-failed"));
    assert!(matches!(&properties[6].value, PropertyValue::Text(t) if t == "null"));
    assert!(matches!(&properties[7].value, PropertyValue::Text(t) if t == "journal"));
    assert!(matches!(&properties[8].value, PropertyValue::Commands(c) if c[0].path == "/p"));
    let properties = service_properties(vec![], entry("/m"), vec![entry("/a")], vec![entry("/b")], &None, &None);
    assert_eq!(properties.len(), 10);
    assert_eq!(properties[8].name, "ExecStartPre");
    assert_eq!(properties[9].name, "ExecStopPost");
}

#[test]
fn the_first_word_is_the_program() {
    let config = ApplicationConfig { command: owned(&["steam", "-bigpicture"]), ..ApplicationConfig::default() };
    assert_eq!(program_of(&config), Some(("steam".to_string(), owned(&["-bigpicture"]))));
    assert_eq!(program_of(&ApplicationConfig::default()), None);
}

#[test]
fn services_end_inactive_or_failed() {
    assert_eq!(terminal_state("inactive"), Some("inactive"));
    assert_eq!(terminal_state("failed"), Some("failed"));
    assert_eq!(terminal_state("active"), None);
    assert_eq!(terminal_state("activating"), None);
}

#[test]
fn only_our_job_counts() {
    assert_eq!(job_removed(false, "done"), None);
    assert_eq!(job_removed(true, "done"), Some(true));
    assert_eq!(job_removed(true, "failed"), Some(false));
}
