use moonshine::healthcheck::checks::{
    check_dbus, check_dirs, check_ports, check_uhid, check_uinput, check_wsi_layer,
    check_xdg_runtime, check_xwayland, dir_state, group_name_of, probe_capabilities,
    run_healthcheck, state_dir, BusProbe, ConfigObservations, DirProbe, DirState, DirsProbe,
    HostObservations, HostTimes, PortProbe, PortUse, RuntimeProbe,
};
use moonshine::healthcheck::gpu::{
    check_codecs, check_dmabuf, check_egl, check_render_access, check_render_nodes, check_vulkan,
    choose_node, node_to_open, node_to_render, vk_version_major, vk_version_minor, vk_version_patch, EglProbe,
    GpuObservations, GpuTimes, NodeAccess, VulkanDevice, VulkanProbe, SERVER_CODEC_MODE_SUPPORT,
};
use moonshine::healthcheck::nodes::{
    find_render_node, gpu_name, node_fits, render_node_names, score, DeviceNode, DriListing,
};
use moonshine::healthcheck::report::{CheckOutcome, HealthReport};

fn node(name: &str, uevent: &str) -> DeviceNode {
    DeviceNode { name: name.to_owned(), uevent: Some(uevent.to_owned()) }
}

fn two_cards() -> DriListing {
    DriListing::Nodes(vec![
        node("renderD129", "DRIVER=nvidia\nPCI_ID=10DE:2684\n"),
        node("card0", "DRIVER=nvidia\nPCI_ID=10DE:2684\n"),
        node("renderD128", "DRIVER=amdgpu\r\nPCI_ID=1002:73BF\n"),
    ])
}

fn device() -> VulkanDevice {
    VulkanDevice {
        name: "RTX".to_owned(),
        driver_version: (550 << 22) | (40 << 12) | 7,
        api_version: (1 << 22) | (3 << 12) | 280,
        h264: true,
        h265: true,
        av1: true,
        extensions: Ok((true, true)),
    }
}

fn gpu() -> GpuObservations {
    GpuObservations {
        environment: None,
        configured: None,
        configured_exists: false,
        dri: two_cards(),
        access: NodeAccess { error: None, group: "render".to_owned() },
        egl: EglProbe::Formats {
            codes: vec!["Xrgb8888".to_owned(), "Abgr2101010".to_owned(), "Xrgb8888".to_owned()],
            uevent: Some("DRIVER=nvidia\n".to_owned()),
        },
        vulkan: VulkanProbe::Found(device()),
        times: GpuTimes { nodes: 1, access: 2, egl: 3, vulkan: 4, codecs: 5, dmabuf: 6 },
    }
}

fn last(report: &HealthReport) -> (&str, CheckOutcome, &str) {
    let check = report.checks.last().unwrap();
    (&check.name, check.outcome, &check.message)
}

#[test]
fn only_failures_spoil_a_report() {
    let mut report = HealthReport::new();
    report.add_passed("a", "fine".to_owned(), 1);
    report.add_warn("b", "hm".to_owned(), 2);
    assert!(report.all_fatal_passed);
    report.add_failed("c", "bad".to_owned(), 3);
    report.add("d", CheckOutcome::Passed, "fine".to_owned(), 4);
    assert!(!report.all_fatal_passed);
    let times: Vec<u64> = report.checks.iter().map(|c| c.duration_ms).collect();
    assert_eq!(times, vec![1, 2, 3, 4]);
    assert_eq!(report.checks[1].outcome, CheckOutcome::Warning);
}

#[test]
fn render_nodes_are_taken_in_the_order_of_their_names() {
    let listed = vec![node("renderD129", ""), node("card1", ""), node("renderD128", "")];
    assert_eq!(render_node_names(&listed), vec!["renderD128", "renderD129"]);
}

#[test]
fn devices_are_scored_by_their_maker() {
    assert_eq!(score(Some("DRIVER=nvidia\nPCI_ID=10DE:2684")), 100);
    assert_eq!(score(Some("PCI_ID=1002:73BF")), 50);
    assert_eq!(score(Some("PCI_ID=8086:56A0")), 0);
    assert_eq!(score(None), 0);
}

#[test]
fn the_best_node_is_found_unless_one_is_named() {
    let dri = two_cards();
    let found = |environment, configured, exists| find_render_node(environment, configured, exists, &dri);
    assert_eq!(found(None, None, false).unwrap(), "/dev/dri/renderD129");
    assert_eq!(found(Some("/dev/dri/x"), Some("zz"), false).unwrap(), "/dev/dri/x");
    assert_eq!(found(None, Some("renderD128"), false).unwrap(), "/dev/dri/renderD128");
    assert_eq!(found(None, Some("AMDGPU"), false).unwrap(), "/dev/dri/renderD128");
    assert_eq!(found(None, Some("/dev/dri/by-path/a"), true).unwrap(), "/dev/dri/by-path/a");
    assert_eq!(
        found(None, Some("/dev/dri/by-path/a"), false).unwrap_err(),
        "Configured GPU path does not exist: /dev/dri/by-path/a"
    );
    assert_eq!(found(None, Some("intel"), false).unwrap_err(), "No GPU found matching configuration: intel");
}

#[test]
fn nodes_cannot_be_found_without_a_listing() {
    let found = |dri: DriListing| find_render_node(None, None, false, &dri);
    assert_eq!(found(DriListing::Missing).unwrap_err(), "No /dev/dri directory found");
    assert_eq!(found(DriListing::Unreadable("EACCES".to_owned())).unwrap_err(), "Failed to read /dev/dri: EACCES");
    assert_eq!(
        found(DriListing::Nodes(vec![node("card0", "")])).unwrap_err(),
        "No render node found in /dev/dri"
    );
}

#[test]
fn nodes_fit_by_name_or_by_what_is_said_of_them() {
    assert!(node_fits("renderD128", "renderD128", "", "renderd128"));
    assert!(node_fits("renderD128", "Nvidia", "driver=nvidia", "nvidia"));
    assert!(!node_fits("renderD128", "amd", "driver=nvidia", "amd"));
}

#[test]
fn devices_are_named_by_their_driver() {
    assert_eq!(gpu_name(Some("PCI_ID=1\nDRIVER=amdgpu\r\nDRIVER=x\n"), "n"), "amdgpu");
    assert_eq!(gpu_name(Some("PCI_ID=1"), "/dev/dri/renderD128"), "/dev/dri/renderD128");
    assert_eq!(gpu_name(None, "/dev/dri/renderD128"), "/dev/dri/renderD128");
}

#[test]
fn render_nodes_are_reported() {
    let mut report = HealthReport::new();
    assert_eq!(check_render_nodes(&mut report, &two_cards(), 9), Some("/dev/dri/renderD128".to_owned()));
    assert_eq!(last(&report), ("Render nodes", CheckOutcome::Passed, "renderD128, renderD129"));
    assert_eq!(check_render_nodes(&mut report, &DriListing::Missing, 9), None);
    assert!(last(&report).2.starts_with("  No /dev/dri directory found.\n"));
    assert_eq!(check_render_nodes(&mut report, &DriListing::Unreadable("E".to_owned()), 9), None);
    assert_eq!(
        last(&report),
        (
            "Render nodes",
            CheckOutcome::Failed,
            "  Cannot read /dev/dri: E\n  Check directory permissions."
        )
    );
    assert_eq!(check_render_nodes(&mut report, &DriListing::Nodes(vec![]), 9), None);
    assert!(last(&report).2.starts_with("  No render nodes found in /dev/dri.\n"));
    assert!(!report.all_fatal_passed);
}

#[test]
fn an_unresolved_configuration_fails_and_falls_back() {
    let mut report = HealthReport::new();
    let fallback = Some("/dev/dri/renderD128".to_owned());
    let failed = Err("nothing".to_owned());
    assert_eq!(choose_node(&mut report, &None, &Ok("n".to_owned()), &fallback, 1), Some("n".to_owned()));
    assert_eq!(choose_node(&mut report, &None, &failed, &fallback, 1), fallback);
    assert!(report.checks.is_empty());
    assert_eq!(choose_node(&mut report, &Some("intel".to_owned()), &failed, &fallback, 1), fallback);
    assert_eq!(
        last(&report),
        (
            "GPU config",
            CheckOutcome::Failed,
            "  Configured GPU `intel` could not be resolved: nothing\n  Falling back to \
             /dev/dri/renderD128 for the remaining checks, but the compositor will fail to start with \
             this configuration."
        )
    );
    assert_eq!(choose_node(&mut report, &Some("intel".to_owned()), &failed, &None, 1), None);
    assert!(last(&report).2.ends_with("nothing\n  No usable render node found."));
}

#[test]
fn access_to_the_node_is_reported_with_its_group() {
    let mut report = HealthReport::new();
    let some = Some("/dev/dri/renderD128".to_owned());
    let open = NodeAccess { error: None, group: "render".to_owned() };
    assert_eq!(check_render_access(&mut report, &some, &open, 1), some);
    assert_eq!(
        last(&report),
        ("Render access", CheckOutcome::Passed, "/dev/dri/renderD128 (owned by group 'render')")
    );
    let closed = NodeAccess { error: Some("EACCES".to_owned()), group: "video".to_owned() };
    assert_eq!(check_render_access(&mut report, &some, &closed, 1), None);
    assert_eq!(
        last(&report).2,
        "  Cannot open /dev/dri/renderD128: EACCES\n  The node is owned by group 'video'.\n  Add your \
         user to this group: `sudo usermod -aG video $USER`\n  Then log out and back in, or use \
         systemd service with SupplementaryGroups=video."
    );
    let checks = report.checks.len();
    assert_eq!(check_render_access(&mut report, &None, &open, 1), None);
    assert_eq!(report.checks.len(), checks);
}

#[test]
fn formats_are_listed_once_in_order() {
    let mut report = HealthReport::new();
    let formats = |codes: &[&str]| EglProbe::Formats {
        codes: codes.iter().map(|c| c.to_string()).collect(),
        uevent: None,
    };
    let sdr = formats(&["Xrgb8888", "Argb8888", "Xrgb8888"]);
    assert_eq!(check_egl(&mut report, Some("n"), &sdr, 1), Some(("n".to_owned(), false)));
    assert_eq!(last(&report).2, "n (SDR-only, formats: Argb8888, Xrgb8888)");
    for code in ["Abgr2101010", "Abgr16161616f"] {
        let hdr = formats(&["Xrgb8888", code]);
        assert_eq!(check_egl(&mut report, Some("n"), &hdr, 1), Some(("n".to_owned(), true)));
        assert_eq!(last(&report).2, format!("n (HDR-capable, formats: {code}, Xrgb8888)"));
    }
}

#[test]
fn each_step_of_the_display_can_fail() {
    let failures = [
        (EglProbe::NotOpened("e".to_owned()), "  Cannot open render node for EGL probe: e"),
        (EglProbe::NoGbm("e".to_owned()), "  Failed to create GBM device: e\n"),
        (EglProbe::NoDisplay("e".to_owned()), "  Failed to create EGL display: e\n"),
        (EglProbe::NoContext("e".to_owned()), "  Failed to create EGL context: e\n"),
    ];
    for (probe, start) in failures {
        let mut report = HealthReport::new();
        assert_eq!(check_egl(&mut report, Some("n"), &probe, 1), None);
        assert!(last(&report).2.starts_with(start));
        assert_eq!(last(&report).1, CheckOutcome::Failed);
    }
}

#[test]
fn versions_hold_three_numbers() {
    let v = (1 << 22) | (3 << 12) | 280;
    assert_eq!((vk_version_major(v), vk_version_minor(v), vk_version_patch(v)), (1, 3, 280));
    assert_eq!(
        (vk_version_major(u32::MAX), vk_version_minor(u32::MAX), vk_version_patch(u32::MAX)),
        (1023, 1023, 4095)
    );
    let mut report = HealthReport::new();
    check_vulkan(&mut report, &VulkanProbe::Found(device()), 1);
    assert_eq!(last(&report), ("Vulkan", CheckOutcome::Passed, "RTX, driver 550.40.7, Vulkan 1.3.280"));
    check_vulkan(&mut report, &VulkanProbe::Failed("e".to_owned()), 1);
    assert!(last(&report).2.starts_with("  Failed to initialize Vulkan: e\n"));
}

#[test]
fn codecs_are_offered_with_all_their_profiles() {
    let mut report = HealthReport::new();
    check_codecs(&mut report, &VulkanProbe::Found(device()), 1);
    assert_eq!(last(&report).2, "H.264, HEVC, AV1");
    assert_eq!(report.supported_codecs, SERVER_CODEC_MODE_SUPPORT);
    assert_eq!(SERVER_CODEC_MODE_SUPPORT, 0x7f0301);

    let bits = |h264, h265, av1| {
        let mut report = HealthReport::new();
        check_codecs(&mut report, &VulkanProbe::Found(VulkanDevice { h264, h265, av1, ..device() }), 1);
        (report.supported_codecs, report.all_fatal_passed)
    };
    assert_eq!(bits(true, false, false), (0x4_0001, true));
    assert_eq!(bits(false, true, false), (0x18_0300, true));
    assert_eq!(bits(false, false, true), (0x63_0000, true));
    assert_eq!(bits(false, false, false), (0, false));

    let mut report = HealthReport::new();
    check_codecs(&mut report, &VulkanProbe::Failed("e".to_owned()), 1);
    assert_eq!(last(&report), ("Codecs", CheckOutcome::Failed, "  Skipped (Vulkan check failed)."));
}

#[test]
fn sharing_buffers_needs_both_extensions() {
    let check = |extensions: Result<(bool, bool), String>| {
        let mut report = HealthReport::new();
        let ok = check_dmabuf(&mut report, &VulkanProbe::Found(VulkanDevice { extensions, ..device() }), 1);
        (ok, report.checks[0].message.clone())
    };
    assert_eq!(
        check(Ok((true, true))),
        (true, "VK_KHR_external_memory_fd, VK_EXT_image_drm_format_modifier".to_owned())
    );
    let (ok, message) = check(Ok((false, true)));
    assert!(!ok && message.starts_with("  Missing extensions: VK_KHR_external_memory_fd\n"));
    let (ok, message) = check(Ok((true, false)));
    assert!(!ok && message.starts_with("  Missing extensions: VK_EXT_image_drm_format_modifier\n"));
    assert_eq!(
        check(Err("e".to_owned())),
        (false, "  Failed to enumerate Vulkan device extensions: e".to_owned())
    );
}

#[test]
fn ports_are_free_or_in_conflict() {
    let uses = [
        (PortUse::Http, "HTTP", true),
        (PortUse::Https, "HTTPS", true),
        (PortUse::Rtsp, "RTSP", true),
        (PortUse::Video, "Video UDP", false),
        (PortUse::Audio, "Audio UDP", false),
        (PortUse::Control, "Control UDP", false),
    ];
    for (port, name, tcp) in uses {
        assert_eq!((port.name(), port.is_tcp()), (name, tcp));
    }
    let port = |name: &str, port, error: Option<&str>| PortProbe {
        name: name.to_owned(),
        port,
        error: error.map(|e| e.to_owned()),
    };
    let mut report = HealthReport::new();
    check_ports(&mut report, &vec![port("HTTP", 47989, None), port("RTSP", 48010, None)], 1);
    assert_eq!(last(&report), ("Ports", CheckOutcome::Passed, "HTTP(47989), RTSP(48010)"));
    check_ports(&mut report, &vec![port("HTTP", 47989, Some("in use")), port("RTSP", 48010, None)], 1);
    assert_eq!(
        last(&report),
        (
            "Ports",
            CheckOutcome::Failed,
            "  Port conflicts detected:\n    HTTP port 47989: in use\n  Available ports: RTSP(48010)"
        )
    );
}

#[test]
fn host_checks_pass_warn_or_fail() {
    let mut report = HealthReport::new();
    check_xwayland(&mut report, &Some("/usr/bin/Xwayland".to_owned()), 1);
    assert_eq!(last(&report), ("Xwayland", CheckOutcome::Passed, "/usr/bin/Xwayland"));
    check_dbus(&mut report, &BusProbe::Connected(None), 1);
    assert_eq!(last(&report), ("D-Bus", CheckOutcome::Passed, "unset"));
    check_xdg_runtime(&mut report, &RuntimeProbe::Writable("/run/user/1".to_owned()), 1);
    assert_eq!(last(&report), ("Runtime dir", CheckOutcome::Passed, "/run/user/1"));
    check_uinput(&mut report, &None, 1);
    assert_eq!(last(&report), ("uinput", CheckOutcome::Passed, "Writable"));
    check_uhid(&mut report, &None, 1);
    assert_eq!(last(&report), ("uhid", CheckOutcome::Passed, "Writable"));
    check_wsi_layer(&mut report, true, true, 1);
    assert_eq!(last(&report).1, CheckOutcome::Passed);

    check_uinput(&mut report, &Some("e".to_owned()), 1);
    assert_eq!(last(&report).1, CheckOutcome::Warning);
    check_uhid(&mut report, &Some("e".to_owned()), 1);
    assert!(last(&report).2.starts_with("  Cannot access /dev/uhid: e\n"));
    check_wsi_layer(&mut report, false, true, 1);
    assert!(last(&report).2.starts_with("  WSI layer manifest not found.\n"));
    check_xwayland(&mut report, &None, 1);
    assert!(last(&report).2.starts_with("  Xwayland not found in PATH.\n"));
    assert!(report.all_fatal_passed);

    check_dbus(&mut report, &BusProbe::Failed("e".to_owned()), 1);
    assert!(last(&report).2.starts_with("  Cannot connect to D-Bus session bus: e\n"));
    check_xdg_runtime(&mut report, &RuntimeProbe::Unset, 1);
    assert!(last(&report).2.starts_with("  XDG_RUNTIME_DIR is not set.\n"));
    check_xdg_runtime(&mut report, &RuntimeProbe::NotDirectory("/x".to_owned()), 1);
    assert!(last(&report).2.starts_with("  XDG_RUNTIME_DIR (/x) is not a directory.\n"));
    let unwritable = RuntimeProbe::Unwritable { dir: "/x".to_owned(), error: "e".to_owned() };
    check_xdg_runtime(&mut report, &unwritable, 1);
    assert!(last(&report).2.starts_with("  Cannot write to XDG_RUNTIME_DIR (/x): e\n"));
    assert!(!report.all_fatal_passed);
}

fn fine_dirs() -> DirsProbe {
    DirsProbe {
        state_dir: "/home/u/.local/share/moonshine".to_owned(),
        cert_dir: Some("/etc/moonshine".to_owned()),
        dirs: vec![DirProbe { label: "state".to_owned(), path: "/s".to_owned(), state: DirState::Fine }],
    }
}

#[test]
fn directories_are_reported_with_what_is_wrong() {
    let mut report = HealthReport::new();
    check_dirs(&mut report, &fine_dirs(), 1);
    assert_eq!(
        last(&report),
        ("Config dirs", CheckOutcome::Passed, "/home/u/.local/share/moonshine, /etc/moonshine")
    );
    let bad = |label: &str, state| DirProbe { label: label.to_owned(), path: "/p".to_owned(), state };
    let dirs = vec![
        bad("a", DirState::Unwritable("e".to_owned())),
        bad("b", DirState::Fine),
        bad("c", DirState::Uncreatable("e".to_owned())),
        bad("d", DirState::NoParent),
    ];
    check_dirs(&mut report, &DirsProbe { dirs, ..fine_dirs() }, 1);
    assert_eq!(
        last(&report),
        (
            "Config dirs",
            CheckOutcome::Warning,
            "  Directory issues:\n    a /p: e\n    c /p does not exist and cannot be created (parent not \
             writable): e\n    d /p has no parent directory\n  Check permissions."
        )
    );
}

#[test]
fn directories_and_groups_have_stand_ins() {
    assert!(matches!(dir_state(true, true, None), DirState::Fine));
    assert!(matches!(dir_state(true, false, Some("e".to_owned())), DirState::Unwritable(e) if e == "e"));
    assert!(matches!(dir_state(false, true, Some("e".to_owned())), DirState::Uncreatable(e) if e == "e"));
    assert!(matches!(dir_state(false, true, None), DirState::Fine));
    assert!(matches!(dir_state(false, false, None), DirState::NoParent));
    assert_eq!(state_dir(Some("/home/u/.local/share")), "/home/u/.local/share/moonshine");
    assert_eq!(state_dir(None), "/var/lib/moonshine");
    assert_eq!(group_name_of(Some(44), Some("video")), "video");
    assert_eq!(group_name_of(Some(44), None), "gid 44");
    assert_eq!(group_name_of(None, None), "unknown");
}

fn host(gpu: GpuObservations) -> HostObservations {
    HostObservations {
        gpu,
        xwayland: Some("/usr/bin/Xwayland".to_owned()),
        bus: BusProbe::Connected(Some("unix:path=/run/user/1/bus".to_owned())),
        runtime: RuntimeProbe::Writable("/run/user/1".to_owned()),
        config: Some(ConfigObservations { ports: vec![], dirs: fine_dirs() }),
        uinput: None,
        uhid: None,
        wsi_manifest: true,
        wsi_library: true,
        times: HostTimes { xwayland: 7, dbus: 8, runtime: 9, ports: 10, uinput: 11, uhid: 12, wsi: 13, dirs: 14 },
        duration: 99,
    }
}

#[test]
fn a_healthy_host_passes_every_check() {
    let report = run_healthcheck(&host(gpu()));
    assert!(report.all_fatal_passed);
    let names: Vec<&str> = report.checks.iter().map(|c| c.name.as_str()).collect();
    assert_eq!(
        names,
        vec![
            "Render nodes", "Render access", "EGL/GLES", "Vulkan", "Codecs", "DMA-BUF", "Xwayland", "D-Bus",
            "Runtime dir", "Ports", "uinput", "uhid", "WSI layer", "Config dirs",
        ]
    );
    assert!(report.checks.iter().all(|c| c.outcome == CheckOutcome::Passed));
    let times: Vec<u64> = report.checks.iter().map(|c| c.duration_ms).collect();
    assert_eq!(times, (1..=14).collect::<Vec<u64>>());
    assert_eq!(report.duration, 99);
    assert_eq!(report.gpu_name, "RTX");
    assert!(report.hdr_supported && report.dma_buf_supported);

    let without = run_healthcheck(&HostObservations { config: None, ..host(gpu()) });
    assert_eq!(without.checks.len(), 12);
}

#[test]
fn the_probe_tells_what_the_full_check_tells() {
    let seen = GpuObservations {
        vulkan: VulkanProbe::Found(VulkanDevice { av1: false, extensions: Ok((true, false)), ..device() }),
        ..gpu()
    };
    let probed = probe_capabilities(&seen);
    let report = run_healthcheck(&host(seen));
    assert_eq!(probed.supported_codecs, report.supported_codecs);
    assert_eq!(probed.hdr_supported, report.hdr_supported);
    assert_eq!(probed.dma_buf_supported, report.dma_buf_supported);
    assert_eq!(probed.gpu_name, report.gpu_name);
    assert!(!probed.dma_buf_supported);
    let unnamed = GpuObservations { vulkan: VulkanProbe::Failed("e".to_owned()), ..gpu() };
    assert_eq!(probe_capabilities(&unnamed).gpu_name, "nvidia");
}

#[test]
fn the_node_to_open_is_the_one_that_is_checked() {
    let none = None;
    let wanted = Some("intel".to_owned());
    assert_eq!(node_to_open(&none, &none, false, &two_cards()), Some("/dev/dri/renderD129".to_owned()));
    assert_eq!(node_to_open(&none, &wanted, false, &two_cards()), Some("/dev/dri/renderD128".to_owned()));
    assert_eq!(node_to_open(&none, &wanted, false, &DriListing::Missing), None);
}

#[test]
fn rendering_falls_back_to_the_first_node() {
    let opened = NodeAccess { error: None, group: "render".to_owned() };
    let refused = NodeAccess { error: Some("Permission denied".to_owned()), group: "render".to_owned() };
    let chosen = || Some("/dev/dri/renderD129".to_owned());
    let first = Some("/dev/dri/renderD128".to_owned());
    assert_eq!(node_to_render(chosen(), &opened, &two_cards()), chosen());
    assert_eq!(node_to_render(chosen(), &refused, &two_cards()), first);
    assert_eq!(node_to_render(None, &opened, &two_cards()), first);
    assert_eq!(node_to_render(chosen(), &refused, &DriListing::Missing), None);
}
