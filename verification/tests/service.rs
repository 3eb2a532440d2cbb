use moonshine::application::{ApplicationConfig, ApplicationContext};
use moonshine::service::{
    end_stops_session, spawn, start_transient_service, stop_unit, wait_for_job_signal, wait_for_unit_terminal_state,
    LaunchStep, MonitorStep, ServiceEvent, StopStep,
};

const UNIT: &str = "org.freedesktop.systemd1.Unit";

fn path(p: &str) -> ServiceEvent {
    ServiceEvent::Path(p.to_string())
}

fn state(s: &str) -> ServiceEvent {
    ServiceEvent::State(s.to_string())
}

fn job(p: &str, result: &str) -> ServiceEvent {
    ServiceEvent::JobRemoved { path: p.to_string(), result: result.to_string() }
}

fn removed(id: &str) -> ServiceEvent {
    ServiceEvent::UnitRemoved { id: id.to_string() }
}

fn changed(interface: &str, state: Option<&str>) -> ServiceEvent {
    ServiceEvent::PropertiesChanged {
        interface: interface.to_string(),
        active_state: state.map(|s| s.to_string()),
    }
}

fn stop(events: Vec<ServiceEvent>) -> StopStep {
    events.iter().fold(StopStep::Subscribe, |step, event| stop_unit(step, "u", event))
}

fn launch(events: Vec<ServiceEvent>) -> LaunchStep {
    events.iter().fold(LaunchStep::Connect, start_transient_service)
}

fn monitor(events: Vec<ServiceEvent>) -> MonitorStep {
    events
        .iter()
        .fold(MonitorStep::SubscribeRemovals, |step, event| wait_for_unit_terminal_state(step, "u", event))
}

fn started() -> Vec<ServiceEvent> {
    vec![ServiceEvent::Done, ServiceEvent::Done, ServiceEvent::Failed, ServiceEvent::Done, ServiceEvent::Done, path("/job/7")]
}

fn watched() -> Vec<ServiceEvent> {
    let mut events = started();
    events.extend([job("/job/7", "done"), path("/unit"), state("active"), ServiceEvent::Done]);
    events
}

fn and(mut events: Vec<ServiceEvent>, more: Vec<ServiceEvent>) -> Vec<ServiceEvent> {
    events.extend(more);
    events
}

#[test]
fn only_the_job_that_is_waited_for_counts() {
    assert_eq!(wait_for_job_signal("/job/7", &job("/job/7", "done")), Some(true));
    assert_eq!(wait_for_job_signal("/job/7", &job("/job/7", "failed")), Some(false));
    assert_eq!(wait_for_job_signal("/job/7", &job("/job/8", "failed")), None);
    assert_eq!(wait_for_job_signal("/job/7", &ServiceEvent::TimedOut), Some(false));
    assert_eq!(wait_for_job_signal("/job/7", &ServiceEvent::Closed), Some(false));
    assert_eq!(wait_for_job_signal("/job/7", &ServiceEvent::Unreadable), Some(false));
    assert_eq!(wait_for_job_signal("/job/7", &ServiceEvent::Done), None);
}

#[test]
fn a_unit_is_stopped_once_it_is_removed() {
    let awaited = || vec![ServiceEvent::Done, path("/job/1"), job("/job/2", "failed"), job("/job/1", "done")];
    assert!(matches!(stop(vec![]), StopStep::Subscribe));
    assert!(matches!(stop(vec![ServiceEvent::Failed]), StopStep::Failed));
    assert!(matches!(stop(vec![ServiceEvent::Done]), StopStep::Stop));
    assert!(matches!(stop(vec![ServiceEvent::Done, ServiceEvent::Failed]), StopStep::Failed));
    assert!(matches!(stop(awaited()), StopStep::AwaitRemoval));
    assert!(matches!(stop(and(awaited(), vec![removed("v")])), StopStep::AwaitRemoval));
    assert!(matches!(stop(and(awaited(), vec![removed("v"), removed("u")])), StopStep::Stopped));
    assert!(matches!(stop(and(awaited(), vec![ServiceEvent::TimedOut, removed("u")])), StopStep::Failed));
    assert!(matches!(stop(vec![ServiceEvent::Done, path("/job/1"), removed("u")]), StopStep::AwaitJob { .. }));
    assert!(matches!(stop(vec![ServiceEvent::Done, path("/job/1"), job("/job/1", "canceled")]), StopStep::Failed));
}

#[test]
fn stopping_does_not_wait_forever() {
    assert_eq!(StopStep::Subscribe.timeout_secs(), None);
    assert_eq!(StopStep::AwaitJob { job: "/job/1".to_string() }.timeout_secs(), Some(2));
    assert_eq!(StopStep::AwaitRemoval.timeout_secs(), Some(2));
}

#[test]
fn a_launch_goes_up_when_the_time_is_up() {
    assert!(matches!(launch(watched()), LaunchStep::AwaitEnd { .. }));
    let up = launch(and(watched(), vec![changed(UNIT, Some("active")), ServiceEvent::TimedOut]));
    assert!(matches!(&up, LaunchStep::Launched { unit } if unit == "/unit"));
    let up = start_transient_service(up, &changed(UNIT, Some("failed")));
    assert!(matches!(up, LaunchStep::Launched { .. }));
    assert!(matches!(launch(and(watched(), vec![ServiceEvent::Closed])), LaunchStep::Launched { .. }));
    assert!(matches!(
        launch(and(watched(), vec![changed("org.freedesktop.systemd1.Service", Some("failed"))])),
        LaunchStep::AwaitEnd { .. }
    ));
}

#[test]
fn a_launch_that_fails_is_cleaned_up() {
    assert!(matches!(launch(and(watched(), vec![changed(UNIT, Some("failed"))])), LaunchStep::CleanUp));
    assert!(matches!(launch(and(watched(), vec![ServiceEvent::Unreadable])), LaunchStep::CleanUp));
    assert!(matches!(launch(and(started(), vec![job("/job/7", "failed")])), LaunchStep::CleanUp));
    assert!(matches!(launch(and(started(), vec![ServiceEvent::TimedOut])), LaunchStep::CleanUp));
    assert!(matches!(
        launch(and(started(), vec![job("/job/7", "done"), path("/unit"), state("inactive")])),
        LaunchStep::CleanUp
    ));
    assert!(matches!(
        launch(and(started(), vec![ServiceEvent::TimedOut, ServiceEvent::Done])),
        LaunchStep::Failed
    ));
    // The programs are looked for after what was left over is stopped.
    let looking = || vec![ServiceEvent::Done, ServiceEvent::Done, ServiceEvent::Done];
    assert!(matches!(launch(looking()), LaunchStep::Resolve));
    assert!(matches!(launch(and(looking(), vec![ServiceEvent::Failed])), LaunchStep::CleanUp));
}

#[test]
fn a_launch_without_a_bus_leaves_nothing_to_clean_up() {
    assert!(matches!(launch(vec![ServiceEvent::Failed]), LaunchStep::Failed));
    assert!(matches!(launch(vec![ServiceEvent::Done, ServiceEvent::Failed]), LaunchStep::Failed));
}

#[test]
fn a_watch_ends_with_its_service() {
    let subscribed = || vec![ServiceEvent::Done, ServiceEvent::Done];
    let end = |events: Vec<ServiceEvent>| match monitor(and(subscribed(), events)) {
        MonitorStep::Ended { state } => Some(state),
        _ => None,
    };
    assert_eq!(end(vec![ServiceEvent::Failed]), Some("removed".to_string()));
    assert_eq!(end(vec![state("failed")]), Some("failed".to_string()));
    assert_eq!(end(vec![state("active")]), None);
    assert_eq!(end(vec![state("active"), changed(UNIT, Some("inactive"))]), Some("inactive".to_string()));
    assert_eq!(end(vec![state("active"), changed(UNIT, Some("active"))]), None);
    assert_eq!(end(vec![state("active"), changed(UNIT, None)]), None);
    assert_eq!(end(vec![state("active"), changed("org.freedesktop.systemd1.Service", Some("failed"))]), None);
    assert_eq!(end(vec![state("active"), removed("u")]), Some("removed".to_string()));
    assert_eq!(end(vec![state("active"), removed("v")]), None);
    assert!(matches!(monitor(vec![ServiceEvent::Failed]), MonitorStep::Lost));
    assert!(matches!(
        monitor(and(subscribed(), vec![state("active"), ServiceEvent::Closed])),
        MonitorStep::Lost
    ));
}

#[test]
fn only_an_end_of_the_application_stops_the_session() {
    assert_eq!(end_stops_session(&MonitorStep::Ended { state: "failed".to_string() }), Some(true));
    assert_eq!(end_stops_session(&MonitorStep::Lost), Some(false));
    assert_eq!(end_stops_session(&MonitorStep::Watch), None);
}

fn context(socket: &str) -> ApplicationContext {
    ApplicationContext {
        unit_name: "moonshine-session.service".to_string(),
        pulse_socket_path: socket.to_string(),
        xdisplay: 3,
        wayland_display: "wayland-7".to_string(),
        hdr: false,
        extra_env: vec![],
    }
}

#[test]
fn a_launch_begins_with_a_command_and_a_directory() {
    let mut config = ApplicationConfig {
        command: vec!["/usr/bin/steam".to_string(), "-bigpicture".to_string()],
        launch_timeout_secs: 9,
        ..Default::default()
    };
    let launch = spawn(&config, &context("/run/pulse/native")).unwrap();
    assert!(matches!(launch.step, LaunchStep::Connect));
    assert_eq!(launch.unit_name, "moonshine-session.service");
    assert_eq!(launch.program, "/usr/bin/steam");
    assert_eq!(launch.args, vec!["-bigpicture".to_string()]);
    assert_eq!(launch.timeout_secs, 9);
    assert!(launch.envs.contains(&"PULSE_RUNTIME_PATH=/run/pulse".to_string()));
    assert!(spawn(&config, &context("/")).is_err());
    config.command.clear();
    assert!(spawn(&config, &context("/run/pulse/native")).is_err());
}
