use container_helper::container::{
    BindingRecord, ContainerInfo, InspectRecord, MountRecord, PortMapping, PortRecord, SummaryRecord,
};
use container_helper::facade::{
    container_detail, container_summary, detail_from_record, normalize_port_map, port_in_use,
    publishes_port,
};
use container_helper::image_build::{dockerfile_archive, on_build_event, BuildEvent, BuildStep};
use container_helper::ports::{port_key, split_port_key, strip_name_separator};

fn s(x: &str) -> String {
    x.to_string()
}

#[test]
fn strips_one_leading_separator() {
    assert_eq!(strip_name_separator("/web"), "web");
    assert_eq!(strip_name_separator("//web/a"), "/web/a");
    assert_eq!(strip_name_separator("web"), "web");
    assert_eq!(strip_name_separator("web/"), "web/");
    assert_eq!(strip_name_separator(""), "");
    assert_eq!(strip_name_separator("/"), "");
    assert_eq!(strip_name_separator("///"), "//");
}

#[test]
fn splits_port_keys() {
    assert_eq!(split_port_key("8080/tcp"), (8080, s("tcp")));
    assert_eq!(split_port_key("53/udp"), (53, s("udp")));
    assert_eq!(split_port_key("80"), (80, s("tcp")));
    assert_eq!(split_port_key("+443/tcp"), (443, s("tcp")));
    assert_eq!(split_port_key("abc/sctp"), (0, s("sctp")));
    assert_eq!(split_port_key("70000/tcp"), (0, s("tcp")));
    assert_eq!(split_port_key("65535/x/y"), (65535, s("x")));
    assert_eq!(split_port_key("22/"), (22, s("")));
}

#[test]
fn completes_port_keys() {
    assert_eq!(port_key("8080"), "8080/tcp");
    assert_eq!(port_key("53/udp"), "53/udp");
    assert_eq!(port_key(""), "/tcp");
}

#[test]
fn summary_from_record() {
    let rec = SummaryRecord {
        id: Some(s("abc123")),
        names: Some(vec![s("/web"), s("/alias")]),
        image: Some(s("nginx:latest")),
        state: Some(s("running")),
        status: Some(s("Up 2 hours")),
        created: Some(1700000000),
        ports: Some(vec![
            PortRecord { private_port: 80, public_port: Some(8080), protocol: Some(s("tcp")) },
            PortRecord { private_port: 53, public_port: None, protocol: None },
        ]),
    };
    let info = container_summary(rec);
    assert_eq!(info.id, "abc123");
    assert_eq!(info.name, "web");
    assert_eq!(info.image, "nginx:latest");
    assert_eq!(info.state, "running");
    assert_eq!(info.status, "Up 2 hours");
    assert_eq!(info.created, 1700000000);
    assert_eq!(info.ports.len(), 2);
    assert_eq!(info.ports[0].public_port, Some(8080));
    assert_eq!(info.ports[1].private_port, 53);
    assert_eq!(info.ports[1].protocol, "tcp");
}

#[test]
fn summary_from_empty_record() {
    let rec = SummaryRecord {
        id: None,
        names: None,
        image: None,
        state: None,
        status: None,
        created: None,
        ports: None,
    };
    let info = container_summary(rec);
    assert_eq!(info.id, "");
    assert_eq!(info.name, "");
    assert_eq!(info.created, 0);
    assert!(info.ports.is_empty());
}

#[test]
fn flattens_port_map() {
    let map = vec![
        BindingRecord { key: s("80/tcp"), host_ports: Some(vec![Some(s("8080")), Some(s("x")), None]) },
        BindingRecord { key: s("443/tcp"), host_ports: None },
        BindingRecord { key: s("53/udp"), host_ports: Some(vec![Some(s("5353"))]) },
    ];
    let ports = normalize_port_map(&map);
    assert_eq!(ports.len(), 4);
    assert_eq!((ports[0].private_port, ports[0].public_port, ports[0].protocol.as_str()), (80, Some(8080), "tcp"));
    assert_eq!(ports[1].public_port, None);
    assert_eq!(ports[2].public_port, None);
    assert_eq!((ports[3].private_port, ports[3].public_port, ports[3].protocol.as_str()), (53, Some(5353), "udp"));
}

fn inspect(created: Option<String>) -> InspectRecord {
    InspectRecord {
        id: Some(s("f00")),
        name: Some(s("/db")),
        image: Some(s("postgres:16")),
        status: None,
        created,
        ports: Some(vec![BindingRecord { key: s("5432/tcp"), host_ports: Some(vec![Some(s("15432"))]) }]),
        env: Some(vec![s("A=1"), s("B=2")]),
        mounts: Some(vec![MountRecord { source: Some(s("/data")), destination: Some(s("/var/lib/pg")), mode: None }]),
    }
}

#[test]
fn detail_reads_creation_time() {
    let d = container_detail(inspect(Some(s("2024-01-02T03:04:05Z"))));
    assert_eq!(d.created, 1704164645);
    assert_eq!(d.name, "db");
    assert_eq!(d.state, "unknown");
    assert_eq!(d.status, "unknown");
    assert_eq!(d.env, vec![s("A=1"), s("B=2")]);
    assert_eq!(d.mounts.len(), 1);
    assert_eq!(d.mounts[0].source, "/data");
    assert_eq!(d.mounts[0].mode, "");
    assert_eq!(d.ports[0].public_port, Some(15432));
}

#[test]
fn detail_with_unreadable_creation_time() {
    assert_eq!(container_detail(inspect(Some(s("yesterday")))).created, 0);
    assert_eq!(container_detail(inspect(None)).created, 0);
}

#[test]
fn detail_from_record_keeps_given_time() {
    let mut rec = inspect(None);
    rec.status = Some(s("exited"));
    let d = detail_from_record(rec, 42);
    assert_eq!(d.created, 42);
    assert_eq!(d.state, "exited");
}

fn info(state: &str, public: Option<u16>) -> ContainerInfo {
    ContainerInfo {
        id: s("i"),
        name: s("n"),
        image: s("img"),
        state: s(state),
        status: s(""),
        created: 0,
        ports: vec![PortMapping { private_port: 80, public_port: public, protocol: s("tcp") }],
    }
}

#[test]
fn port_use_counts_running_containers_only() {
    assert!(publishes_port(&info("exited", Some(8080)), 8080));
    assert!(!publishes_port(&info("running", None), 8080));
    assert!(!port_in_use(&vec![info("exited", Some(8080))], 8080));
    assert!(port_in_use(&vec![info("exited", Some(8080)), info("RUNNING", Some(8080))], 8080));
    assert!(!port_in_use(&vec![info("running", Some(8081))], 8080));
    assert!(!port_in_use(&vec![], 8080));
}

#[test]
fn build_stream_steps() {
    let mut logs: Vec<String> = Vec::new();
    let step = on_build_event(&mut logs, BuildEvent::Progress { stream: Some(s("Step 1/2")), error: None });
    assert!(matches!(step, BuildStep::Continue));
    let step = on_build_event(&mut logs, BuildEvent::Progress { stream: None, error: None });
    assert!(matches!(step, BuildStep::Continue));
    let step = on_build_event(&mut logs, BuildEvent::Progress { stream: Some(s("oops")), error: Some(s("no such image")) });
    match step {
        BuildStep::Failed(m) => assert_eq!(m, "Build failed: no such image"),
        BuildStep::Continue => panic!("an engine error ends the build"),
    }
    assert_eq!(logs, vec![s("Step 1/2"), s("oops")]);
    match on_build_event(&mut logs, BuildEvent::Transport(s("connection reset"))) {
        BuildStep::Failed(m) => assert_eq!(m, "connection reset"),
        BuildStep::Continue => panic!("a failed stream ends the build"),
    }
    assert_eq!(logs.len(), 2);
}

#[test]
fn names_lose_one_separator_only() {
    let mut rec = inspect(None);
    rec.name = Some(s("//db"));
    assert_eq!(container_detail(rec).name, "/db");
    let rec = SummaryRecord {
        id: None,
        names: Some(vec![s("//web")]),
        image: None,
        state: None,
        status: None,
        created: None,
        ports: None,
    };
    assert_eq!(container_summary(rec).name, "/web");
}

#[test]
fn archive_holds_the_script() {
    let script = "FROM alpine:latest\nCMD [\"/bin/bash\"]";
    let tar = dockerfile_archive(script).unwrap();
    assert_ne!(tar, script.as_bytes().to_vec());
    assert_eq!(tar.len() % 512, 0);
    assert!(tar.len() >= 512 + 512);
    assert_eq!(&tar[0..10], b"Dockerfile");
    assert_eq!(tar[10], 0);
    assert_eq!(&tar[512..512 + script.len()], script.as_bytes());
    assert_eq!(&tar[100..107], b"0000644");
    assert_eq!(dockerfile_archive(script).unwrap(), tar);
}
