use container_helper::config::{EnvironmentConfig, Language, OsConfig, SshConfig};
use container_helper::generator::generate_dockerfile;

fn lang(name: &str, version: &str) -> Language {
    Language { name: name.to_string(), version: version.to_string() }
}

fn env(os_type: &str, version: &str, languages: Vec<Language>, ssh: Option<SshConfig>) -> EnvironmentConfig {
    EnvironmentConfig {
        name: None,
        os: OsConfig { os_type: os_type.to_string(), version: version.to_string() },
        languages,
        ssh,
    }
}

#[test]
fn test_generate_dockerfile_ubuntu_python() {
    let config = EnvironmentConfig {
        name: Some("test".to_string()),
        os: OsConfig { os_type: "ubuntu".to_string(), version: "22.04".to_string() },
        languages: vec![Language { name: "python".to_string(), version: "3.11".to_string() }],
        ssh: None,
    };

    let dockerfile = generate_dockerfile(&config);
    assert!(dockerfile.contains("FROM ubuntu:22.04"));
    assert!(dockerfile.contains("python3.11"));
    assert!(dockerfile.contains("python3.11-pip"));
    assert!(dockerfile.contains("deadsnakes"));
}

#[test]
fn test_generate_dockerfile_alpine_nodejs() {
    let config = EnvironmentConfig {
        name: None,
        os: OsConfig { os_type: "alpine".to_string(), version: "latest".to_string() },
        languages: vec![Language { name: "nodejs".to_string(), version: "20".to_string() }],
        ssh: None,
    };

    let dockerfile = generate_dockerfile(&config);
    assert!(dockerfile.contains("FROM alpine:latest"));
    assert!(dockerfile.contains("apk"));
    assert!(dockerfile.contains("nodejs npm"));
}

#[test]
fn test_generate_dockerfile_multiple_languages() {
    let config = EnvironmentConfig {
        name: None,
        os: OsConfig { os_type: "debian".to_string(), version: "bookworm".to_string() },
        languages: vec![
            Language { name: "python".to_string(), version: "3.11".to_string() },
            Language { name: "rust".to_string(), version: "stable".to_string() },
        ],
        ssh: None,
    };

    let dockerfile = generate_dockerfile(&config);
    assert!(dockerfile.contains("FROM debian:bookworm"));
    assert!(dockerfile.contains("python"));
    assert!(dockerfile.contains("rustup"));
}

#[test]
fn ubuntu_python_full_text() {
    let out = generate_dockerfile(&env("ubuntu", "22.04", vec![lang("python", "3.11")], None));
    let expected = [
        "FROM ubuntu:22.04",
        "",
        "WORKDIR /app",
        "",
        "# Install python 3.11",
        "RUN apt-get update && \\",
        "    apt-get install -y software-properties-common && \\",
        "    add-apt-repository ppa:deadsnakes/ppa -y && \\",
        "    apt-get update && \\",
        "    apt-get install -y python3.11 python3.11-pip && \\",
        "    rm -rf /var/lib/apt/lists/*",
        "",
        "# Copy application files",
        "# COPY . .",
        "",
        "# Set default command",
        "CMD [\"/bin/bash\"]",
    ]
    .join("\n");
    assert_eq!(out, expected);
    assert!(out.starts_with("FROM ubuntu:22.04"));
    assert!(out.ends_with("CMD [\"/bin/bash\"]"));
    assert!(!out.ends_with('\n'));
}

#[test]
fn alpine_nodejs_block() {
    let out = generate_dockerfile(&env("alpine", "latest", vec![lang("nodejs", "20")], None));
    assert!(out.starts_with("FROM alpine:latest\n"));
    assert!(out.contains(
        "# Install nodejs 20\nRUN apk update && \\\n    apk add nodejs npm && \\\n    rm -rf /var/cache/apk/*\n"
    ));
}

#[test]
fn alpine_ignores_requested_version() {
    let out = generate_dockerfile(&env("alpine", "3.19", vec![lang("python", "3.11")], None));
    assert!(out.starts_with("FROM alpine:latest\n"));
    assert!(out.contains("    apk add python3 py3-pip && \\"));
}

#[test]
fn debian_family_base_image_verbatim() {
    let out = generate_dockerfile(&env("debian", "bookworm-slim", vec![lang("python", "3.12")], None));
    assert!(out.starts_with("FROM debian:bookworm-slim\n"));
    let out = generate_dockerfile(&env("ubuntu", "24.04", vec![lang("python", "3.12")], None));
    assert!(out.starts_with("FROM ubuntu:24.04\n"));
}

#[test]
fn unknown_os_falls_back_to_default_image_and_debian_idiom() {
    let out = generate_dockerfile(&env("fedora", "40", vec![lang("nodejs", "18")], None));
    assert!(out.starts_with("FROM ubuntu:22.04\n"));
    assert!(out.contains("https://deb.nodesource.com/setup_18.x -o nodesource_setup.sh"));
    assert!(out.contains("    apt-get install -y nodejs && \\"));
}

#[test]
fn python_then_rust_in_order() {
    let out = generate_dockerfile(&env(
        "debian",
        "bookworm",
        vec![lang("python", "3.11"), lang("rust", "stable")],
        None,
    ));
    let p = out.find("# Install python 3.11").unwrap();
    let r = out.find("# Install rust stable").unwrap();
    let installer = out.find("https://sh.rustup.rs").unwrap();
    assert!(p < r && r < installer);
    assert!(out.contains("    sh rustup-init.sh -y  && \\"));
    assert!(out.contains("ENV PATH=\"/root/.cargo/bin:${PATH}\""));
    assert!(!out.contains("--default-toolchain nightly"));
}

#[test]
fn rust_nightly_flag() {
    let out = generate_dockerfile(&env("ubuntu", "22.04", vec![lang("rust", "nightly")], None));
    assert!(out.contains("    sh rustup-init.sh -y --default-toolchain nightly && \\"));
    let out = generate_dockerfile(&env("alpine", "latest", vec![lang("rust", "1.80")], None));
    assert!(!out.contains("--default-toolchain nightly"));
    assert!(out.contains("    apk add curl gcc musl-dev && \\"));
    assert!(out.contains("    rm -rf /var/cache/apk/*\nENV PATH="));
}

#[test]
fn unknown_language_is_skipped() {
    let out = generate_dockerfile(&env("ubuntu", "22.04", vec![lang("cobol", "85")], None));
    assert!(!out.contains("cobol"));
    assert_eq!(
        out,
        "FROM ubuntu:22.04\n\nWORKDIR /app\n\n# Copy application files\n# COPY . .\n\n# Set default command\nCMD [\"/bin/bash\"]"
    );
}

#[test]
fn ssh_enabled_section() {
    let ssh = SshConfig { enabled: true, port: 2222, password: "x".to_string() };
    let out = generate_dockerfile(&env("ubuntu", "22.04", vec![lang("python", "3.11")], Some(ssh)));
    assert!(out.contains("\nEXPOSE 2222\n"));
    assert!(out.contains("\nENTRYPOINT [\"/entrypoint.sh\"]\n"));
    assert!(out.ends_with("CMD [\"/usr/sbin/sshd\", \"-D\"]"));
    assert!(out.contains("openssh-server"));
    assert!(out.contains("echo \"root:$ROOT_PASSWORD\" | chpasswd"));
    assert!(!out.contains("root:x"));
    assert!(!out.contains("x\" | chpasswd"));
}

#[test]
fn ssh_password_never_in_output() {
    let with = |p: &str| {
        let ssh = SshConfig { enabled: true, port: 22, password: p.to_string() };
        generate_dockerfile(&env("alpine", "latest", vec![lang("nodejs", "20")], Some(ssh)))
    };
    let a = with("hunter2-secret");
    let b = with("another");
    assert_eq!(a, b);
    assert!(!a.contains("hunter2-secret"));
    assert!(a.contains("\nEXPOSE 22\n"));
    assert!(a.contains("    apk add --no-cache openssh && \\"));
}

#[test]
fn ssh_disabled_adds_nothing() {
    let ssh = SshConfig { enabled: false, port: 2222, password: "pw".to_string() };
    let with_off = generate_dockerfile(&env("ubuntu", "22.04", vec![lang("python", "3.11")], Some(ssh)));
    let without = generate_dockerfile(&env("ubuntu", "22.04", vec![lang("python", "3.11")], None));
    assert_eq!(with_off, without);
    assert!(!with_off.contains("EXPOSE"));
}

#[test]
fn ssh_port_edges() {
    for (port, text) in [(0u16, "EXPOSE 0"), (7u16, "EXPOSE 7"), (65535u16, "EXPOSE 65535"), (10u16, "EXPOSE 10")] {
        let ssh = SshConfig { enabled: true, port, password: String::new() };
        let out = generate_dockerfile(&env("debian", "12", vec![lang("python", "3")], Some(ssh)));
        assert!(out.contains(&format!("\n{}\n", text)));
    }
}

#[test]
fn generation_is_deterministic() {
    let c = env("debian", "bookworm", vec![lang("python", "3.11"), lang("rust", "nightly")], None);
    assert_eq!(generate_dockerfile(&c), generate_dockerfile(&c));
}
