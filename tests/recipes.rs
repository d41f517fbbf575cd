use container_helper::config::{Language, OsConfig};
use container_helper::recipes::{get_language_install_commands, get_os_image, get_ssh_install_commands};
use container_helper::text::{decimal_text, join_text, same_text};

#[test]
fn os_images() {
    let os = |t: &str, v: &str| OsConfig { os_type: t.to_string(), version: v.to_string() };
    assert_eq!(get_os_image(&os("ubuntu", "20.04")), "ubuntu:20.04");
    assert_eq!(get_os_image(&os("debian", "bullseye")), "debian:bullseye");
    assert_eq!(get_os_image(&os("alpine", "3.18")), "alpine:latest");
    assert_eq!(get_os_image(&os("arch", "rolling")), "ubuntu:22.04");
    assert_eq!(get_os_image(&os("Ubuntu", "20.04")), "ubuntu:22.04");
}

#[test]
fn ssh_recipes() {
    let alpine = get_ssh_install_commands("alpine");
    assert_eq!(alpine.len(), 5);
    assert_eq!(alpine[0], "RUN apk update && \\");
    let debian = get_ssh_install_commands("debian");
    assert_eq!(debian.len(), 6);
    assert_eq!(debian[5], "    rm -rf /var/lib/apt/lists/*");
}

#[test]
fn language_recipes() {
    let l = |n: &str, v: &str| Language { name: n.to_string(), version: v.to_string() };
    assert_eq!(get_language_install_commands(&l("python", "3.11"), "alpine").len(), 3);
    assert_eq!(get_language_install_commands(&l("python", "3.11"), "ubuntu").len(), 6);
    assert_eq!(get_language_install_commands(&l("nodejs", "20"), "debian").len(), 7);
    let rust = get_language_install_commands(&l("rust", "stable"), "ubuntu");
    assert_eq!(rust.len(), 7);
    assert_eq!(rust[1], "    apt-get install -y curl build-essential && \\");
    assert_eq!(rust[6], "ENV PATH=\"/root/.cargo/bin:${PATH}\"");
    assert!(get_language_install_commands(&l("go", "1.22"), "ubuntu").is_empty());
    assert!(get_language_install_commands(&l("Python", "3.11"), "ubuntu").is_empty());
}

#[test]
fn text_helpers() {
    assert_eq!(decimal_text(0), "0");
    assert_eq!(decimal_text(2222), "2222");
    assert_eq!(decimal_text(65535), "65535");
    assert_eq!(join_text(&vec!["a".to_string(), "".to_string(), "b".to_string()]), "a\n\nb");
    assert_eq!(join_text(&vec![]), "");
    assert!(same_text("alpine", "alpine"));
    assert!(!same_text("alpine", "Alpine"));
}

#[test]
fn non_nightly_rust_uses_default_channel() {
    let l = |v: &str| Language { name: "rust".to_string(), version: v.to_string() };
    for os in ["ubuntu", "alpine", "debian"] {
        let stable = get_language_install_commands(&l("stable"), os);
        for v in ["1.80", "beta", "", "Nightly"] {
            let r = get_language_install_commands(&l(v), os);
            assert_eq!(r, stable);
            assert!(r.iter().all(|line| !line.contains("--default-toolchain")));
        }
        let nightly = get_language_install_commands(&l("nightly"), os);
        assert_eq!(nightly[3], "    sh rustup-init.sh -y --default-toolchain nightly && \\");
    }
}
