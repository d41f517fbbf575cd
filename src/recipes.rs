use vstd::prelude::*;
use crate::config::{Language, LanguageView, OsConfig};
use crate::text::{same_text, texts};

verus! {

/// The operating-system token that selects the Alpine partition of the table.
pub open spec fn is_alpine(os_type: Seq<char>) -> bool {
    os_type == "alpine"@
}

/// Base image for the requested operating system. An unrecognised family
/// falls back to the default Debian-family release.
pub open spec fn os_image(os_type: Seq<char>, version: Seq<char>) -> Seq<char> {
    if os_type == "ubuntu"@ {
        "ubuntu:"@ + version
    } else if os_type == "debian"@ {
        "debian:"@ + version
    } else if is_alpine(os_type) {
        "alpine:latest"@
    } else {
        "ubuntu:22.04"@
    }
}

/// Package-manager command. Every family but Alpine uses the Debian idiom.
pub open spec fn package_manager(os_type: Seq<char>) -> Seq<char> {
    if is_alpine(os_type) { "apk"@ } else { "apt-get"@ }
}

/// Package index refresh command.
pub open spec fn update_command(os_type: Seq<char>) -> Seq<char> {
    if is_alpine(os_type) { "apk update"@ } else { "apt-get update"@ }
}

/// Install verb, with its flags.
pub open spec fn install_verb(os_type: Seq<char>) -> Seq<char> {
    if is_alpine(os_type) { "add"@ } else { "install -y"@ }
}

/// Package cache that is removed after an install.
pub open spec fn cache_path(os_type: Seq<char>) -> Seq<char> {
    if is_alpine(os_type) { "/var/cache/apk/*"@ } else { "/var/lib/apt/lists/*"@ }
}

/// `    <manager> <verb> <packages> && \`
pub open spec fn install_line(os_type: Seq<char>, packages: Seq<char>) -> Seq<char> {
    "    "@ + package_manager(os_type) + " "@ + install_verb(os_type) + " "@ + packages + " && \\"@
}

/// `RUN <update> && \`
pub open spec fn update_line(os_type: Seq<char>) -> Seq<char> {
    "RUN "@ + update_command(os_type) + " && \\"@
}

/// Toolchain flag handed to the Rust installer.
pub open spec fn toolchain_flag(version: Seq<char>) -> Seq<char> {
    if version == "nightly"@ { "--default-toolchain nightly"@ } else { ""@ }
}

/// The Rust installer invocation for the requested version.
pub open spec fn rustup_line(version: Seq<char>) -> Seq<char> {
    "    sh rustup-init.sh -y "@ + toolchain_flag(version) + " && \\"@
}

pub open spec fn python_lines(os_type: Seq<char>, version: Seq<char>) -> Seq<Seq<char>> {
    if is_alpine(os_type) {
        seq![
            update_line(os_type),
            install_line(os_type, "python3 py3-pip"@),
            "    rm -rf /var/cache/apk/*"@,
        ]
    } else {
        seq![
            update_line(os_type),
            install_line(os_type, "software-properties-common"@),
            "    add-apt-repository ppa:deadsnakes/ppa -y && \\"@,
            "    "@ + package_manager(os_type) + " update && \\"@,
            install_line(os_type, "python"@ + version + " python"@ + version + "-pip"@),
            "    rm -rf /var/lib/apt/lists/*"@,
        ]
    }
}

pub open spec fn nodejs_lines(os_type: Seq<char>, version: Seq<char>) -> Seq<Seq<char>> {
    if is_alpine(os_type) {
        seq![
            update_line(os_type),
            install_line(os_type, "nodejs npm"@),
            "    rm -rf /var/cache/apk/*"@,
        ]
    } else {
        seq![
            update_line(os_type),
            install_line(os_type, "curl"@),
            "    curl -fsSL https://deb.nodesource.com/setup_"@ + version
                + ".x -o nodesource_setup.sh && \\"@,
            "    bash nodesource_setup.sh && \\"@,
            install_line(os_type, "nodejs"@),
            "    rm nodesource_setup.sh && \\"@,
            "    rm -rf /var/lib/apt/lists/*"@,
        ]
    }
}

pub open spec fn rust_build_tools(os_type: Seq<char>) -> Seq<char> {
    if is_alpine(os_type) { "curl gcc musl-dev"@ } else { "curl build-essential"@ }
}

/// The line that puts the Rust toolchain on the search path.
pub open spec fn cargo_path_line() -> Seq<char> {
    "ENV PATH=\"/root/.cargo/bin:${PATH}\""@
}

pub open spec fn rust_lines(os_type: Seq<char>, version: Seq<char>) -> Seq<Seq<char>> {
    seq![
        update_line(os_type),
        install_line(os_type, rust_build_tools(os_type)),
        "    curl --proto '=https' --tlsv1.2 -sSf https://sh.rustup.rs -o rustup-init.sh && \\"@,
        rustup_line(version),
        "    rm rustup-init.sh && \\"@,
        "    rm -rf "@ + cache_path(os_type),
        cargo_path_line(),
    ]
}

/// Install instructions for one language; empty for an unknown name.
pub open spec fn language_lines(lang: LanguageView, os_type: Seq<char>) -> Seq<Seq<char>> {
    if lang.name == "python"@ {
        python_lines(os_type, lang.version)
    } else if lang.name == "nodejs"@ {
        nodejs_lines(os_type, lang.version)
    } else if lang.name == "rust"@ {
        rust_lines(os_type, lang.version)
    } else {
        Seq::empty()
    }
}

/// Install instructions for the SSH daemon, with root login by password.
pub open spec fn ssh_install_lines(os_type: Seq<char>) -> Seq<Seq<char>> {
    if is_alpine(os_type) {
        seq![
            "RUN apk update && \\"@,
            "    apk add --no-cache openssh && \\"@,
            "    ssh-keygen -A && \\"@,
            "    sed -i \"s/#PermitRootLogin.*/PermitRootLogin yes/\" /etc/ssh/sshd_config && \\"@,
            "    sed -i \"s/#PasswordAuthentication.*/PasswordAuthentication yes/\" /etc/ssh/sshd_config"@,
        ]
    } else {
        seq![
            "RUN apt-get update && \\"@,
            "    DEBIAN_FRONTEND=noninteractive apt-get install -y openssh-server && \\"@,
            "    mkdir -p /var/run/sshd && \\"@,
            "    sed -i \"s/#\\?PermitRootLogin.*/PermitRootLogin yes/\" /etc/ssh/sshd_config && \\"@,
            "    sed -i \"s/#\\?PasswordAuthentication.*/PasswordAuthentication yes/\" /etc/ssh/sshd_config && \\"@,
            "    rm -rf /var/lib/apt/lists/*"@,
        ]
    }
}

} // verus!

verus! {

fn idiom_manager(alpine: bool) -> (r: &'static str)
    ensures
        r@ == (if alpine { "apk"@ } else { "apt-get"@ }),
{
    if alpine { "apk" } else { "apt-get" }
}

fn idiom_update(alpine: bool) -> (r: &'static str)
    ensures
        r@ == (if alpine { "apk update"@ } else { "apt-get update"@ }),
{
    if alpine { "apk update" } else { "apt-get update" }
}

fn idiom_verb(alpine: bool) -> (r: &'static str)
    ensures
        r@ == (if alpine { "add"@ } else { "install -y"@ }),
{
    if alpine { "add" } else { "install -y" }
}

fn idiom_cache(alpine: bool) -> (r: &'static str)
    ensures
        r@ == (if alpine { "/var/cache/apk/*"@ } else { "/var/lib/apt/lists/*"@ }),
{
    if alpine { "/var/cache/apk/*" } else { "/var/lib/apt/lists/*" }
}

fn update_text(os_type: &str, alpine: bool) -> (r: String)
    requires
        alpine == is_alpine(os_type@),
    ensures
        r@ == update_line(os_type@),
{
    String::from_str("RUN ").concat(idiom_update(alpine)).concat(" && \\")
}

fn install_text(os_type: &str, alpine: bool, packages: &str) -> (r: String)
    requires
        alpine == is_alpine(os_type@),
    ensures
        r@ == install_line(os_type@, packages@),
{
    String::from_str("    ")
        .concat(idiom_manager(alpine))
        .concat(" ")
        .concat(idiom_verb(alpine))
        .concat(" ")
        .concat(packages)
        .concat(" && \\")
}

/// Base image reference for the requested operating system.
pub fn get_os_image(os: &OsConfig) -> (r: String)
    ensures
        r@ == os_image(os.os_type@, os.version@),
{
    if same_text(os.os_type.as_str(), "ubuntu") {
        String::from_str("ubuntu:").concat(os.version.as_str())
    } else if same_text(os.os_type.as_str(), "debian") {
        String::from_str("debian:").concat(os.version.as_str())
    } else if same_text(os.os_type.as_str(), "alpine") {
        String::from_str("alpine:latest")
    } else {
        String::from_str("ubuntu:22.04")
    }
}

/// Install instructions for the SSH daemon on the given operating system.
pub fn get_ssh_install_commands(os_type: &str) -> (r: Vec<String>)
    ensures
        texts(r@) == ssh_install_lines(os_type@),
{
    let mut v: Vec<String> = Vec::new();
    if same_text(os_type, "alpine") {
        v.push(String::from_str("RUN apk update && \\"));
        v.push(String::from_str("    apk add --no-cache openssh && \\"));
        v.push(String::from_str("    ssh-keygen -A && \\"));
        v.push(String::from_str(
            "    sed -i \"s/#PermitRootLogin.*/PermitRootLogin yes/\" /etc/ssh/sshd_config && \\",
        ));
        v.push(String::from_str(
            "    sed -i \"s/#PasswordAuthentication.*/PasswordAuthentication yes/\" /etc/ssh/sshd_config",
        ));
    } else {
        v.push(String::from_str("RUN apt-get update && \\"));
        v.push(String::from_str(
            "    DEBIAN_FRONTEND=noninteractive apt-get install -y openssh-server && \\",
        ));
        v.push(String::from_str("    mkdir -p /var/run/sshd && \\"));
        v.push(String::from_str(
            "    sed -i \"s/#\\?PermitRootLogin.*/PermitRootLogin yes/\" /etc/ssh/sshd_config && \\",
        ));
        v.push(String::from_str(
            "    sed -i \"s/#\\?PasswordAuthentication.*/PasswordAuthentication yes/\" /etc/ssh/sshd_config && \\",
        ));
        v.push(String::from_str("    rm -rf /var/lib/apt/lists/*"));
    }
    assert(texts(v@) =~= ssh_install_lines(os_type@));
    v
}

fn python_commands(os_type: &str, alpine: bool, version: &str) -> (r: Vec<String>)
    requires
        alpine == is_alpine(os_type@),
    ensures
        texts(r@) == python_lines(os_type@, version@),
{
    let mut v: Vec<String> = Vec::new();
    v.push(update_text(os_type, alpine));
    if alpine {
        v.push(install_text(os_type, alpine, "python3 py3-pip"));
        v.push(String::from_str("    rm -rf /var/cache/apk/*"));
    } else {
        v.push(install_text(os_type, alpine, "software-properties-common"));
        v.push(String::from_str("    add-apt-repository ppa:deadsnakes/ppa -y && \\"));
        v.push(String::from_str("    ").concat(idiom_manager(alpine)).concat(" update && \\"));
        let packages = String::from_str("python")
            .concat(version)
            .concat(" python")
            .concat(version)
            .concat("-pip");
        v.push(install_text(os_type, alpine, packages.as_str()));
        v.push(String::from_str("    rm -rf /var/lib/apt/lists/*"));
    }
    assert(texts(v@) =~= python_lines(os_type@, version@));
    v
}

fn nodejs_commands(os_type: &str, alpine: bool, version: &str) -> (r: Vec<String>)
    requires
        alpine == is_alpine(os_type@),
    ensures
        texts(r@) == nodejs_lines(os_type@, version@),
{
    let mut v: Vec<String> = Vec::new();
    v.push(update_text(os_type, alpine));
    if alpine {
        v.push(install_text(os_type, alpine, "nodejs npm"));
        v.push(String::from_str("    rm -rf /var/cache/apk/*"));
    } else {
        v.push(install_text(os_type, alpine, "curl"));
        v.push(
            String::from_str("    curl -fsSL https://deb.nodesource.com/setup_")
                .concat(version)
                .concat(".x -o nodesource_setup.sh && \\"),
        );
        v.push(String::from_str("    bash nodesource_setup.sh && \\"));
        v.push(install_text(os_type, alpine, "nodejs"));
        v.push(String::from_str("    rm nodesource_setup.sh && \\"));
        v.push(String::from_str("    rm -rf /var/lib/apt/lists/*"));
    }
    assert(texts(v@) =~= nodejs_lines(os_type@, version@));
    v
}

fn rust_commands(os_type: &str, alpine: bool, version: &str) -> (r: Vec<String>)
    requires
        alpine == is_alpine(os_type@),
    ensures
        texts(r@) == rust_lines(os_type@, version@),
{
    let flag = if same_text(version, "nightly") { "--default-toolchain nightly" } else { "" };
    let tools = if alpine { "curl gcc musl-dev" } else { "curl build-essential" };
    let mut v: Vec<String> = Vec::new();
    v.push(update_text(os_type, alpine));
    v.push(install_text(os_type, alpine, tools));
    v.push(String::from_str(
        "    curl --proto '=https' --tlsv1.2 -sSf https://sh.rustup.rs -o rustup-init.sh && \\",
    ));
    v.push(String::from_str("    sh rustup-init.sh -y ").concat(flag).concat(" && \\"));
    v.push(String::from_str("    rm rustup-init.sh && \\"));
    v.push(String::from_str("    rm -rf ").concat(idiom_cache(alpine)));
    v.push(String::from_str("ENV PATH=\"/root/.cargo/bin:${PATH}\""));
    assert(texts(v@) =~= rust_lines(os_type@, version@));
    v
}

/// Install instructions for one language on the given operating system.
/// An unknown language name gives no instruction at all.
pub fn get_language_install_commands(language: &Language, os_type: &str) -> (r: Vec<String>)
    ensures
        texts(r@) == language_lines(language@, os_type@),
{
    let alpine = same_text(os_type, "alpine");
    let name = language.name.as_str();
    let version = language.version.as_str();
    if same_text(name, "python") {
        python_commands(os_type, alpine, version)
    } else if same_text(name, "nodejs") {
        nodejs_commands(os_type, alpine, version)
    } else if same_text(name, "rust") {
        rust_commands(os_type, alpine, version)
    } else {
        let v: Vec<String> = Vec::new();
        assert(texts(v@) =~= Seq::<Seq<char>>::empty());
        v
    }
}

} // verus!
