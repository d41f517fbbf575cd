use vstd::prelude::*;
use crate::config::{EnvironmentConfig, EnvironmentView, Language, LanguageView};
use crate::recipes::{
    get_language_install_commands, get_os_image, get_ssh_install_commands, language_lines,
    os_image, ssh_install_lines,
};
use crate::text::{decimal, decimal_text, join_lines, join_text, texts};

verus! {

/// The labelled block of one language: a header comment, its install
/// instructions and a blank line; nothing at all for an unknown language.
pub open spec fn language_block(lang: LanguageView, os_type: Seq<char>) -> Seq<Seq<char>> {
    let cmds = language_lines(lang, os_type);
    if cmds.len() == 0 {
        Seq::empty()
    } else {
        seq!["# Install "@ + lang.name + " "@ + lang.version] + cmds + seq![Seq::empty()]
    }
}

/// The blocks of all languages, in the order they were requested.
pub open spec fn language_blocks(langs: Seq<LanguageView>, os_type: Seq<char>) -> Seq<Seq<char>>
    decreases langs.len(),
{
    if langs.len() == 0 {
        Seq::empty()
    } else {
        language_blocks(langs.drop_last(), os_type) + language_block(langs.last(), os_type)
    }
}

/// The script that sets the root password from `ROOT_PASSWORD` at start,
/// then runs the container's command.
pub open spec fn entrypoint_lines() -> Seq<Seq<char>> {
    seq![
        "# Create entrypoint script to set password securely"@,
        "RUN echo '#!/bin/sh' > /entrypoint.sh && \\"@,
        "    echo 'if [ -n \"$ROOT_PASSWORD\" ]; then' >> /entrypoint.sh && \\"@,
        "    echo '  echo \"root:$ROOT_PASSWORD\" | chpasswd' >> /entrypoint.sh && \\"@,
        "    echo 'fi' >> /entrypoint.sh && \\"@,
        "    echo 'exec \"$@\"' >> /entrypoint.sh && \\"@,
        "    chmod +x /entrypoint.sh"@,
    ]
}

/// `EXPOSE <port>`
pub open spec fn expose_line(port: u16) -> Seq<char> {
    "EXPOSE "@ + decimal(port as nat)
}

pub open spec fn entrypoint_directive() -> Seq<char> {
    "ENTRYPOINT [\"/entrypoint.sh\"]"@
}

pub open spec fn sshd_command() -> Seq<char> {
    "CMD [\"/usr/sbin/sshd\", \"-D\"]"@
}

pub open spec fn shell_command() -> Seq<char> {
    "CMD [\"/bin/bash\"]"@
}

/// The remote-shell section: daemon install, exposed port, entrypoint.
pub open spec fn ssh_block(os_type: Seq<char>, port: u16) -> Seq<Seq<char>> {
    seq!["# Install and configure SSH server"@] + ssh_install_lines(os_type)
        + seq![Seq::empty(), expose_line(port), Seq::empty()]
        + entrypoint_lines()
        + seq![Seq::empty(), entrypoint_directive(), Seq::empty()]
}

/// The base-image directive.
pub open spec fn from_line(c: EnvironmentView) -> Seq<char> {
    "FROM "@ + os_image(c.os_type, c.os_version)
}

pub open spec fn head_lines(c: EnvironmentView) -> Seq<Seq<char>> {
    seq![from_line(c), Seq::empty(), "WORKDIR /app"@, Seq::empty()]
}

pub open spec fn shell_lines(c: EnvironmentView) -> Seq<Seq<char>> {
    if c.shell_on() {
        ssh_block(c.os_type, c.ssh->Some_0.port)
    } else {
        Seq::empty()
    }
}

pub open spec fn tail_lines(c: EnvironmentView) -> Seq<Seq<char>> {
    seq![
        "# Copy application files"@,
        "# COPY . ."@,
        Seq::empty(),
        "# Set default command"@,
        if c.shell_on() { sshd_command() } else { shell_command() },
    ]
}

/// Every line of the generated build script, in order.
pub open spec fn dockerfile_lines(c: EnvironmentView) -> Seq<Seq<char>> {
    head_lines(c) + language_blocks(c.languages, c.os_type) + shell_lines(c) + tail_lines(c)
}

/// The generated build script.
pub open spec fn dockerfile_text(c: EnvironmentView) -> Seq<char> {
    join_lines(dockerfile_lines(c))
}

fn push_entrypoint(lines: &mut Vec<String>)
    ensures
        texts(final(lines)@) == texts(old(lines)@) + entrypoint_lines(),
{
    let ghost before = lines@;
    lines.push(String::from_str("# Create entrypoint script to set password securely"));
    lines.push(String::from_str("RUN echo '#!/bin/sh' > /entrypoint.sh && \\"));
    lines.push(String::from_str(
        "    echo 'if [ -n \"$ROOT_PASSWORD\" ]; then' >> /entrypoint.sh && \\",
    ));
    lines.push(String::from_str(
        "    echo '  echo \"root:$ROOT_PASSWORD\" | chpasswd' >> /entrypoint.sh && \\",
    ));
    lines.push(String::from_str("    echo 'fi' >> /entrypoint.sh && \\"));
    lines.push(String::from_str("    echo 'exec \"$@\"' >> /entrypoint.sh && \\"));
    lines.push(String::from_str("    chmod +x /entrypoint.sh"));
    assert(texts(lines@) =~= texts(before) + entrypoint_lines());
}

fn push_ssh_block(lines: &mut Vec<String>, os_type: &str, port: u16)
    ensures
        texts(final(lines)@) == texts(old(lines)@) + ssh_block(os_type@, port),
{
    let ghost before = lines@;
    lines.push(String::from_str("# Install and configure SSH server"));
    let mut cmds = get_ssh_install_commands(os_type);
    let ghost cmd_view = cmds@;
    lines.append(&mut cmds);
    lines.push(String::new());
    lines.push(String::from_str("EXPOSE ").concat(decimal_text(port).as_str()));
    lines.push(String::new());
    let ghost mid = lines@;
    assert(texts(mid) =~= texts(before) + seq!["# Install and configure SSH server"@]
        + ssh_install_lines(os_type@) + seq![Seq::empty(), expose_line(port), Seq::empty()]);
    push_entrypoint(lines);
    let ghost with_entry = lines@;
    lines.push(String::new());
    lines.push(String::from_str("ENTRYPOINT [\"/entrypoint.sh\"]"));
    lines.push(String::new());
    assert(texts(lines@) =~= texts(with_entry) + seq![Seq::empty(), entrypoint_directive(), Seq::empty()]);
    assert(texts(lines@) =~= texts(before) + ssh_block(os_type@, port));
}

/// Builds the script for an environment description: the base image, the
/// working directory, one labelled block per known language in the order
/// given, the remote-shell section when it is enabled, and the default
/// command, joined by newlines.
pub fn generate_dockerfile(config: &EnvironmentConfig) -> (r: String)
    ensures
        r@ == dockerfile_text(config@),
{
    let ghost c = config@;
    let mut lines: Vec<String> = Vec::new();
    lines.push(String::from_str("FROM ").concat(get_os_image(&config.os).as_str()));
    lines.push(String::new());
    lines.push(String::from_str("WORKDIR /app"));
    lines.push(String::new());
    assert(texts(lines@) =~= head_lines(c));

    let os_type = config.os.os_type.as_str();
    let mut i: usize = 0;
    while i < config.languages.len()
        invariant
            i <= config.languages.len(),
            c == config@,
            os_type@ == c.os_type,
            texts(lines@) == head_lines(c) + language_blocks(c.languages.take(i as int), c.os_type),
        decreases config.languages.len() - i,
    {
        let language: &Language = &config.languages[i];
        let ghost before = lines@;
        let mut cmds = get_language_install_commands(language, os_type);
        proof {
            assert(c.languages[i as int] == language@);
            assert(c.languages.take(i + 1).drop_last() =~= c.languages.take(i as int));
        }
        if cmds.len() > 0 {
            lines.push(
                String::from_str("# Install ")
                    .concat(language.name.as_str())
                    .concat(" ")
                    .concat(language.version.as_str()),
            );
            lines.append(&mut cmds);
            lines.push(String::new());
        }
        assert(texts(lines@) =~= texts(before) + language_block(language@, c.os_type));
        i = i + 1;
    }
    assert(c.languages.take(config.languages.len() as int) =~= c.languages);

    let ghost after_langs = lines@;
    let mut shell_on = false;
    match &config.ssh {
        Some(ssh) => {
            if ssh.enabled {
                push_ssh_block(&mut lines, os_type, ssh.port);
                shell_on = true;
            }
        },
        None => {},
    }
    assert(texts(lines@) =~= texts(after_langs) + shell_lines(c));
    assert(shell_on == c.shell_on());

    let ghost before_tail = lines@;
    lines.push(String::from_str("# Copy application files"));
    lines.push(String::from_str("# COPY . ."));
    lines.push(String::new());
    lines.push(String::from_str("# Set default command"));
    if shell_on {
        lines.push(String::from_str("CMD [\"/usr/sbin/sshd\", \"-D\"]"));
    } else {
        lines.push(String::from_str("CMD [\"/bin/bash\"]"));
    }
    assert(texts(lines@) =~= texts(before_tail) + tail_lines(c));
    assert(texts(lines@) =~= dockerfile_lines(c));
    join_text(&lines)
}

} // verus!
