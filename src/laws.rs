use vstd::prelude::*;
use crate::config::{EnvironmentConfig, EnvironmentView, LanguageView};
use crate::generator::{
    dockerfile_lines, dockerfile_text, entrypoint_directive, expose_line, language_block,
    language_blocks, shell_lines, sshd_command, tail_lines, head_lines,
};
use crate::recipes::{language_lines, rust_lines, rustup_line};
use crate::text::{contains_text, join_lines};
use crate::validation::{validation_result, ValidationError};

verus! {

/// The toolchain flag that selects the nightly Rust channel.
pub open spec fn nightly_flag() -> Seq<char> {
    "--default-toolchain nightly"@
}

/// A Rust language that asks for the nightly channel.
pub open spec fn asks_nightly_rust(l: LanguageView) -> bool {
    l.name == "rust"@ && l.version == "nightly"@
}

/// The first line of a joined text, then the rest.
pub proof fn lemma_join_first(lines: Seq<Seq<char>>)
    requires
        lines.len() >= 2,
    ensures
        join_lines(lines) == lines[0] + seq!['\n'] + join_lines(lines.drop_first()),
    decreases lines.len(),
{
    let rest = lines.drop_first();
    if lines.len() > 2 {
        let front = lines.drop_last();
        lemma_join_first(front);
        assert(front.drop_first() =~= rest.drop_last());
        assert(front[0] == lines[0]);
        assert(rest.last() == lines.last());
        assert(join_lines(rest) == join_lines(rest.drop_last()) + seq!['\n'] + rest.last());
        assert(join_lines(lines) == join_lines(front) + seq!['\n'] + lines.last());
        assert(join_lines(lines) =~= lines[0] + seq!['\n'] + join_lines(rest));
    } else {
        assert(rest.len() == 1);
        assert(join_lines(rest) == rest[0]);
        assert(lines.drop_last().len() == 1);
        assert(join_lines(lines.drop_last()) == lines[0]);
        assert(join_lines(lines) =~= lines[0] + seq!['\n'] + join_lines(rest));
    }
}

/// Every line of a joined text occurs in it.
pub proof fn lemma_join_contains(lines: Seq<Seq<char>>, k: int)
    requires
        0 <= k < lines.len(),
    ensures
        contains_text(join_lines(lines), lines[k]),
    decreases lines.len(),
{
    let j = join_lines(lines);
    let n = lines[k].len() as int;
    if lines.len() == 1 {
        assert(j == lines[0]);
        assert(j.subrange(0, 0 + n) =~= lines[k]);
    } else {
        let front = join_lines(lines.drop_last());
        assert(j == front + seq!['\n'] + lines.last());
        if k == lines.len() - 1 {
            let off: int = front.len() as int + 1;
            assert(j.subrange(off, off + n) =~= lines[k]);
        } else {
            lemma_join_contains(lines.drop_last(), k);
            assert(lines.drop_last()[k] == lines[k]);
            let i = choose|i: int|
                0 <= i <= front.len() - n && #[trigger] front.subrange(i, i + n) == lines[k];
            assert(j.subrange(i, i + n) =~= front.subrange(i, i + n));
        }
    }
}

/// Occurrence is transitive.
pub proof fn lemma_contains_trans(a: Seq<char>, b: Seq<char>, c: Seq<char>)
    requires
        contains_text(a, b),
        contains_text(b, c),
    ensures
        contains_text(a, c),
{
    let i = choose|i: int| 0 <= i <= a.len() - b.len() && #[trigger] a.subrange(i, i + b.len()) == b;
    let k = choose|k: int| 0 <= k <= b.len() - c.len() && #[trigger] b.subrange(k, k + c.len()) == c;
    assert(a.subrange(i + k, i + k + c.len()) =~= b.subrange(k, k + c.len()));
}

/// The block of each requested language is part of the language section.
pub proof fn lemma_block_in_blocks(langs: Seq<LanguageView>, os_type: Seq<char>, i: int, k: int)
    requires
        0 <= i < langs.len(),
        0 <= k < language_block(langs[i], os_type).len(),
    ensures
        language_blocks(langs, os_type).contains(language_block(langs[i], os_type)[k]),
    decreases langs.len(),
{
    let front = language_blocks(langs.drop_last(), os_type);
    let b = language_block(langs.last(), os_type);
    if i == langs.len() - 1 {
        assert((front + b)[front.len() + k] == b[k]);
    } else {
        assert(langs.drop_last()[i] == langs[i]);
        lemma_block_in_blocks(langs.drop_last(), os_type, i, k);
        let j = choose|j: int| 0 <= j < front.len() && front[j] == language_block(langs[i], os_type)[k];
        assert((front + b)[j] == front[j]);
    }
}

/// Generation is a function of the description alone: equal descriptions
/// give the same script.
pub proof fn lemma_generation_deterministic(a: EnvironmentConfig, b: EnvironmentConfig)
    requires
        a@ == b@,
    ensures
        dockerfile_text(a@) == dockerfile_text(b@),
{
}

/// With the Alpine family the script starts with `FROM alpine:latest`,
/// whatever version was asked for.
pub proof fn lemma_alpine_base_image(c: EnvironmentConfig)
    requires
        c@.os_type == "alpine"@,
    ensures
        dockerfile_lines(c@)[0] == "FROM alpine:latest"@,
        dockerfile_text(c@) == "FROM alpine:latest"@ + seq!['\n']
            + join_lines(dockerfile_lines(c@).drop_first()),
{
    reveal_strlit("alpine");
    reveal_strlit("ubuntu");
    reveal_strlit("debian");
    reveal_strlit("FROM alpine:latest");
    reveal_strlit("FROM ");
    reveal_strlit("alpine:latest");
    assert("alpine"@[0] != "ubuntu"@[0]);
    assert("alpine"@[0] != "debian"@[0]);
    let lines = dockerfile_lines(c@);
    assert(lines[0] == "FROM "@ + "alpine:latest"@);
    assert("FROM "@ + "alpine:latest"@ =~= "FROM alpine:latest"@);
    lemma_join_first(lines);
}

/// With the Ubuntu or Debian family the script starts with
/// `FROM <family>:<version>`, the version taken as given.
pub proof fn lemma_debian_family_base_image(c: EnvironmentConfig)
    requires
        c@.os_type == "ubuntu"@ || c@.os_type == "debian"@,
    ensures
        dockerfile_lines(c@)[0] == "FROM "@ + c@.os_type + ":"@ + c@.os_version,
        dockerfile_text(c@) == "FROM "@ + c@.os_type + ":"@ + c@.os_version + seq!['\n']
            + join_lines(dockerfile_lines(c@).drop_first()),
{
    reveal_strlit("ubuntu");
    reveal_strlit("debian");
    reveal_strlit("ubuntu:");
    reveal_strlit("debian:");
    reveal_strlit(":");
    let lines = dockerfile_lines(c@);
    assert("ubuntu:"@ =~= "ubuntu"@ + ":"@);
    assert("debian:"@ =~= "debian"@ + ":"@);
    assert(lines[0] =~= "FROM "@ + c@.os_type + ":"@ + c@.os_version);
    lemma_join_first(lines);
}

/// A description without languages never passes validation; when its
/// operating system is complete, the error is the missing languages.
pub proof fn lemma_no_languages_rejected(c: EnvironmentConfig)
    requires
        c@.languages.len() == 0,
    ensures
        validation_result(c@) is Err,
        c@.os_type.len() > 0 && c@.os_version.len() > 0
            ==> validation_result(c@) == Err::<(), ValidationError>(ValidationError::MissingLanguages),
{
}

/// The nightly flag is handed to the Rust installer exactly when the
/// requested version is `nightly`.
pub proof fn lemma_rustup_flag(version: Seq<char>)
    ensures
        version == "nightly"@ ==> contains_text(rustup_line(version), nightly_flag()),
        version != "nightly"@ ==> !contains_text(rustup_line(version), nightly_flag()),
{
    reveal_strlit("    sh rustup-init.sh -y ");
    reveal_strlit(" && \\");
    reveal_strlit("--default-toolchain nightly");
    reveal_strlit("");
    let pre = "    sh rustup-init.sh -y "@;
    let line = rustup_line(version);
    if version == "nightly"@ {
        assert(line.subrange(pre.len() as int, pre.len() + nightly_flag().len() as int) =~= nightly_flag());
    } else {
        assert(line =~= pre + " && \\"@);
        assert forall|i: int| 0 <= i <= line.len() - nightly_flag().len()
            implies #[trigger] line.subrange(i, i + nightly_flag().len()) != nightly_flag() by {
            assert(line.subrange(i, i + nightly_flag().len())[0] == line[i]);
            assert(line[i] == ' ');
        }
    }
}

/// A Rust language that asks for nightly puts the nightly flag in the
/// script, and the installer line of every Rust language carries that flag
/// exactly when its version is `nightly`.
pub proof fn lemma_nightly_rust(c: EnvironmentConfig)
    ensures
        (exists|i: int| 0 <= i < c@.languages.len() && asks_nightly_rust(#[trigger] c@.languages[i]))
            ==> contains_text(dockerfile_text(c@), nightly_flag()),
        forall|i: int| 0 <= i < c@.languages.len() && (#[trigger] c@.languages[i]).name == "rust"@
            ==> dockerfile_lines(c@).contains(rustup_line(c@.languages[i].version))
                && (contains_text(rustup_line(c@.languages[i].version), nightly_flag())
                    <==> c@.languages[i].version == "nightly"@),
{
    let v = c@;
    let lines = dockerfile_lines(v);
    assert forall|i: int| 0 <= i < v.languages.len() && (#[trigger] v.languages[i]).name == "rust"@
        implies lines.contains(rustup_line(v.languages[i].version))
            && (contains_text(rustup_line(v.languages[i].version), nightly_flag())
                <==> v.languages[i].version == "nightly"@) by {
        lemma_rust_line_in_lines(v, i);
        lemma_rustup_flag(v.languages[i].version);
    }
    if exists|i: int| 0 <= i < v.languages.len() && asks_nightly_rust(#[trigger] v.languages[i]) {
        let i = choose|i: int| 0 <= i < v.languages.len() && asks_nightly_rust(#[trigger] v.languages[i]);
        lemma_rust_line_in_lines(v, i);
        let k = choose|k: int| 0 <= k < lines.len() && lines[k] == rustup_line(v.languages[i].version);
        lemma_join_contains(lines, k);
        lemma_rustup_flag(v.languages[i].version);
        lemma_contains_trans(dockerfile_text(v), lines[k], nightly_flag());
    }
}

proof fn lemma_rust_line_in_lines(v: EnvironmentView, i: int)
    requires
        0 <= i < v.languages.len(),
        v.languages[i].name == "rust"@,
    ensures
        dockerfile_lines(v).contains(rustup_line(v.languages[i].version)),
{
    let l = v.languages[i];
    reveal_strlit("rust");
    reveal_strlit("python");
    reveal_strlit("nodejs");
    assert("rust"@.len() != "python"@.len());
    assert("rust"@.len() != "nodejs"@.len());
    assert(language_lines(l, v.os_type) == rust_lines(v.os_type, l.version));
    let block = language_block(l, v.os_type);
    assert(block[4] == rustup_line(l.version));
    lemma_block_in_blocks(v.languages, v.os_type, i, 4);
    let blocks = language_blocks(v.languages, v.os_type);
    let j = choose|j: int| 0 <= j < blocks.len() && blocks[j] == rustup_line(l.version);
    let lines = dockerfile_lines(v);
    assert(lines[head_lines(v).len() + j] == blocks[j]);
}

/// With remote shell on, the script exposes the shell's port, installs the
/// entrypoint and ends by starting the SSH daemon.
pub proof fn lemma_shell_section(c: EnvironmentConfig)
    requires
        c@.shell_on(),
    ensures
        dockerfile_lines(c@).contains(expose_line(c@.ssh->Some_0.port)),
        dockerfile_lines(c@).contains(entrypoint_directive()),
        dockerfile_lines(c@).last() == sshd_command(),
        contains_text(dockerfile_text(c@), expose_line(c@.ssh->Some_0.port)),
        contains_text(dockerfile_text(c@), entrypoint_directive()),
        dockerfile_text(c@) == join_lines(dockerfile_lines(c@).drop_last()) + seq!['\n'] + sshd_command(),
{
    let v = c@;
    let lines = dockerfile_lines(v);
    let pre = head_lines(v) + language_blocks(v.languages, v.os_type);
    let sh = shell_lines(v);
    assert(lines == pre + sh + tail_lines(v));
    let n: int = crate::recipes::ssh_install_lines(v.os_type).len() as int;
    assert(sh[1 + n + 1] == expose_line(v.ssh->Some_0.port));
    assert(sh[sh.len() - 2] == entrypoint_directive());
    let e: int = pre.len() + 1 + n + 1;
    let d: int = pre.len() + sh.len() - 2;
    assert(lines[e] == expose_line(v.ssh->Some_0.port));
    assert(lines[d] == entrypoint_directive());
    lemma_join_contains(lines, e);
    lemma_join_contains(lines, d);
}

/// The remote-shell password never reaches the script: descriptions that
/// differ only in the password give the same text.
pub proof fn lemma_password_not_embedded(c: EnvironmentConfig, password: Seq<char>)
    ensures
        dockerfile_text(c@.with_password(password)) == dockerfile_text(c@),
{
    let v = c@;
    let w = v.with_password(password);
    assert(w.shell_on() == v.shell_on());
    assert(shell_lines(w) == shell_lines(v));
    assert(tail_lines(w) =~= tail_lines(v));
    assert(dockerfile_lines(w) =~= dockerfile_lines(v));
}

} // verus!

verus! {

/// Starts like the Rust installer line: four spaces, then `sh`.
spec fn installer_like(l: Seq<char>) -> bool {
    l.len() >= 6 && l[0] == ' ' && l[4] == 's' && l[5] == 'h'
}

proof fn lemma_nightly_line_shape()
    ensures
        installer_like(rustup_line("nightly"@)),
        rustup_line("nightly"@).len() == 57,
{
    reveal_strlit("    sh rustup-init.sh -y ");
    reveal_strlit(" && \\");
    reveal_strlit("--default-toolchain nightly");
    reveal_strlit("nightly");
}

/// An install line of any recipe equals the nightly installer line only
/// for a Rust language that asks for nightly.
proof fn lemma_recipe_line_not_nightly(lang: LanguageView, os_type: Seq<char>, k: int)
    requires
        0 <= k < language_lines(lang, os_type).len(),
        language_lines(lang, os_type)[k] == rustup_line("nightly"@),
    ensures
        asks_nightly_rust(lang),
{
    lemma_nightly_line_shape();
    reveal_strlit("python");
    reveal_strlit("nodejs");
    reveal_strlit("rust");
    reveal_strlit("nightly");
    reveal_strlit("RUN ");
    reveal_strlit("    ");
    reveal_strlit("apk");
    reveal_strlit("apt-get");
    reveal_strlit("    rm -rf /var/cache/apk/*");
    reveal_strlit("    rm -rf /var/lib/apt/lists/*");
    reveal_strlit("    add-apt-repository ppa:deadsnakes/ppa -y && \\");
    reveal_strlit("    curl -fsSL https://deb.nodesource.com/setup_");
    reveal_strlit("    bash nodesource_setup.sh && \\");
    reveal_strlit("    rm nodesource_setup.sh && \\");
    reveal_strlit("    curl --proto '=https' --tlsv1.2 -sSf https://sh.rustup.rs -o rustup-init.sh && \\");
    reveal_strlit("    rm rustup-init.sh && \\");
    reveal_strlit("    rm -rf ");
    reveal_strlit("ENV PATH=\"/root/.cargo/bin:${PATH}\"");
    reveal_strlit("    sh rustup-init.sh -y ");
    reveal_strlit(" && \\");
    reveal_strlit("--default-toolchain nightly");
    reveal_strlit("");
    let l = language_lines(lang, os_type)[k];
    assert(installer_like(l));
    if lang.name == "rust"@ {
        if k == 3 {
            if lang.version != "nightly"@ {
                assert(l.len() == 30);
            }
        }
    }
}

/// A line of the language section equals the nightly installer line only
/// where some language is Rust asking for nightly.
proof fn lemma_blocks_not_nightly(langs: Seq<LanguageView>, os_type: Seq<char>, k: int)
    requires
        0 <= k < language_blocks(langs, os_type).len(),
        language_blocks(langs, os_type)[k] == rustup_line("nightly"@),
    ensures
        exists|i: int| 0 <= i < langs.len() && asks_nightly_rust(#[trigger] langs[i]),
    decreases langs.len(),
{
    lemma_nightly_line_shape();
    reveal_strlit("# Install ");
    let front = language_blocks(langs.drop_last(), os_type);
    let last = langs.last();
    let b = language_block(last, os_type);
    if k < front.len() {
        assert((front + b)[k] == front[k]);
        lemma_blocks_not_nightly(langs.drop_last(), os_type, k);
        let i = choose|i: int| 0 <= i < langs.drop_last().len() && asks_nightly_rust(#[trigger] langs.drop_last()[i]);
        assert(langs.drop_last()[i] == langs[i]);
    } else {
        let m = k - front.len();
        assert(b[m] == rustup_line("nightly"@));
        let cmds = language_lines(last, os_type);
        assert(m != 0);
        assert(m != b.len() - 1);
        assert(b[m] == cmds[m - 1]);
        lemma_recipe_line_not_nightly(last, os_type, m - 1);
        assert(langs[langs.len() - 1] == last);
    }
}

/// No line of the remote-shell section is the nightly installer line.
proof fn lemma_shell_not_nightly(c: EnvironmentView, k: int)
    requires
        0 <= k < shell_lines(c).len(),
    ensures
        shell_lines(c)[k] != rustup_line("nightly"@),
{
    lemma_nightly_line_shape();
    reveal_strlit("# Install and configure SSH server");
    reveal_strlit("RUN apk update && \\");
    reveal_strlit("    apk add --no-cache openssh && \\");
    reveal_strlit("    ssh-keygen -A && \\");
    reveal_strlit("    sed -i \"s/#PermitRootLogin.*/PermitRootLogin yes/\" /etc/ssh/sshd_config && \\");
    reveal_strlit("    sed -i \"s/#PasswordAuthentication.*/PasswordAuthentication yes/\" /etc/ssh/sshd_config");
    reveal_strlit("RUN apt-get update && \\");
    reveal_strlit("    DEBIAN_FRONTEND=noninteractive apt-get install -y openssh-server && \\");
    reveal_strlit("    mkdir -p /var/run/sshd && \\");
    reveal_strlit("    sed -i \"s/#\\?PermitRootLogin.*/PermitRootLogin yes/\" /etc/ssh/sshd_config && \\");
    reveal_strlit("    sed -i \"s/#\\?PasswordAuthentication.*/PasswordAuthentication yes/\" /etc/ssh/sshd_config && \\");
    reveal_strlit("    rm -rf /var/lib/apt/lists/*");
    reveal_strlit("EXPOSE ");
    reveal_strlit("# Create entrypoint script to set password securely");
    reveal_strlit("RUN echo '#!/bin/sh' > /entrypoint.sh && \\");
    reveal_strlit("    echo 'if [ -n \"$ROOT_PASSWORD\" ]; then' >> /entrypoint.sh && \\");
    reveal_strlit("    echo '  echo \"root:$ROOT_PASSWORD\" | chpasswd' >> /entrypoint.sh && \\");
    reveal_strlit("    echo 'fi' >> /entrypoint.sh && \\");
    reveal_strlit("    echo 'exec \"$@\"' >> /entrypoint.sh && \\");
    reveal_strlit("    chmod +x /entrypoint.sh");
    reveal_strlit("ENTRYPOINT [\"/entrypoint.sh\"]");
    assert(!installer_like(shell_lines(c)[k]));
}

/// The output holds the nightly installer line only when some requested
/// language is Rust asking for nightly; with the converse of
/// [`lemma_nightly_rust`], exactly then.
pub proof fn lemma_nightly_line_only_when_asked(c: EnvironmentConfig)
    ensures
        dockerfile_lines(c@).contains(rustup_line("nightly"@))
            <==> exists|i: int| 0 <= i < c@.languages.len() && asks_nightly_rust(#[trigger] c@.languages[i]),
{
    let v = c@;
    let lines = dockerfile_lines(v);
    let nl = rustup_line("nightly"@);
    let h = head_lines(v);
    let bl = language_blocks(v.languages, v.os_type);
    let sh = shell_lines(v);
    let t = tail_lines(v);
    lemma_nightly_line_shape();
    if lines.contains(nl) {
        let k = choose|k: int| 0 <= k < lines.len() && lines[k] == nl;
        reveal_strlit("FROM ");
        reveal_strlit("WORKDIR /app");
        reveal_strlit("# Copy application files");
        reveal_strlit("# COPY . .");
        reveal_strlit("# Set default command");
        reveal_strlit("CMD [\"/usr/sbin/sshd\", \"-D\"]");
        reveal_strlit("CMD [\"/bin/bash\"]");
        assert(lines == h + bl + sh + t);
        if k < h.len() {
            assert(lines[k] == h[k]);
            assert(!installer_like(h[k]));
        } else if k < h.len() + bl.len() {
            assert(lines[k] == bl[k - h.len()]);
            lemma_blocks_not_nightly(v.languages, v.os_type, k - h.len());
        } else if k < h.len() + bl.len() + sh.len() {
            assert(lines[k] == sh[k - h.len() - bl.len()]);
            lemma_shell_not_nightly(v, k - h.len() - bl.len());
        } else {
            assert(lines[k] == t[k - h.len() - bl.len() - sh.len()]);
            assert(!installer_like(t[k - h.len() - bl.len() - sh.len()]));
        }
    }
    if exists|i: int| 0 <= i < v.languages.len() && asks_nightly_rust(#[trigger] v.languages[i]) {
        let i = choose|i: int| 0 <= i < v.languages.len() && asks_nightly_rust(#[trigger] v.languages[i]);
        lemma_rust_line_in_lines(v, i);
    }
}

} // verus!

verus! {

/// A text that lacks some character of `needle` does not hold `needle`.
proof fn lemma_missing_char(line: Seq<char>, needle: Seq<char>, j: int)
    requires
        0 <= j < needle.len(),
        forall|i: int| 0 <= i < line.len() ==> line[i] != needle[j],
    ensures
        !contains_text(line, needle),
{
    if contains_text(line, needle) {
        let i = choose|i: int|
            0 <= i <= line.len() - needle.len() && #[trigger] line.subrange(i, i + needle.len()) == needle;
        assert(line.subrange(i, i + needle.len())[j] == line[i + j]);
    }
}

/// For every version but `nightly` the Rust recipe is the one of the default
/// channel, and none of its lines names a toolchain.
pub proof fn lemma_rust_default_channel(os_type: Seq<char>, version: Seq<char>)
    requires
        version != "nightly"@,
    ensures
        rust_lines(os_type, version) == rust_lines(os_type, "stable"@),
        forall|k: int| 0 <= k < rust_lines(os_type, version).len()
            ==> !contains_text(#[trigger] rust_lines(os_type, version)[k], "--default-toolchain"@),
{
    reveal_strlit("stable");
    reveal_strlit("nightly");
    assert("stable"@ != "nightly"@) by {
        assert("stable"@[0] != "nightly"@[0]);
    }
    reveal_strlit("--default-toolchain");
    reveal_strlit("RUN ");
    reveal_strlit("apk update");
    reveal_strlit("apt-get update");
    reveal_strlit(" && \\");
    reveal_strlit("    ");
    reveal_strlit("apk");
    reveal_strlit("apt-get");
    reveal_strlit(" ");
    reveal_strlit("add");
    reveal_strlit("install -y");
    reveal_strlit("curl gcc musl-dev");
    reveal_strlit("curl build-essential");
    reveal_strlit("    curl --proto '=https' --tlsv1.2 -sSf https://sh.rustup.rs -o rustup-init.sh && \\");
    reveal_strlit("    sh rustup-init.sh -y ");
    reveal_strlit("");
    reveal_strlit("    rm rustup-init.sh && \\");
    reveal_strlit("    rm -rf ");
    reveal_strlit("/var/cache/apk/*");
    reveal_strlit("/var/lib/apt/lists/*");
    reveal_strlit("ENV PATH=\"/root/.cargo/bin:${PATH}\"");
    let lines = rust_lines(os_type, version);
    let needle = "--default-toolchain"@;
    assert(needle[2] == 'd');
    assert(needle[4] == 'f');
    assert forall|k: int| 0 <= k < lines.len() implies !contains_text(#[trigger] lines[k], needle) by {
        let l = lines[k];
        if k == 0 || k == 1 {
            assert forall|i: int| 0 <= i < l.len() implies l[i] != needle[4] by {}
            lemma_missing_char(l, needle, 4);
        } else {
            assert forall|i: int| 0 <= i < l.len() implies l[i] != needle[2] by {}
            lemma_missing_char(l, needle, 2);
        }
    }
}

} // verus!
