use vstd::prelude::*;
use crate::text::texts;

verus! {

/// One item of an image build's progress stream.
#[derive(Debug, Clone)]
pub enum BuildEvent {
    /// A progress record: some log output, an error reported by the engine,
    /// or both.
    Progress { stream: Option<String>, error: Option<String> },
    /// The stream itself failed.
    Transport(String),
}

/// What to do after one item of the stream.
#[derive(Debug, Clone)]
pub enum BuildStep {
    /// Keep reading.
    Continue,
    /// Stop: the build failed with this message.
    Failed(String),
}

/// The outcome of one stream item: `None` to go on, or the failure message.
pub open spec fn build_failure(event: BuildEvent) -> Option<Seq<char>> {
    match event {
        BuildEvent::Progress { error: Some(e), .. } => Some("Build failed: "@ + e@),
        BuildEvent::Progress { error: None, .. } => None,
        BuildEvent::Transport(e) => Some(e@),
    }
}

/// The log output that one stream item adds.
pub open spec fn build_output(event: BuildEvent) -> Seq<Seq<char>> {
    match event {
        BuildEvent::Progress { stream: Some(s), .. } => seq![s@],
        _ => Seq::empty(),
    }
}

/// Takes one item of a build's progress stream: its log output is kept, and
/// an error reported by the engine, or a failed stream, ends the build.
pub fn on_build_event(logs: &mut Vec<String>, event: BuildEvent) -> (r: BuildStep)
    ensures
        texts(final(logs)@) == texts(old(logs)@) + build_output(event),
        match build_failure(event) {
            Some(m) => r matches BuildStep::Failed(f) && f@ == m,
            None => r is Continue,
        },
{
    let ghost before = logs@;
    match event {
        BuildEvent::Progress { stream, error } => {
            match stream {
                Some(s) => {
                    logs.push(s);
                },
                None => {},
            }
            assert(texts(logs@) =~= texts(before) + build_output(event));
            match error {
                Some(e) => BuildStep::Failed(String::from_str("Build failed: ").concat(e.as_str())),
                None => BuildStep::Continue,
            }
        },
        BuildEvent::Transport(e) => {
            assert(texts(logs@) =~= texts(before) + build_output(event));
            BuildStep::Failed(e)
        },
    }
}

} // verus!

verus! {

/// The bytes of the tar archive, as tar's GNU header and builder write it,
/// that holds one file at `path` with permission bits `mode` and the text
/// `content`; `None` where tar refuses to write it.
pub uninterp spec fn single_file_tar_of(path: Seq<char>, mode: u32, content: Seq<char>) -> Option<Seq<u8>>;

/// Relies on tar's `Header::new_gnu`, `Header::set_path`, `set_size`,
/// `set_mode`, `set_cksum` and `Builder::append`, `finish`, `into_inner` on a
/// `Vec<u8>`: the archive depends on the path, the mode and the text alone.
#[verifier::external_body]
fn single_file_tar(path: &str, mode: u32, content: &str) -> (r: Option<Vec<u8>>)
    ensures
        r is Some <==> single_file_tar_of(path@, mode, content@) is Some,
        r matches Some(v) ==> single_file_tar_of(path@, mode, content@) == Some(v@),
{
    let bytes = content.as_bytes();
    let mut header = tar::Header::new_gnu();
    header.set_path(path).ok()?;
    header.set_size(bytes.len() as u64);
    header.set_mode(mode);
    header.set_cksum();
    let mut archive = tar::Builder::new(Vec::new());
    archive.append(&header, bytes).ok()?;
    archive.finish().ok()?;
    archive.into_inner().ok()
}

/// Permission bits of the build script in the build context (`rw-r--r--`).
pub const DOCKERFILE_MODE: u32 = 0o644;

/// The build context sent to the engine: a tar archive holding the script
/// as the single file `Dockerfile`, readable by all, writable by its owner.
pub fn dockerfile_archive(dockerfile: &str) -> (r: Option<Vec<u8>>)
    ensures
        r is Some <==> single_file_tar_of("Dockerfile"@, DOCKERFILE_MODE, dockerfile@) is Some,
        r matches Some(v) ==> single_file_tar_of("Dockerfile"@, DOCKERFILE_MODE, dockerfile@) == Some(v@),
{
    single_file_tar("Dockerfile", DOCKERFILE_MODE, dockerfile)
}

} // verus!
