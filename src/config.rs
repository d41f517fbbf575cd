use vstd::prelude::*;

verus! {

/// The operating system requested for an environment.
#[derive(Debug, Clone)]
pub struct OsConfig {
    pub os_type: String,
    pub version: String,
}

/// One language runtime, with the version to install.
#[derive(Debug, Clone)]
pub struct Language {
    pub name: String,
    pub version: String,
}

/// Remote shell access to the generated image.
#[derive(Debug, Clone)]
pub struct SshConfig {
    pub enabled: bool,
    pub port: u16,
    pub password: String,
}

/// A whole environment description.
#[derive(Debug, Clone)]
pub struct EnvironmentConfig {
    pub name: Option<String>,
    pub os: OsConfig,
    pub languages: Vec<Language>,
    pub ssh: Option<SshConfig>,
}

/// Mathematical model of a [`Language`].
pub struct LanguageView {
    pub name: Seq<char>,
    pub version: Seq<char>,
}

/// Mathematical model of an [`SshConfig`].
pub struct SshView {
    pub enabled: bool,
    pub port: u16,
    pub password: Seq<char>,
}

/// Mathematical model of an [`EnvironmentConfig`].
pub struct EnvironmentView {
    pub name: Option<Seq<char>>,
    pub os_type: Seq<char>,
    pub os_version: Seq<char>,
    pub languages: Seq<LanguageView>,
    pub ssh: Option<SshView>,
}

impl View for Language {
    type V = LanguageView;

    open spec fn view(&self) -> LanguageView {
        LanguageView { name: self.name@, version: self.version@ }
    }
}

impl View for SshConfig {
    type V = SshView;

    open spec fn view(&self) -> SshView {
        SshView { enabled: self.enabled, port: self.port, password: self.password@ }
    }
}

pub open spec fn name_view(name: Option<String>) -> Option<Seq<char>> {
    match name {
        Some(n) => Some(n@),
        None => None,
    }
}

pub open spec fn ssh_view(ssh: Option<SshConfig>) -> Option<SshView> {
    match ssh {
        Some(s) => Some(s@),
        None => None,
    }
}

impl View for EnvironmentConfig {
    type V = EnvironmentView;

    open spec fn view(&self) -> EnvironmentView {
        EnvironmentView {
            name: name_view(self.name),
            os_type: self.os.os_type@,
            os_version: self.os.version@,
            languages: self.languages@.map_values(|l: Language| l@),
            ssh: ssh_view(self.ssh),
        }
    }
}

impl EnvironmentView {
    /// Remote shell is present and switched on.
    pub open spec fn shell_on(self) -> bool {
        match self.ssh {
            Some(s) => s.enabled,
            None => false,
        }
    }

    /// The same description with another remote-shell password.
    pub open spec fn with_password(self, password: Seq<char>) -> EnvironmentView {
        EnvironmentView {
            ssh: match self.ssh {
                Some(s) => Some(SshView { password, ..s }),
                None => None,
            },
            ..self
        }
    }
}

} // verus!
