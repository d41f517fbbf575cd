use container_helper::api::{generate_dockerfile, AppError};
use container_helper::config::{EnvironmentConfig, Language, OsConfig};
use container_helper::validation::{validate, ValidationError};

fn env(os_type: &str, version: &str, languages: Vec<Language>) -> EnvironmentConfig {
    EnvironmentConfig {
        name: Some("dev".to_string()),
        os: OsConfig { os_type: os_type.to_string(), version: version.to_string() },
        languages,
        ssh: None,
    }
}

fn python() -> Vec<Language> {
    vec![Language { name: "python".to_string(), version: "3.11".to_string() }]
}

#[test]
fn missing_os_type() {
    let c = env("", "22.04", python());
    assert_eq!(validate(&c), Err(ValidationError::MissingOsType));
    assert_eq!(ValidationError::MissingOsType.field_name(), "os_type");
}

#[test]
fn missing_os_version() {
    let c = env("ubuntu", "", python());
    assert_eq!(validate(&c), Err(ValidationError::MissingOsVersion));
    assert_eq!(ValidationError::MissingOsVersion.field_name(), "os_version");
}

#[test]
fn missing_languages() {
    let c = env("ubuntu", "22.04", vec![]);
    assert_eq!(validate(&c), Err(ValidationError::MissingLanguages));
    assert_eq!(ValidationError::MissingLanguages.field_name(), "languages");
    match generate_dockerfile(&c) {
        Err(AppError::BadRequest(m)) => assert_eq!(m, "At least one language is required"),
        Ok(_) => panic!("an empty language list must be rejected"),
    }
}

#[test]
fn first_failing_check_wins() {
    let c = env("", "", vec![]);
    assert_eq!(validate(&c), Err(ValidationError::MissingOsType));
    match generate_dockerfile(&c) {
        Err(e) => {
            assert_eq!(e.status_code(), 400);
            assert_eq!(e.into_error_response().error, "OS type is required");
        }
        Ok(_) => panic!("an incomplete description must be rejected"),
    }
    let c = env("debian", "", vec![]);
    assert_eq!(ValidationError::MissingOsVersion.message(), "OS version is required");
    assert_eq!(validate(&c), Err(ValidationError::MissingOsVersion));
}

#[test]
fn complete_description_generates() {
    let c = env("ubuntu", "22.04", python());
    assert_eq!(validate(&c), Ok(()));
    let r = generate_dockerfile(&c).ok().unwrap();
    assert_eq!(r.dockerfile, container_helper::generator::generate_dockerfile(&c));
}

#[test]
fn unknown_language_passes_validation() {
    let c = env("ubuntu", "22.04", vec![Language { name: "zig".to_string(), version: "0.13".to_string() }]);
    assert_eq!(validate(&c), Ok(()));
}
