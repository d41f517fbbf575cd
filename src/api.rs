use vstd::prelude::*;
use std::collections::HashMap;
use crate::config::EnvironmentConfig;
use crate::generator::dockerfile_text;
use crate::validation::{validate, validation_result};

verus! {

/// Body of a successful generation request.
#[derive(Debug, Clone)]
pub struct DockerfileResponse {
    pub dockerfile: String,
}

/// Body of a rejected request.
#[derive(Debug, Clone)]
pub struct ErrorResponse {
    pub error: String,
}

/// An image build request: the script text and the tag to give the image.
#[derive(Debug, Clone)]
pub struct BuildRequest {
    pub dockerfile: String,
    pub tag: String,
}

/// The build's log lines and the tag that was built.
#[derive(Debug, Clone)]
pub struct BuildResponse {
    pub logs: Vec<String>,
    pub tag: String,
}

/// A request to create and start a container. `ports` maps a container
/// port (with or without `/protocol`) to a host port.
#[derive(Debug, Clone)]
pub struct RunRequest {
    pub image: String,
    pub name: Option<String>,
    pub env: Option<Vec<String>>,
    pub ports: Option<HashMap<String, String>>,
}

/// The id of the container that was started.
#[derive(Debug, Clone)]
pub struct RunResponse {
    pub container_id: String,
}

/// An error reported to the client.
#[derive(Debug, Clone)]
pub enum AppError {
    BadRequest(String),
}

impl AppError {
    /// The HTTP status that reports this error.
    pub fn status_code(&self) -> (r: u16)
        ensures
            r == 400,
    {
        match self {
            AppError::BadRequest(_) => 400,
        }
    }

    /// The body that reports this error.
    pub fn into_error_response(self) -> (r: ErrorResponse)
        ensures
            match self {
                AppError::BadRequest(m) => r.error@ == m@,
            },
    {
        match self {
            AppError::BadRequest(m) => ErrorResponse { error: m },
        }
    }
}

/// Validates the description and, when it is complete, generates its build
/// script; an incomplete one is reported as a bad request naming the
/// missing field, and no script is generated for it.
pub fn generate_dockerfile(config: &EnvironmentConfig) -> (r: Result<DockerfileResponse, AppError>)
    ensures
        match validation_result(config@) {
            Ok(_) => r matches Ok(resp) && resp.dockerfile@ == dockerfile_text(config@),
            Err(e) => r matches Err(AppError::BadRequest(m)) && m@ == e.message_spec(),
        },
{
    match validate(config) {
        Ok(()) => Ok(DockerfileResponse { dockerfile: crate::generator::generate_dockerfile(config) }),
        Err(e) => Err(AppError::BadRequest(e.message())),
    }
}

} // verus!
