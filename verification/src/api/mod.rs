//! The decisions of the HTTP API: what each request is checked against and
//! what it is answered.
use vstd::prelude::*;
use crate::errors::ApiError;
use crate::json::{json_entries, push_entry, Json, JsonVal};

pub mod auth;
pub mod sites;
pub mod posts;
pub mod pages;
pub mod media;
pub mod templates;

verus! {

/// A JSON object with a single `message` member.
pub open spec fn message_body(message: Seq<char>) -> JsonVal {
    JsonVal::Object(seq![("message"@, JsonVal::Str(message))])
}

fn message_json(message: &str) -> (j: Json)
    ensures
        j@ == message_body(message@),
{
    let mut es: Vec<(String, Json)> = Vec::new();
    push_entry(&mut es, "message", Json::Str(String::from_str(message)));
    assert(json_entries(es@) =~= seq![("message"@, JsonVal::Str(message@))]);
    Json::Object(es)
}

fn prefixed_error(prefix: &str, detail: &str) -> (e: ApiError)
    ensures
        e.status_code == 500,
        e.message@ == prefix@ + detail@,
{
    let mut m = String::new();
    m.append(prefix);
    m.append(detail);
    ApiError { message: m, status_code: 500 }
}

/// The answer to a build request, from the outcome of the build (its error
/// message when it failed).
pub fn build_site(outcome: Result<(), String>) -> (r: Result<Json, ApiError>)
    ensures
        match outcome {
            Ok(()) => r matches Ok(j) && j@ == message_body("Site built successfully"@),
            Err(m) => r matches Err(e) && e.status_code == 500 && e.message@ == "Failed to build site: "@ + m@,
        },
{
    match outcome {
        Ok(()) => Ok(message_json("Site built successfully")),
        Err(m) => Err(build_failure(m.as_str())),
    }
}

/// The refusal of a deployment that is not configured.
pub open spec fn not_configured_message() -> Seq<char> {
    "Cloudflare Pages not configured. Set CLOUDFLARE_ACCOUNT_ID, CLOUDFLARE_API_TOKEN, and CLOUDFLARE_PAGES_PROJECT environment variables."@
}

/// The answer to a build that failed with `message`.
pub fn build_failure(message: &str) -> (e: ApiError)
    ensures
        e.status_code == 500,
        e.message@ == "Failed to build site: "@ + message@,
{
    prefixed_error("Failed to build site: ", message)
}

/// The next step of a deploy request: answer it, or run the build or the
/// deployment and come back with its outcome.
pub enum DeployStep {
    Answer(Result<Json, ApiError>),
    Build,
    Deploy,
}

/// Decides the next step of a deploy request, from whether an account, an
/// API token and a Pages project are configured, and the outcomes of the
/// build and of the deployment so far (`None` while not run). An
/// unconfigured deployment is refused before anything is built; a failed
/// build is answered before anything is deployed; otherwise the build runs,
/// then the deployment, and its outcome is the answer.
pub fn deploy_pages(
    has_account: bool,
    has_token: bool,
    has_project: bool,
    built: Option<Result<(), String>>,
    deployed: Option<Result<String, String>>,
) -> (step: DeployStep)
    ensures
        !(has_account && has_token && has_project) ==> (step matches DeployStep::Answer(Err(e))
            && e.status_code == 500 && e.message@ == not_configured_message()),
        has_account && has_token && has_project ==> match built {
            None => step is Build,
            Some(Err(m)) => step matches DeployStep::Answer(Err(e)) && e.status_code == 500 && e.message@
                == "Failed to build site: "@ + m@,
            Some(Ok(())) => match deployed {
                None => step is Deploy,
                Some(Ok(msg)) => step matches DeployStep::Answer(Ok(j)) && j@ == message_body(msg@),
                Some(Err(m)) => step matches DeployStep::Answer(Err(e)) && e.status_code == 500 && e.message@
                    == "Failed to deploy: "@ + m@,
            },
        },
{
    if !has_account || !has_token || !has_project {
        return DeployStep::Answer(
            Err(
                ApiError::new(
                    "Cloudflare Pages not configured. Set CLOUDFLARE_ACCOUNT_ID, CLOUDFLARE_API_TOKEN, and CLOUDFLARE_PAGES_PROJECT environment variables.",
                ),
            ),
        );
    }
    match built {
        None => DeployStep::Build,
        Some(Err(m)) => DeployStep::Answer(Err(build_failure(m.as_str()))),
        Some(Ok(())) => match deployed {
            None => DeployStep::Deploy,
            Some(Ok(msg)) => DeployStep::Answer(Ok(message_json(msg.as_str()))),
            Some(Err(m)) => DeployStep::Answer(Err(prefixed_error("Failed to deploy: ", m.as_str()))),
        },
    }
}

}
