//! The decisions around publishing a built site to Cloudflare Pages with
//! wrangler: its command line and what its output tells the user.
use vstd::prelude::*;
use crate::text::{
    after_last, after_last_exec, before_first, before_first_exec, chars_of, contains, find, find_from_exec, slice_chars,
    trim, trim_exec, push_chars,
};
use crate::util::{from_utf8_lossy, utf8_lossy};

verus! {

/// The arguments of `wrangler` that deploy the directory `dir` to the
/// production branch of a Pages project.
pub open spec fn wrangler_args_of(dir: Seq<char>, project: Seq<char>) -> Seq<Seq<char>> {
    seq!["pages"@, "deploy"@, dir, "--project-name"@, project, "--branch"@, "main"@, "--no-bundle"@]
}

/// The arguments of `wrangler` that deploy the directory `dir` to the
/// production branch of the Pages project `project`.
pub fn wrangler_args(dir: &str, project: &str) -> (args: Vec<String>)
    ensures
        args@.map_values(|a: String| a@) == wrangler_args_of(dir@, project@),
{
    let args = vec![
        String::from_str("pages"),
        String::from_str("deploy"),
        String::from_str(dir),
        String::from_str("--project-name"),
        String::from_str(project),
        String::from_str("--branch"),
        String::from_str("main"),
        String::from_str("--no-bundle"),
    ];
    assert(args@.map_values(|a: String| a@) =~= wrangler_args_of(dir@, project@));
    args
}

/// The address that a deployment reports: the first line of wrangler's
/// output that mentions `pages.dev`, trimmed, or the project's default
/// address when none does. The marker holds no line break, so the first
/// line that holds it is the line around its first occurrence.
pub open spec fn deployment_url(stdout: Seq<char>, project: Seq<char>) -> Seq<char> {
    match find(stdout, "pages.dev"@) {
        Some(j) => trim(after_last(stdout.take(j), '\n') + before_first(stdout.skip(j), "\n"@)),
        None => "https://"@ + project + ".pages.dev"@,
    }
}

/// When no line of wrangler's output mentions `pages.dev`, the deployment
/// reports the project's default address.
pub proof fn lemma_default_deployment_url(stdout: Seq<char>, project: Seq<char>)
    requires
        !contains(stdout, "pages.dev"@),
    ensures
        deployment_url(stdout, project) == "https://"@ + project + ".pages.dev"@,
{
}

/// What a run of wrangler amounts to: a failure with its error output, or
/// a success with the address to visit.
pub open spec fn deploy_result(success: bool, stdout: Seq<char>, stderr: Seq<char>, project: Seq<char>) -> Result<
    Seq<char>,
    Seq<char>,
> {
    if !success {
        Err("Wrangler deployment failed: "@ + stderr)
    } else {
        Ok("Deployed successfully! Visit: "@ + deployment_url(stdout, project))
    }
}

/// The address that wrangler's output reports for a deployment of the
/// project `project`.
pub fn find_deployment_url(stdout: &str, project: &str) -> (url: String)
    ensures
        url@ == deployment_url(stdout@, project@),
{
    let s = chars_of(stdout);
    let marker = chars_of("pages.dev");
    match find_from_exec(s.as_slice(), marker.as_slice(), 0) {
        Some(j) => {
            let head = slice_chars(s.as_slice(), 0, j);
            let tail = slice_chars(s.as_slice(), j, s.len());
            assert(head@ =~= s@.take(j as int));
            assert(tail@ =~= s@.skip(j as int));
            let nl = chars_of("\n");
            let mut line = after_last_exec(head.as_slice(), '\n');
            let mut rest = before_first_exec(tail.as_slice(), nl.as_slice());
            line.append(&mut rest);
            assert(line@ == after_last(stdout@.take(j as int), '\n') + before_first(stdout@.skip(j as int), "\n"@));
            let trimmed = trim_exec(line.as_slice());
            let mut url = String::new();
            push_chars(&mut url, trimmed.as_slice());
            url
        },
        None => {
            let mut url = String::new();
            url.append("https://");
            url.append(project);
            url.append(".pages.dev");
            url
        },
    }
}

/// What a run of wrangler for the project `project` amounts to, from its
/// exit status and its raw output and error output (decoded as UTF-8, with
/// invalid sequences replaced).
pub fn deployment_message(success: bool, stdout: &[u8], stderr: &[u8], project: &str) -> (r: Result<String, String>)
    ensures
        r matches Ok(m) ==> deploy_result(success, utf8_lossy(stdout@), utf8_lossy(stderr@), project@) == Ok::<
            Seq<char>,
            Seq<char>,
        >(m@),
        r matches Err(e) ==> deploy_result(success, utf8_lossy(stdout@), utf8_lossy(stderr@), project@) == Err::<
            Seq<char>,
            Seq<char>,
        >(e@),
{
    let out = from_utf8_lossy(stdout);
    let err = from_utf8_lossy(stderr);
    if !success {
        let mut m = String::new();
        m.append("Wrangler deployment failed: ");
        m.append(err.as_str());
        return Err(m);
    }
    let url = find_deployment_url(out.as_str(), project);
    let mut m = String::new();
    m.append("Deployed successfully! Visit: ");
    m.append(url.as_str());
    Ok(m)
}

}
