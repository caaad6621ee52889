use clambake_github::client::{
    api_result, branch_pushed, pull_request_created, AddLabels, CreatePullRequest, GetIssue,
    GetPullRequest, GitHubClient, ListOpenIssues, PushOutcome, SetAssignees, GIT,
};
use clambake_github::credentials::{CredentialFile, CredentialSources, Credentials};
use clambake_github::error::GitHubError;

#[derive(Debug, PartialEq)]
struct Stub(u8);

fn text(s: &str) -> String {
    s.to_string()
}

fn credentials() -> Credentials {
    let resolved = Credentials::resolve(CredentialSources {
        token_variable: Some(text("ghp_token")),
        owner_variable: Some(text("octo")),
        repo_variable: Some(text("hello")),
        token_file: CredentialFile::Missing,
        owner_file: CredentialFile::Missing,
        repo_file: CredentialFile::Missing,
    });
    match resolved {
        Ok(credentials) => credentials,
        Err(e) => panic!("{}", e.render()),
    }
}

fn client() -> GitHubClient<Stub> {
    GitHubClient::new(credentials(), Ok(Stub(1))).unwrap()
}

#[test]
fn client_keeps_transport_and_repository() {
    let c = client();
    assert_eq!(c.transport(), &Stub(1));
    assert_eq!(c.owner(), "octo");
    assert_eq!(c.repo(), "hello");
}

#[test]
fn transport_failure_is_an_api_error() {
    let built: Result<Stub, String> = Err(text("no TLS roots"));
    let result = GitHubClient::new(credentials(), built);
    assert_eq!(result.err(), Some(GitHubError::ApiError(text("no TLS roots"))));
}

#[test]
fn issue_requests() {
    let c = client();
    assert_eq!(c.fetch_issues(), ListOpenIssues { owner: text("octo"), repo: text("hello") });
    assert_eq!(
        c.fetch_issue(42),
        GetIssue { owner: text("octo"), repo: text("hello"), number: 42 }
    );
    assert_eq!(
        c.assign_issue(7, "ferris"),
        SetAssignees {
            owner: text("octo"),
            repo: text("hello"),
            number: 7,
            assignees: vec![text("ferris")],
        }
    );
    assert_eq!(
        c.add_label_to_issue(7, "bug"),
        AddLabels { owner: text("octo"), repo: text("hello"), number: 7, labels: vec![text("bug")] }
    );
}

#[test]
fn pull_request_requests() {
    let c = client();
    assert_eq!(
        c.create_pull_request("Fix it", "work/7", "main", "Closes #7"),
        CreatePullRequest {
            owner: text("octo"),
            repo: text("hello"),
            title: text("Fix it"),
            head: text("work/7"),
            base: text("main"),
            body: text("Closes #7"),
        }
    );
    assert_eq!(
        c.get_pull_request(9),
        GetPullRequest { owner: text("octo"), repo: text("hello"), number: 9 }
    );
}

#[test]
fn api_results() {
    assert_eq!(api_result(Ok::<u8, String>(3)), Ok(3));
    assert_eq!(
        api_result(Err::<u8, String>(text("rate limited"))),
        Err(GitHubError::ApiError(text("rate limited")))
    );
}

#[test]
fn pull_request_created_line() {
    assert_eq!(
        pull_request_created(12, "Fix it", Some("https://github.com/octo/hello/pull/12")),
        "📋 Created PR #12: Fix it (https://github.com/octo/hello/pull/12)"
    );
    assert_eq!(pull_request_created(0, "", Some("")), "📋 Created PR #0:  ()");
}

#[test]
fn pull_request_without_address_is_reported_too() {
    assert_eq!(pull_request_created(12, "Fix it", None), "📋 Created PR #12: Fix it");
    assert_eq!(pull_request_created(u64::MAX, "", None), "📋 Created PR #18446744073709551615: ");
}

#[test]
fn branch_push_plan() {
    let push = client().create_branch("work/7", "main");
    assert_eq!(GIT, "git");
    assert_eq!(push.announcement, "🌿 Creating branch 'work/7' from 'main'");
    assert_eq!(push.arguments, vec!["push", "origin", "main:work/7"]);
}

#[test]
fn create_branch_succeeds_whatever_the_push_did() {
    let done = branch_pushed("work/7", PushOutcome::Succeeded);
    assert_eq!(done.result, Ok(()));
    assert_eq!(done.messages, vec!["✅ Branch 'work/7' created successfully"]);

    let rejected = branch_pushed("work/7", PushOutcome::Rejected);
    assert_eq!(rejected.result, Ok(()));
    assert_eq!(
        rejected.messages,
        vec![
            "⚠️  Branch creation via git push failed",
            "   📝 Note: Branch may already exist or need manual creation",
        ]
    );

    let unavailable = branch_pushed("work/7", PushOutcome::Unavailable);
    assert_eq!(unavailable.result, Ok(()));
    assert_eq!(
        unavailable.messages,
        vec![
            "⚠️  Git command not available for branch creation",
            "   📝 Note: Branch needs to be created manually",
        ]
    );
}

#[test]
fn delete_branch_succeeds_and_deletes_nothing() {
    let outcome = client().delete_branch("work/7");
    assert_eq!(outcome.result, Ok(()));
    assert_eq!(outcome.messages, vec!["🗑️  Would delete branch 'work/7'"]);
}

#[test]
fn merge_pull_request_succeeds_and_merges_nothing() {
    let c = client();
    for method in [None, Some("squash"), Some("rebase"), Some("")] {
        let outcome = c.merge_pull_request(12, method);
        assert_eq!(outcome.result, Ok(()));
        assert_eq!(outcome.messages, vec!["🔀 Would merge PR #12"]);
    }
    let outcome = c.merge_pull_request(u64::MAX, None);
    assert_eq!(outcome.result, Ok(()));
    assert_eq!(outcome.messages, vec!["🔀 Would merge PR #18446744073709551615"]);
}
