//! The client: a transport handle together with the repository it works on.
//!
//! Each operation comes in two parts. The first is a method of the client
//! that says what the caller is to do: the call to make through the
//! transport, or the command to run. The second takes how that went and says
//! what the operation returns and what to tell the user. Creating and
//! deleting a branch and merging a pull request never fail: whatever happens
//! to the command behind them, the caller gets `Ok`.

use crate::credentials::{usable_config, Credentials};
use crate::error::{ErrorKind, Failure, GitHubError};
use crate::text::{decimal, to_decimal};
use vstd::prelude::*;

verus! {

/// The program that pushes branches.
pub const GIT: &'static str = "git";

/// The call that lists the open issues of a repository.
#[derive(Debug, PartialEq, Eq)]
pub struct ListOpenIssues {
    pub owner: String,
    pub repo: String,
}

/// The call that gets one issue.
#[derive(Debug, PartialEq, Eq)]
pub struct GetIssue {
    pub owner: String,
    pub repo: String,
    pub number: u64,
}

/// The call that replaces the assignees of an issue.
#[derive(Debug, PartialEq, Eq)]
pub struct SetAssignees {
    pub owner: String,
    pub repo: String,
    pub number: u64,
    pub assignees: Vec<String>,
}

/// The call that adds labels to an issue.
#[derive(Debug, PartialEq, Eq)]
pub struct AddLabels {
    pub owner: String,
    pub repo: String,
    pub number: u64,
    pub labels: Vec<String>,
}

/// The call that opens a pull request from `head` into `base`.
#[derive(Debug, PartialEq, Eq)]
pub struct CreatePullRequest {
    pub owner: String,
    pub repo: String,
    pub title: String,
    pub head: String,
    pub base: String,
    pub body: String,
}

/// The call that gets one pull request.
#[derive(Debug, PartialEq, Eq)]
pub struct GetPullRequest {
    pub owner: String,
    pub repo: String,
    pub number: u64,
}

/// What a call through the transport stands for, whichever it is.
pub enum Call {
    ListOpenIssues { owner: Seq<char>, repo: Seq<char> },
    GetIssue { owner: Seq<char>, repo: Seq<char>, number: u64 },
    SetAssignees { owner: Seq<char>, repo: Seq<char>, number: u64, assignees: Seq<Seq<char>> },
    AddLabels { owner: Seq<char>, repo: Seq<char>, number: u64, labels: Seq<Seq<char>> },
    CreatePullRequest {
        owner: Seq<char>,
        repo: Seq<char>,
        title: Seq<char>,
        head: Seq<char>,
        base: Seq<char>,
        body: Seq<char>,
    },
    GetPullRequest { owner: Seq<char>, repo: Seq<char>, number: u64 },
}

impl View for ListOpenIssues {
    type V = Call;

    open spec fn view(&self) -> Call {
        Call::ListOpenIssues { owner: self.owner@, repo: self.repo@ }
    }
}

impl View for GetIssue {
    type V = Call;

    open spec fn view(&self) -> Call {
        Call::GetIssue { owner: self.owner@, repo: self.repo@, number: self.number }
    }
}

impl View for SetAssignees {
    type V = Call;

    open spec fn view(&self) -> Call {
        Call::SetAssignees {
            owner: self.owner@,
            repo: self.repo@,
            number: self.number,
            assignees: self.assignees.deep_view(),
        }
    }
}

impl View for AddLabels {
    type V = Call;

    open spec fn view(&self) -> Call {
        Call::AddLabels {
            owner: self.owner@,
            repo: self.repo@,
            number: self.number,
            labels: self.labels.deep_view(),
        }
    }
}

impl View for CreatePullRequest {
    type V = Call;

    open spec fn view(&self) -> Call {
        Call::CreatePullRequest {
            owner: self.owner@,
            repo: self.repo@,
            title: self.title@,
            head: self.head@,
            base: self.base@,
            body: self.body@,
        }
    }
}

impl View for GetPullRequest {
    type V = Call;

    open spec fn view(&self) -> Call {
        Call::GetPullRequest { owner: self.owner@, repo: self.repo@, number: self.number }
    }
}

/// How the push that was to create a branch went.
#[derive(Clone, Copy, Debug, PartialEq, Eq, Structural)]
pub enum PushOutcome {
    /// The command ran and reported success.
    Succeeded,
    /// The command ran and reported failure.
    Rejected,
    /// The command could not be run at all.
    Unavailable,
}

/// The push that creates a branch: what to tell the user first, and the
/// arguments to run `GIT` with.
#[derive(Debug, PartialEq, Eq)]
pub struct BranchPush {
    pub announcement: String,
    pub arguments: Vec<String>,
}

/// What a `BranchPush` stands for.
pub struct Push {
    pub announcement: Seq<char>,
    pub arguments: Seq<Seq<char>>,
}

impl View for BranchPush {
    type V = Push;

    open spec fn view(&self) -> Push {
        Push { announcement: self.announcement@, arguments: self.arguments.deep_view() }
    }
}

/// The end of an operation that does not fail: what to tell the user, line
/// by line, and what the operation returns.
#[derive(Debug, PartialEq, Eq)]
pub struct SoftOutcome {
    pub messages: Vec<String>,
    pub result: Result<(), GitHubError>,
}

/// What a `SoftOutcome` stands for.
pub struct Ending {
    pub messages: Seq<Seq<char>>,
    pub result: Result<(), Failure>,
}

impl View for SoftOutcome {
    type V = Ending;

    open spec fn view(&self) -> Ending {
        Ending {
            messages: self.messages.deep_view(),
            result: match self.result {
                Ok(_) => Ok(()),
                Err(e) => Err(e@),
            },
        }
    }
}

/// The push that creates `branch_name` from `from_branch`.
pub open spec fn push_of(branch_name: Seq<char>, from_branch: Seq<char>) -> Push {
    Push {
        announcement: "🌿 Creating branch '"@ + branch_name + "' from '"@ + from_branch + "'"@,
        arguments: seq!["push"@, "origin"@, from_branch + ":"@ + branch_name],
    }
}

/// How creating `branch_name` ends, given how the push went.
pub open spec fn pushed(branch_name: Seq<char>, outcome: PushOutcome) -> Ending {
    Ending {
        messages: match outcome {
            PushOutcome::Succeeded => seq![
                "✅ Branch '"@ + branch_name + "' created successfully"@,
            ],
            PushOutcome::Rejected => seq![
                "⚠️  Branch creation via git push failed"@,
                "   📝 Note: Branch may already exist or need manual creation"@,
            ],
            PushOutcome::Unavailable => seq![
                "⚠️  Git command not available for branch creation"@,
                "   📝 Note: Branch needs to be created manually"@,
            ],
        },
        result: Ok(()),
    }
}

/// How deleting `branch_name` ends.
pub open spec fn deleted(branch_name: Seq<char>) -> Ending {
    Ending {
        messages: seq!["🗑️  Would delete branch '"@ + branch_name + "'"@],
        result: Ok(()),
    }
}

/// How merging pull request number `pr_number` ends.
pub open spec fn merged(pr_number: u64) -> Ending {
    Ending { messages: seq!["🔀 Would merge PR #"@ + decimal(pr_number as nat)], result: Ok(()) }
}

/// What is said once a pull request has been opened: its number and title,
/// and its address in brackets where it has one.
pub open spec fn created_message(number: u64, title: Seq<char>, url: Option<Seq<char>>) -> Seq<
    char,
> {
    let opened = "📋 Created PR #"@ + decimal(number as nat) + ": "@ + title;
    match url {
        Some(address) => opened + " ("@ + address + ")"@,
        None => opened,
    }
}

/// The characters of an address, if there is one.
pub open spec fn address_view(url: Option<&str>) -> Option<Seq<char>> {
    match url {
        Some(address) => Some(address@),
        None => None,
    }
}

/// What a call through the transport amounts to: its value, or an `ApiError`
/// with the transport's description of what went wrong.
pub open spec fn api_outcome<R>(outcome: Result<R, String>) -> Result<R, Failure> {
    match outcome {
        Ok(value) => Ok(value),
        Err(why) => Err(Failure { kind: ErrorKind::ApiError, detail: why@ }),
    }
}

/// A transport handle and the repository it is used on. Owner and name of
/// the repository are neither empty nor placeholders.
#[derive(Debug)]
pub struct GitHubClient<T> {
    transport: T,
    owner: String,
    repo: String,
}

/// What a `GitHubClient` stands for.
pub struct ClientView<T> {
    pub transport: T,
    pub owner: Seq<char>,
    pub repo: Seq<char>,
}

impl<T> View for GitHubClient<T> {
    type V = ClientView<T>;

    closed spec fn view(&self) -> ClientView<T> {
        ClientView { transport: self.transport, owner: self.owner@, repo: self.repo@ }
    }
}

impl<T> GitHubClient<T> {
    #[verifier::type_invariant]
    spec fn well_formed(&self) -> bool {
        usable_config(self.owner@, self.repo@)
    }

    /// Makes the client from resolved credentials and from what building
    /// the transport with their token gave: the handle, or the transport's
    /// description of what went wrong, which becomes an `ApiError`. The
    /// client does not keep the token.
    pub fn new(credentials: Credentials, transport: Result<T, String>) -> (r: Result<
        GitHubClient<T>,
        GitHubError,
    >)
        ensures
            match transport {
                Ok(handle) => r matches Ok(client) && client@ == (ClientView {
                    transport: handle,
                    owner: credentials@.owner,
                    repo: credentials@.repo,
                }),
                Err(why) => r matches Err(e) && e@ == (Failure {
                    kind: ErrorKind::ApiError,
                    detail: why@,
                }),
            },
    {
        match transport {
            Ok(handle) => {
                let (owner, repo) = credentials.into_repository();
                Ok(GitHubClient { transport: handle, owner, repo })
            },
            Err(why) => Err(GitHubError::ApiError(why)),
        }
    }

    /// The transport handle.
    pub fn transport(&self) -> (r: &T)
        ensures
            *r == self@.transport,
    {
        &self.transport
    }

    /// The owner of the repository.
    pub fn owner(&self) -> (r: &str)
        ensures
            r@ == self@.owner,
            usable_config(self@.owner, self@.repo),
    {
        proof {
            use_type_invariant(self);
        }
        self.owner.as_str()
    }

    /// The name of the repository.
    pub fn repo(&self) -> (r: &str)
        ensures
            r@ == self@.repo,
            usable_config(self@.owner, self@.repo),
    {
        proof {
            use_type_invariant(self);
        }
        self.repo.as_str()
    }

    /// The call that lists the open issues of the repository. Its outcome
    /// goes to `api_result`.
    pub fn fetch_issues(&self) -> (r: ListOpenIssues)
        ensures
            r@ == (Call::ListOpenIssues { owner: self@.owner, repo: self@.repo }),
    {
        ListOpenIssues { owner: self.owner().to_owned(), repo: self.repo().to_owned() }
    }

    /// The call that gets one issue. Its outcome goes to `api_result`.
    pub fn fetch_issue(&self, issue_number: u64) -> (r: GetIssue)
        ensures
            r@ == (Call::GetIssue {
                owner: self@.owner,
                repo: self@.repo,
                number: issue_number,
            }),
    {
        GetIssue {
            owner: self.owner().to_owned(),
            repo: self.repo().to_owned(),
            number: issue_number,
        }
    }

    /// The call that makes `assignee` the one assignee of an issue. It is
    /// made under the retry policy: the outcome of each attempt goes to
    /// `RetryState::settle`.
    pub fn assign_issue(&self, issue_number: u64, assignee: &str) -> (r: SetAssignees)
        ensures
            r@ == (Call::SetAssignees {
                owner: self@.owner,
                repo: self@.repo,
                number: issue_number,
                assignees: seq![assignee@],
            }),
    {
        let mut assignees: Vec<String> = Vec::new();
        assignees.push(assignee.to_owned());
        assert(assignees.deep_view() =~= seq![assignee@]);
        SetAssignees {
            owner: self.owner().to_owned(),
            repo: self.repo().to_owned(),
            number: issue_number,
            assignees,
        }
    }

    /// The call that adds `label` to an issue. Its outcome goes to
    /// `api_result`.
    pub fn add_label_to_issue(&self, issue_number: u64, label: &str) -> (r: AddLabels)
        ensures
            r@ == (Call::AddLabels {
                owner: self@.owner,
                repo: self@.repo,
                number: issue_number,
                labels: seq![label@],
            }),
    {
        let mut labels: Vec<String> = Vec::new();
        labels.push(label.to_owned());
        assert(labels.deep_view() =~= seq![label@]);
        AddLabels {
            owner: self.owner().to_owned(),
            repo: self.repo().to_owned(),
            number: issue_number,
            labels,
        }
    }

    /// The call that opens a pull request. Its outcome goes to `api_result`,
    /// and what was opened to `pull_request_created`.
    pub fn create_pull_request(
        &self,
        title: &str,
        head_branch: &str,
        base_branch: &str,
        body: &str,
    ) -> (r: CreatePullRequest)
        ensures
            r@ == (Call::CreatePullRequest {
                owner: self@.owner,
                repo: self@.repo,
                title: title@,
                head: head_branch@,
                base: base_branch@,
                body: body@,
            }),
    {
        CreatePullRequest {
            owner: self.owner().to_owned(),
            repo: self.repo().to_owned(),
            title: title.to_owned(),
            head: head_branch.to_owned(),
            base: base_branch.to_owned(),
            body: body.to_owned(),
        }
    }

    /// The call that gets one pull request. Its outcome goes to `api_result`.
    pub fn get_pull_request(&self, pr_number: u64) -> (r: GetPullRequest)
        ensures
            r@ == (Call::GetPullRequest {
                owner: self@.owner,
                repo: self@.repo,
                number: pr_number,
            }),
    {
        GetPullRequest {
            owner: self.owner().to_owned(),
            repo: self.repo().to_owned(),
            number: pr_number,
        }
    }

    /// The push that creates `branch_name` from `from_branch`. How it went
    /// goes to `branch_pushed`.
    pub fn create_branch(&self, branch_name: &str, from_branch: &str) -> (r: BranchPush)
        ensures
            r@ == push_of(branch_name@, from_branch@),
    {
        let mut announcement = "🌿 Creating branch '".to_owned();
        announcement.append(branch_name);
        announcement.append("' from '");
        announcement.append(from_branch);
        announcement.append("'");
        let mut refspec = from_branch.to_owned();
        refspec.append(":");
        refspec.append(branch_name);
        let mut arguments: Vec<String> = Vec::new();
        arguments.push("push".to_owned());
        arguments.push("origin".to_owned());
        arguments.push(refspec);
        assert(arguments.deep_view() =~= push_of(branch_name@, from_branch@).arguments);
        BranchPush { announcement, arguments }
    }

    /// Deleting a branch: nothing is deleted, the user is told what would
    /// be, and the operation succeeds.
    pub fn delete_branch(&self, branch_name: &str) -> (r: SoftOutcome)
        ensures
            r@ == deleted(branch_name@),
            r.result is Ok,
    {
        let mut line = "🗑️  Would delete branch '".to_owned();
        line.append(branch_name);
        line.append("'");
        let mut messages: Vec<String> = Vec::new();
        messages.push(line);
        assert(messages.deep_view() =~= deleted(branch_name@).messages);
        SoftOutcome { messages, result: Ok(()) }
    }

    /// Merging a pull request: nothing is merged, whatever the method asked
    /// for; the user is told what would be, and the operation succeeds.
    pub fn merge_pull_request(
        &self,
        pr_number: u64,
        _merge_method: Option<&str>,
    ) -> (r: SoftOutcome)
        ensures
            r@ == merged(pr_number),
            r.result is Ok,
    {
        let mut line = "🔀 Would merge PR #".to_owned();
        let number = to_decimal(pr_number);
        line.append(number.as_str());
        let mut messages: Vec<String> = Vec::new();
        messages.push(line);
        assert(messages.deep_view() =~= merged(pr_number).messages);
        SoftOutcome { messages, result: Ok(()) }
    }
}

/// What a call through the transport returns to the caller of the
/// operation: the value as it came, or an `ApiError` that carries the
/// transport's description of what went wrong.
pub fn api_result<R>(outcome: Result<R, String>) -> (r: Result<R, GitHubError>)
    ensures
        match api_outcome(outcome) {
            Ok(value) => r == Ok::<R, GitHubError>(value),
            Err(failure) => r matches Err(e) && e@ == failure,
        },
{
    match outcome {
        Ok(value) => Ok(value),
        Err(why) => Err(GitHubError::ApiError(why)),
    }
}

/// The end of `create_branch`, given how the push went. It succeeds however
/// the push went.
pub fn branch_pushed(branch_name: &str, outcome: PushOutcome) -> (r: SoftOutcome)
    ensures
        r@ == pushed(branch_name@, outcome),
        r.result is Ok,
{
    let mut messages: Vec<String> = Vec::new();
    match outcome {
        PushOutcome::Succeeded => {
            let mut line = "✅ Branch '".to_owned();
            line.append(branch_name);
            line.append("' created successfully");
            messages.push(line);
        },
        PushOutcome::Rejected => {
            messages.push("⚠️  Branch creation via git push failed".to_owned());
            messages.push("   📝 Note: Branch may already exist or need manual creation".to_owned());
        },
        PushOutcome::Unavailable => {
            messages.push("⚠️  Git command not available for branch creation".to_owned());
            messages.push("   📝 Note: Branch needs to be created manually".to_owned());
        },
    }
    assert(messages.deep_view() =~= pushed(branch_name@, outcome).messages);
    SoftOutcome { messages, result: Ok(()) }
}

/// What to tell the user once a pull request has been opened, given its
/// number, its title and its address, if the answer held one.
pub fn pull_request_created(number: u64, title: &str, url: Option<&str>) -> (r: String)
    ensures
        r@ == created_message(number, title@, address_view(url)),
{
    let mut line = "📋 Created PR #".to_owned();
    let shown = to_decimal(number);
    line.append(shown.as_str());
    line.append(": ");
    line.append(title);
    if let Some(address) = url {
        line.append(" (");
        line.append(address);
        line.append(")");
    }
    line
}

/// Creating a branch, deleting a branch and merging a pull request end in
/// success, however the push went and whatever branch, pull request or merge
/// method was named.
pub proof fn lemma_soft_operations_succeed(
    branch_name: Seq<char>,
    outcome: PushOutcome,
    pr_number: u64,
)
    ensures
        pushed(branch_name, outcome).result is Ok,
        deleted(branch_name).result is Ok,
        merged(pr_number).result is Ok,
{
}

} // verus!
