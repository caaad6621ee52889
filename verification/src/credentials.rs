//! Where the access token and the repository coordinates come from.
//!
//! Each value is looked for in the environment first and in a file of the
//! credential directory second. A value that is empty, or that is still the
//! placeholder of an unedited template, counts as absent. The caller reads
//! the environment and the files and hands over what it found.

use crate::error::{
    lemma_report_shows_symptom_and_remedies, remedies, report, ErrorKind, Failure, GitHubError,
};
use crate::text::{
    is_padded, is_trimmed, lemma_occurs_in_prefixed, lemma_occurs_in_self,
    lemma_occurs_in_suffixed, lemma_occurs_in_within, lemma_trimmed_undoes_padding, occurs_at,
    occurs_in, same_text, trim, trimmed,
};
use vstd::prelude::*;

verus! {

/// The environment variable that holds the access token.
pub const TOKEN_VARIABLE: &'static str = "CLAMBAKE_GITHUB_TOKEN";

/// The environment variable that holds the repository owner.
pub const OWNER_VARIABLE: &'static str = "GITHUB_OWNER";

/// The environment variable that holds the repository name.
pub const REPO_VARIABLE: &'static str = "GITHUB_REPO";

/// The file that holds the access token, relative to the working directory.
pub const TOKEN_FILE: &'static str = ".clambake/credentials/github_token";

/// The file that holds the repository owner.
pub const OWNER_FILE: &'static str = ".clambake/credentials/github_owner";

/// The file that holds the repository name.
pub const REPO_FILE: &'static str = ".clambake/credentials/github_repo";

/// Where a user creates an access token.
pub const TOKEN_PAGE: &'static str = "https://github.com/settings/tokens";

/// What a template holds in place of an access token.
pub const TOKEN_PLACEHOLDER: &'static str = "YOUR_GITHUB_TOKEN_HERE";

/// What a template holds in place of a repository owner.
pub const OWNER_PLACEHOLDER: &'static str = "your-github-username";

/// What a template holds in place of a repository name.
pub const REPO_PLACEHOLDER: &'static str = "your-repo-name";

/// What the caller found where a credential file should be.
pub enum CredentialFile {
    /// There is no such file.
    Missing,
    /// The file is there and reading it failed, with the file system's words.
    Unreadable(String),
    /// What the file holds, as it was read.
    Contents(String),
}

/// What a `CredentialFile` stands for.
pub enum FileView {
    Missing,
    Unreadable(Seq<char>),
    Contents(Seq<char>),
}

impl View for CredentialFile {
    type V = FileView;

    open spec fn view(&self) -> FileView {
        match self {
            CredentialFile::Missing => FileView::Missing,
            CredentialFile::Unreadable(why) => FileView::Unreadable(why@),
            CredentialFile::Contents(text) => FileView::Contents(text@),
        }
    }
}

/// Everything credentials can be resolved from.
pub struct CredentialSources {
    /// The value of `TOKEN_VARIABLE`, if it is set.
    pub token_variable: Option<String>,
    /// The value of `OWNER_VARIABLE`, if it is set.
    pub owner_variable: Option<String>,
    /// The value of `REPO_VARIABLE`, if it is set.
    pub repo_variable: Option<String>,
    /// What was found at `TOKEN_FILE`.
    pub token_file: CredentialFile,
    /// What was found at `OWNER_FILE`.
    pub owner_file: CredentialFile,
    /// What was found at `REPO_FILE`.
    pub repo_file: CredentialFile,
}

/// What a `CredentialSources` stands for.
pub struct SourcesView {
    pub token_variable: Option<Seq<char>>,
    pub owner_variable: Option<Seq<char>>,
    pub repo_variable: Option<Seq<char>>,
    pub token_file: FileView,
    pub owner_file: FileView,
    pub repo_file: FileView,
}

/// The characters of a variable's value, if it is set.
pub open spec fn variable_view(value: Option<String>) -> Option<Seq<char>> {
    match value {
        Some(text) => Some(text@),
        None => None,
    }
}

impl View for CredentialSources {
    type V = SourcesView;

    open spec fn view(&self) -> SourcesView {
        SourcesView {
            token_variable: variable_view(self.token_variable),
            owner_variable: variable_view(self.owner_variable),
            repo_variable: variable_view(self.repo_variable),
            token_file: self.token_file@,
            owner_file: self.owner_file@,
            repo_file: self.repo_file@,
        }
    }
}

/// An access token and the repository it is for. None of the three is empty
/// and none is a placeholder.
pub struct Credentials {
    token: String,
    owner: String,
    repo: String,
}

/// What a `Credentials` stands for.
pub struct CredentialsView {
    pub token: Seq<char>,
    pub owner: Seq<char>,
    pub repo: Seq<char>,
}

impl View for Credentials {
    type V = CredentialsView;

    closed spec fn view(&self) -> CredentialsView {
        CredentialsView { token: self.token@, owner: self.owner@, repo: self.repo@ }
    }
}

/// Whether `value` can serve where `placeholder` marks an unedited template:
/// it is neither empty nor the placeholder.
pub open spec fn usable(value: Seq<char>, placeholder: Seq<char>) -> bool {
    value.len() > 0 && value != placeholder
}

/// Whether `token` can serve as an access token.
pub open spec fn usable_token(token: Seq<char>) -> bool {
    usable(token, TOKEN_PLACEHOLDER@)
}

/// Whether `owner` and `repo` can serve as repository coordinates.
pub open spec fn usable_config(owner: Seq<char>, repo: Seq<char>) -> bool {
    usable(owner, OWNER_PLACEHOLDER@) && usable(repo, REPO_PLACEHOLDER@)
}

/// The text of the failure when there is no token file. It names the
/// variable to set, the file to create and the page where tokens are made.
pub open spec fn token_missing_message() -> Seq<char> {
    "GitHub token not found. Please set "@ + TOKEN_VARIABLE@
        + " environment variable or create "@ + TOKEN_FILE@
        + " with your GitHub personal access token (create one at "@ + TOKEN_PAGE@ + ")."@
}

/// The text of the failure when the token file holds no usable token. It
/// names the variable to set, the file to edit and the page where tokens are
/// made.
pub open spec fn token_unusable_message() -> Seq<char> {
    "GitHub token not usable. Please set "@ + TOKEN_VARIABLE@
        + " environment variable or replace what is in "@ + TOKEN_FILE@
        + " with your GitHub personal access token (create one at "@ + TOKEN_PAGE@ + ")."@
}

/// The text of the failure when there is no owner file.
pub open spec fn owner_missing_message() -> Seq<char> {
    "GitHub config not found. Please set "@ + OWNER_VARIABLE@ + " and "@ + REPO_VARIABLE@
        + " environment variables or create "@ + OWNER_FILE@
        + " with your GitHub username/organization."@
}

/// The text of the failure when there is no repository file.
pub open spec fn repo_missing_message() -> Seq<char> {
    "GitHub repo not found at "@ + REPO_FILE@
        + ". Please create this file with your repository name."@
}

/// The text of the failure when the files hold no usable coordinates.
pub open spec fn config_unusable_message() -> Seq<char> {
    "GitHub owner and repo must be set to actual values, not placeholders"@
}

/// The token that the file gives, or why it gives none.
pub open spec fn token_from_file(file: FileView) -> Result<Seq<char>, Failure> {
    match file {
        FileView::Missing => Err(
            Failure { kind: ErrorKind::TokenNotFound, detail: token_missing_message() },
        ),
        FileView::Unreadable(why) => Err(Failure { kind: ErrorKind::IoError, detail: why }),
        FileView::Contents(text) => if usable_token(trimmed(text)) {
            Ok(trimmed(text))
        } else {
            Err(Failure { kind: ErrorKind::TokenNotFound, detail: token_unusable_message() })
        },
    }
}

/// The token that the sources give: the variable's value as it stands where
/// that is usable, else what the file gives.
pub open spec fn token_of(variable: Option<Seq<char>>, file: FileView) -> Result<
    Seq<char>,
    Failure,
> {
    match variable {
        Some(token) if usable_token(token) => Ok(token),
        _ => token_from_file(file),
    }
}

/// The coordinates that the two files give, or why they give none. A missing
/// file is reported before an unreadable one, the owner's before the
/// repository's.
pub open spec fn config_from_files(owner_file: FileView, repo_file: FileView) -> Result<
    (Seq<char>, Seq<char>),
    Failure,
> {
    match (owner_file, repo_file) {
        (FileView::Missing, _) => Err(
            Failure { kind: ErrorKind::ConfigNotFound, detail: owner_missing_message() },
        ),
        (_, FileView::Missing) => Err(
            Failure { kind: ErrorKind::ConfigNotFound, detail: repo_missing_message() },
        ),
        (FileView::Unreadable(why), _) => Err(Failure { kind: ErrorKind::IoError, detail: why }),
        (_, FileView::Unreadable(why)) => Err(Failure { kind: ErrorKind::IoError, detail: why }),
        (FileView::Contents(owner), FileView::Contents(repo)) => if usable_config(
            trimmed(owner),
            trimmed(repo),
        ) {
            Ok((trimmed(owner), trimmed(repo)))
        } else {
            Err(Failure { kind: ErrorKind::ConfigNotFound, detail: config_unusable_message() })
        },
    }
}

/// The coordinates that the sources give: the two variables' values as they
/// stand where both are usable, else what the files give.
pub open spec fn config_of(
    owner_variable: Option<Seq<char>>,
    repo_variable: Option<Seq<char>>,
    owner_file: FileView,
    repo_file: FileView,
) -> Result<(Seq<char>, Seq<char>), Failure> {
    match (owner_variable, repo_variable) {
        (Some(owner), Some(repo)) if usable_config(owner, repo) => Ok((owner, repo)),
        _ => config_from_files(owner_file, repo_file),
    }
}

/// The credentials that the sources give. The token is resolved first, and
/// its failure is the one reported.
pub open spec fn credentials_of(s: SourcesView) -> Result<CredentialsView, Failure> {
    match token_of(s.token_variable, s.token_file) {
        Err(failure) => Err(failure),
        Ok(token) => match config_of(s.owner_variable, s.repo_variable, s.owner_file, s.repo_file) {
            Err(failure) => Err(failure),
            Ok((owner, repo)) => Ok(CredentialsView { token, owner, repo }),
        },
    }
}

/// Whether none of the three values is empty or a placeholder.
pub open spec fn usable_credentials(c: CredentialsView) -> bool {
    usable_token(c.token) && usable_config(c.owner, c.repo)
}

/// Decides `usable`.
fn is_usable(value: &str, placeholder: &str) -> (r: bool)
    ensures
        r == usable(value@, placeholder@),
{
    !value.is_empty() && !same_text(value, placeholder)
}

fn token_missing() -> (r: String)
    ensures
        r@ == token_missing_message(),
{
    let mut m = "GitHub token not found. Please set ".to_owned();
    m.append(TOKEN_VARIABLE);
    m.append(" environment variable or create ");
    m.append(TOKEN_FILE);
    m.append(" with your GitHub personal access token (create one at ");
    m.append(TOKEN_PAGE);
    m.append(").");
    m
}

fn token_unusable() -> (r: String)
    ensures
        r@ == token_unusable_message(),
{
    let mut m = "GitHub token not usable. Please set ".to_owned();
    m.append(TOKEN_VARIABLE);
    m.append(" environment variable or replace what is in ");
    m.append(TOKEN_FILE);
    m.append(" with your GitHub personal access token (create one at ");
    m.append(TOKEN_PAGE);
    m.append(").");
    m
}

fn owner_missing() -> (r: String)
    ensures
        r@ == owner_missing_message(),
{
    let mut m = "GitHub config not found. Please set ".to_owned();
    m.append(OWNER_VARIABLE);
    m.append(" and ");
    m.append(REPO_VARIABLE);
    m.append(" environment variables or create ");
    m.append(OWNER_FILE);
    m.append(" with your GitHub username/organization.");
    m
}

fn repo_missing() -> (r: String)
    ensures
        r@ == repo_missing_message(),
{
    let mut m = "GitHub repo not found at ".to_owned();
    m.append(REPO_FILE);
    m.append(". Please create this file with your repository name.");
    m
}

fn config_unusable() -> (r: String)
    ensures
        r@ == config_unusable_message(),
{
    "GitHub owner and repo must be set to actual values, not placeholders".to_owned()
}

/// Resolves the access token from the value of `TOKEN_VARIABLE` and from what
/// was found at `TOKEN_FILE`.
pub fn read_token(token_variable: Option<String>, token_file: CredentialFile) -> (r: Result<
    String,
    GitHubError,
>)
    ensures
        match token_of(variable_view(token_variable), token_file@) {
            Ok(token) => r matches Ok(t) && t@ == token,
            Err(failure) => r matches Err(e) && e@ == failure,
        },
{
    if let Some(token) = token_variable {
        if is_usable(token.as_str(), TOKEN_PLACEHOLDER) {
            return Ok(token);
        }
    }
    match token_file {
        CredentialFile::Missing => Err(GitHubError::TokenNotFound(token_missing())),
        CredentialFile::Unreadable(why) => Err(GitHubError::IoError(why)),
        CredentialFile::Contents(text) => {
            let token = trim(text.as_str());
            if is_usable(token.as_str(), TOKEN_PLACEHOLDER) {
                Ok(token)
            } else {
                Err(GitHubError::TokenNotFound(token_unusable()))
            }
        },
    }
}

/// Resolves owner and name of the repository from the values of
/// `OWNER_VARIABLE` and `REPO_VARIABLE` and from what was found at
/// `OWNER_FILE` and `REPO_FILE`.
pub fn read_config(
    owner_variable: Option<String>,
    repo_variable: Option<String>,
    owner_file: CredentialFile,
    repo_file: CredentialFile,
) -> (r: Result<(String, String), GitHubError>)
    ensures
        match config_of(
            variable_view(owner_variable),
            variable_view(repo_variable),
            owner_file@,
            repo_file@,
        ) {
            Ok((owner, repo)) => r matches Ok(c) && c.0@ == owner && c.1@ == repo,
            Err(failure) => r matches Err(e) && e@ == failure,
        },
{
    if let Some(owner) = owner_variable {
        if let Some(repo) = repo_variable {
            if is_usable(owner.as_str(), OWNER_PLACEHOLDER) && is_usable(
                repo.as_str(),
                REPO_PLACEHOLDER,
            ) {
                return Ok((owner, repo));
            }
        }
    }
    match (owner_file, repo_file) {
        (CredentialFile::Missing, _) => Err(GitHubError::ConfigNotFound(owner_missing())),
        (_, CredentialFile::Missing) => Err(GitHubError::ConfigNotFound(repo_missing())),
        (CredentialFile::Unreadable(why), _) => Err(GitHubError::IoError(why)),
        (_, CredentialFile::Unreadable(why)) => Err(GitHubError::IoError(why)),
        (CredentialFile::Contents(owner_text), CredentialFile::Contents(repo_text)) => {
            let owner = trim(owner_text.as_str());
            let repo = trim(repo_text.as_str());
            if is_usable(owner.as_str(), OWNER_PLACEHOLDER) && is_usable(
                repo.as_str(),
                REPO_PLACEHOLDER,
            ) {
                Ok((owner, repo))
            } else {
                Err(GitHubError::ConfigNotFound(config_unusable()))
            }
        },
    }
}

impl Credentials {
    #[verifier::type_invariant]
    spec fn well_formed(&self) -> bool {
        usable_credentials(self@)
    }

    /// Resolves token, owner and repository name from what the caller found
    /// in the environment and in the credential directory.
    pub fn resolve(sources: CredentialSources) -> (r: Result<Credentials, GitHubError>)
        ensures
            match credentials_of(sources@) {
                Ok(credentials) => r matches Ok(c) && c@ == credentials,
                Err(failure) => r matches Err(e) && e@ == failure,
            },
    {
        let token = match read_token(sources.token_variable, sources.token_file) {
            Ok(token) => token,
            Err(e) => {
                return Err(e);
            },
        };
        let (owner, repo) = match read_config(
            sources.owner_variable,
            sources.repo_variable,
            sources.owner_file,
            sources.repo_file,
        ) {
            Ok(config) => config,
            Err(e) => {
                return Err(e);
            },
        };
        Ok(Credentials { token, owner, repo })
    }

    /// The access token.
    pub fn token(&self) -> (r: &str)
        ensures
            r@ == self@.token,
            usable_credentials(self@),
    {
        proof {
            use_type_invariant(self);
        }
        self.token.as_str()
    }

    /// The owner of the repository.
    pub fn owner(&self) -> (r: &str)
        ensures
            r@ == self@.owner,
            usable_credentials(self@),
    {
        proof {
            use_type_invariant(self);
        }
        self.owner.as_str()
    }

    /// The name of the repository.
    pub fn repo(&self) -> (r: &str)
        ensures
            r@ == self@.repo,
            usable_credentials(self@),
    {
        proof {
            use_type_invariant(self);
        }
        self.repo.as_str()
    }

    /// Gives up the token and keeps owner and name of the repository.
    pub fn into_repository(self) -> (r: (String, String))
        ensures
            r.0@ == self@.owner,
            r.1@ == self@.repo,
            usable_credentials(self@),
    {
        proof {
            use_type_invariant(&self);
        }
        (self.owner, self.repo)
    }
}

/// No placeholder and no empty value is ever resolved: what resolution
/// returns is usable, whatever the sources hold.
pub proof fn lemma_resolved_values_are_usable(s: SourcesView)
    ensures
        token_of(s.token_variable, s.token_file) matches Ok(token) ==> usable_token(token),
        config_of(s.owner_variable, s.repo_variable, s.owner_file, s.repo_file) matches Ok(c)
            ==> usable_config(c.0, c.1),
        credentials_of(s) matches Ok(c) ==> usable_credentials(c),
{
}

/// Where the variable, if it is set, holds the token placeholder, and the
/// file, if there is one, holds it too, with or without whitespace around
/// it, no token is resolved and the failure is `TokenNotFound`. The same
/// goes for sources that hold nothing at all.
pub proof fn lemma_token_placeholder_is_rejected(variable: Option<Seq<char>>, file: FileView)
    requires
        variable matches Some(value) ==> !usable_token(value),
        file matches FileView::Contents(text) ==> !usable_token(trimmed(text)),
        !(file is Unreadable),
    ensures
        !usable_token(TOKEN_PLACEHOLDER@),
        token_of(variable, file) matches Err(failure) && failure.kind == ErrorKind::TokenNotFound,
{
}

/// Where the two variables, if both are set, hold a placeholder for the
/// owner or for the repository, and the two files, if both are there, hold
/// one too, with or without whitespace around it, no coordinates are
/// resolved and the failure is `ConfigNotFound`. The same goes for sources
/// that hold nothing at all.
pub proof fn lemma_config_placeholder_is_rejected(
    owner_variable: Option<Seq<char>>,
    repo_variable: Option<Seq<char>>,
    owner_file: FileView,
    repo_file: FileView,
)
    requires
        owner_variable matches Some(owner) ==> repo_variable matches Some(repo) ==> !usable_config(
            owner,
            repo,
        ),
        owner_file matches FileView::Contents(owner) ==> repo_file matches FileView::Contents(repo)
            ==> !usable_config(trimmed(owner), trimmed(repo)),
        !(owner_file is Unreadable),
        !(repo_file is Unreadable),
    ensures
        forall|repo: Seq<char>| !usable_config(OWNER_PLACEHOLDER@, repo),
        forall|owner: Seq<char>| !usable_config(owner, REPO_PLACEHOLDER@),
        config_of(owner_variable, repo_variable, owner_file, repo_file) matches Err(failure)
            && failure.kind == ErrorKind::ConfigNotFound,
{
}

/// Usable values in the environment win over the files, whatever the files
/// hold.
pub proof fn lemma_environment_takes_precedence(
    s: SourcesView,
    token: Seq<char>,
    owner: Seq<char>,
    repo: Seq<char>,
)
    requires
        s.token_variable == Some(token),
        s.owner_variable == Some(owner),
        s.repo_variable == Some(repo),
    ensures
        usable_token(token) ==> token_of(s.token_variable, s.token_file) == Ok::<
            Seq<char>,
            Failure,
        >(token),
        usable_config(owner, repo) ==> config_of(
            s.owner_variable,
            s.repo_variable,
            s.owner_file,
            s.repo_file,
        ) == Ok::<(Seq<char>, Seq<char>), Failure>((owner, repo)),
        usable_token(token) && usable_config(owner, repo) ==> credentials_of(s) == Ok::<
            CredentialsView,
            Failure,
        >(CredentialsView { token, owner, repo }),
{
}

/// Whether the environment gives no usable token.
pub open spec fn no_token_in_environment(s: SourcesView) -> bool {
    s.token_variable matches Some(token) ==> !usable_token(token)
}

/// Whether the environment gives no usable pair of owner and repository.
pub open spec fn no_config_in_environment(s: SourcesView) -> bool {
    s.owner_variable matches Some(owner) ==> s.repo_variable matches Some(repo) ==> !usable_config(
        owner,
        repo,
    )
}

/// Where the environment gives nothing usable, usable values in the files
/// are resolved, without the whitespace around them.
pub proof fn lemma_files_are_the_fallback(
    s: SourcesView,
    token: Seq<char>,
    owner: Seq<char>,
    repo: Seq<char>,
)
    requires
        no_token_in_environment(s),
        no_config_in_environment(s),
        s.token_file == FileView::Contents(token),
        s.owner_file == FileView::Contents(owner),
        s.repo_file == FileView::Contents(repo),
    ensures
        usable_token(trimmed(token)) ==> token_of(s.token_variable, s.token_file) == Ok::<
            Seq<char>,
            Failure,
        >(trimmed(token)),
        usable_config(trimmed(owner), trimmed(repo)) ==> config_of(
            s.owner_variable,
            s.repo_variable,
            s.owner_file,
            s.repo_file,
        ) == Ok::<(Seq<char>, Seq<char>), Failure>((trimmed(owner), trimmed(repo))),
        usable_token(trimmed(token)) && usable_config(trimmed(owner), trimmed(repo))
            ==> credentials_of(s) == Ok::<CredentialsView, Failure>(
            CredentialsView { token: trimmed(token), owner: trimmed(owner), repo: trimmed(repo) },
        ),
{
}

/// Usable credentials that neither start nor end with whitespace, written
/// to the three files with any whitespace around them, are read back exactly
/// as they were written, where the environment gives nothing usable.
pub proof fn lemma_credential_files_round_trip(
    s: SourcesView,
    written: CredentialsView,
    token: Seq<char>,
    owner: Seq<char>,
    repo: Seq<char>,
)
    requires
        no_token_in_environment(s),
        no_config_in_environment(s),
        usable_credentials(written),
        is_trimmed(written.token),
        is_trimmed(written.owner),
        is_trimmed(written.repo),
        is_padded(token, written.token),
        is_padded(owner, written.owner),
        is_padded(repo, written.repo),
        s.token_file == FileView::Contents(token),
        s.owner_file == FileView::Contents(owner),
        s.repo_file == FileView::Contents(repo),
    ensures
        credentials_of(s) == Ok::<CredentialsView, Failure>(written),
{
    lemma_trimmed_undoes_padding(token, written.token);
    lemma_trimmed_undoes_padding(owner, written.owner);
    lemma_trimmed_undoes_padding(repo, written.repo);
}

/// A text put together from seven parts holds the second, the fourth and the
/// sixth of them.
proof fn lemma_names_occur(
    a: Seq<char>,
    x: Seq<char>,
    b: Seq<char>,
    y: Seq<char>,
    c: Seq<char>,
    z: Seq<char>,
    d: Seq<char>,
)
    ensures
        occurs_in(x, a + x + b + y + c + z + d),
        occurs_in(y, a + x + b + y + c + z + d),
        occurs_in(z, a + x + b + y + c + z + d),
{
    lemma_occurs_in_self(x);
    lemma_occurs_in_prefixed(x, x, a);
    lemma_occurs_in_suffixed(x, a + x, b);
    lemma_occurs_in_suffixed(x, a + x + b, y);
    lemma_occurs_in_suffixed(x, a + x + b + y, c);
    lemma_occurs_in_suffixed(x, a + x + b + y + c, z);
    lemma_occurs_in_suffixed(x, a + x + b + y + c + z, d);
    lemma_occurs_in_self(y);
    lemma_occurs_in_prefixed(y, y, a + x + b);
    lemma_occurs_in_suffixed(y, a + x + b + y, c);
    lemma_occurs_in_suffixed(y, a + x + b + y + c, z);
    lemma_occurs_in_suffixed(y, a + x + b + y + c + z, d);
    lemma_occurs_in_self(z);
    lemma_occurs_in_prefixed(z, z, a + x + b + y + c);
    lemma_occurs_in_suffixed(z, a + x + b + y + c + z, d);
}

/// Whenever no source gives a usable token, the failure's own text names
/// both ways out, the variable to set and the file to fill, and points at
/// the page where tokens are created.
pub proof fn lemma_token_not_found_names_the_ways_out(variable: Option<Seq<char>>, file: FileView)
    requires
        token_of(variable, file) matches Err(failure) && failure.kind == ErrorKind::TokenNotFound,
    ensures
        occurs_in(TOKEN_VARIABLE@, token_of(variable, file)->Err_0.detail),
        occurs_in(TOKEN_FILE@, token_of(variable, file)->Err_0.detail),
        occurs_in(TOKEN_PAGE@, token_of(variable, file)->Err_0.detail),
{
    let tail = " with your GitHub personal access token (create one at "@;
    if file is Missing {
        lemma_names_occur(
            "GitHub token not found. Please set "@,
            TOKEN_VARIABLE@,
            " environment variable or create "@,
            TOKEN_FILE@,
            tail,
            TOKEN_PAGE@,
            ")."@,
        );
    } else {
        lemma_names_occur(
            "GitHub token not usable. Please set "@,
            TOKEN_VARIABLE@,
            " environment variable or replace what is in "@,
            TOKEN_FILE@,
            tail,
            TOKEN_PAGE@,
            ")."@,
        );
    }
}

/// The failure for a missing owner or repository file names that file.
pub proof fn lemma_config_missing_names_the_file()
    ensures
        occurs_in(OWNER_FILE@, owner_missing_message()),
        occurs_in(REPO_FILE@, repo_missing_message()),
{
    let a = "GitHub config not found. Please set "@ + OWNER_VARIABLE@ + " and "@ + REPO_VARIABLE@
        + " environment variables or create "@;
    lemma_occurs_in_self(OWNER_FILE@);
    lemma_occurs_in_prefixed(OWNER_FILE@, OWNER_FILE@, a);
    lemma_occurs_in_suffixed(
        OWNER_FILE@,
        a + OWNER_FILE@,
        " with your GitHub username/organization."@,
    );
    lemma_occurs_in_self(REPO_FILE@);
    lemma_occurs_in_prefixed(REPO_FILE@, REPO_FILE@, "GitHub repo not found at "@);
    lemma_occurs_in_suffixed(
        REPO_FILE@,
        "GitHub repo not found at "@ + REPO_FILE@,
        ". Please create this file with your repository name."@,
    );
}

/// Whatever text a `TokenNotFound` carries, its report names the variable to
/// set and the page where tokens are created.
pub proof fn lemma_token_report_shows_the_ways_out(f: Failure)
    requires
        f.kind == ErrorKind::TokenNotFound,
    ensures
        occurs_in(TOKEN_VARIABLE@, report(f)),
        occurs_in(TOKEN_PAGE@, report(f)),
{
    let fixes = remedies(ErrorKind::TokenNotFound);
    lemma_report_shows_symptom_and_remedies(f);
    assert(occurs_in(TOKEN_VARIABLE@, "\n"@ + fixes[1])) by {
        reveal_strlit("CLAMBAKE_GITHUB_TOKEN");
        reveal_strlit("   → Set token directly: export CLAMBAKE_GITHUB_TOKEN=your_token");
        assert(fixes[1].subrange(32, 53) == TOKEN_VARIABLE@);
        assert(occurs_at(TOKEN_VARIABLE@, fixes[1], 32));
        lemma_occurs_in_prefixed(TOKEN_VARIABLE@, fixes[1], "\n"@);
    }
    assert(occurs_in(TOKEN_PAGE@, "\n"@ + fixes[2])) by {
        reveal_strlit("https://github.com/settings/tokens");
        reveal_strlit("   → Create token at: https://github.com/settings/tokens");
        assert(fixes[2].subrange(22, 56) == TOKEN_PAGE@);
        assert(occurs_at(TOKEN_PAGE@, fixes[2], 22));
        lemma_occurs_in_prefixed(TOKEN_PAGE@, fixes[2], "\n"@);
    }
    lemma_occurs_in_within(TOKEN_VARIABLE@, "\n"@ + fixes[1], report(f));
    lemma_occurs_in_within(TOKEN_PAGE@, "\n"@ + fixes[2], report(f));
}

} // verus!
