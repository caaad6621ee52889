//! The failures a client operation can end in, and the report each one renders.
//!
//! A report names the failure, repeats the text it carries word for word, and
//! lists what the user can do about it.

use crate::text::{
    lemma_occurs_in_prefixed, lemma_occurs_in_self, lemma_occurs_in_suffixed,
    lemma_occurs_in_within, occurs_at, occurs_in,
};
use vstd::prelude::*;

verus! {

/// The kinds of failure.
#[derive(Clone, Copy, Debug, PartialEq, Eq, Structural)]
pub enum ErrorKind {
    /// No usable access token was found.
    TokenNotFound,
    /// No usable repository owner and name were found.
    ConfigNotFound,
    /// The remote API refused or could not be reached.
    ApiError,
    /// A credential file could not be read.
    IoError,
    /// The operation is not available yet.
    NotImplemented,
}

/// A failure, with the text that describes it. For `ApiError` and `IoError`
/// the text is that of the transport or file system error.
#[derive(Debug, PartialEq, Eq)]
pub enum GitHubError {
    TokenNotFound(String),
    ConfigNotFound(String),
    ApiError(String),
    IoError(String),
    NotImplemented(String),
}

/// What a `GitHubError` stands for: its kind and the characters it carries.
pub struct Failure {
    pub kind: ErrorKind,
    pub detail: Seq<char>,
}

impl View for GitHubError {
    type V = Failure;

    open spec fn view(&self) -> Failure {
        match self {
            GitHubError::TokenNotFound(m) => Failure { kind: ErrorKind::TokenNotFound, detail: m@ },
            GitHubError::ConfigNotFound(m) => Failure {
                kind: ErrorKind::ConfigNotFound,
                detail: m@,
            },
            GitHubError::ApiError(m) => Failure { kind: ErrorKind::ApiError, detail: m@ },
            GitHubError::IoError(m) => Failure { kind: ErrorKind::IoError, detail: m@ },
            GitHubError::NotImplemented(m) => Failure {
                kind: ErrorKind::NotImplemented,
                detail: m@,
            },
        }
    }
}

/// What went wrong, in a few words.
pub open spec fn title(kind: ErrorKind) -> Seq<char> {
    match kind {
        ErrorKind::TokenNotFound => "GitHub Authentication Error"@,
        ErrorKind::ConfigNotFound => "GitHub Configuration Error"@,
        ErrorKind::ApiError => "GitHub API Error"@,
        ErrorKind::IoError => "File System Error"@,
        ErrorKind::NotImplemented => "Feature Not Yet Implemented"@,
    }
}

/// The line drawn under the symptom line.
pub open spec fn rule(kind: ErrorKind) -> Seq<char> {
    match kind {
        ErrorKind::TokenNotFound => "──────────────────────────"@,
        ErrorKind::ConfigNotFound => "─────────────────────────"@,
        ErrorKind::ApiError => "────────────────"@,
        ErrorKind::IoError => "─────────────────"@,
        ErrorKind::NotImplemented => "──────────────────────────"@,
    }
}

/// The sign that a report of this kind begins with.
pub open spec fn glyph(kind: ErrorKind) -> Seq<char> {
    match kind {
        ErrorKind::TokenNotFound => "🔑"@,
        ErrorKind::ConfigNotFound => "📂"@,
        ErrorKind::ApiError => "🌐"@,
        ErrorKind::IoError => "📁"@,
        ErrorKind::NotImplemented => "🚧"@,
    }
}

/// The line that opens the list of remedies.
pub open spec fn heading(kind: ErrorKind) -> Seq<char> {
    match kind {
        ErrorKind::TokenNotFound => "🔧 QUICK FIXES:"@,
        ErrorKind::ConfigNotFound => "🔧 QUICK FIXES:"@,
        ErrorKind::ApiError => "🔧 TROUBLESHOOTING:"@,
        ErrorKind::IoError => "🔧 POSSIBLE CAUSES:"@,
        ErrorKind::NotImplemented => "🔧 ALTERNATIVES:"@,
    }
}

/// The lines that say what to do about a failure of this kind.
pub open spec fn remedies(kind: ErrorKind) -> Seq<Seq<char>> {
    match kind {
        ErrorKind::TokenNotFound => seq![
            "   → Use GitHub CLI: gh auth login"@,
            "   → Set token directly: export CLAMBAKE_GITHUB_TOKEN=your_token"@,
            "   → Create token at: https://github.com/settings/tokens"@,
            "     (needs 'repo' scope for private repos, 'public_repo' for public)"@,
        ],
        ErrorKind::ConfigNotFound => seq![
            "   → Set environment variables: export GITHUB_OWNER=username GITHUB_REPO=reponame"@,
            "   → Use GitHub CLI in repo: gh repo view"@,
            "   → Run setup: clambake init"@,
        ],
        ErrorKind::ApiError => seq![
            "   → Check authentication: gh auth status"@,
            "   → Test connection: curl -I https://api.github.com"@,
            "   → Verify repository access: gh repo view"@,
            "   → Check rate limits: gh api rate_limit"@,
        ],
        ErrorKind::IoError => seq![
            "   → File permissions issue"@,
            "   → Directory doesn't exist"@,
            "   → Disk space or I/O error"@,
        ],
        ErrorKind::NotImplemented => seq![
            "   → Manual workaround may be available"@,
            "   → Feature coming in future release"@,
        ],
    }
}

/// The given lines, each on a new line.
pub open spec fn listing(lines: Seq<Seq<char>>) -> Seq<char>
    decreases lines.len(),
{
    if lines.len() == 0 {
        Seq::empty()
    } else {
        listing(lines.drop_last()) + "\n"@ + lines.last()
    }
}

/// The first line of a report: the glyph of the failure's kind, a blank, and
/// the title.
pub open spec fn symptom(kind: ErrorKind) -> Seq<char> {
    glyph(kind) + " "@ + title(kind)
}

/// Everything of a report that stands above its list of remedies.
pub open spec fn preamble(f: Failure) -> Seq<char> {
    symptom(f.kind) + "\n"@ + rule(f.kind) + "\n"@ + f.detail + "\n\n"@ + heading(f.kind)
}

/// The report of a failure: the symptom line, the rule under it, the text
/// the failure carries, an empty line, and the remedies under their heading.
pub open spec fn report(f: Failure) -> Seq<char> {
    preamble(f) + listing(remedies(f.kind))
}

/// A listing holds each of its lines, with the line break before it.
pub proof fn lemma_listing_holds_line(lines: Seq<Seq<char>>, i: int)
    requires
        0 <= i < lines.len(),
    ensures
        occurs_in("\n"@ + lines[i], listing(lines)),
    decreases lines.len(),
{
    let shorter = listing(lines.drop_last());
    let entry = "\n"@ + lines.last();
    assert(listing(lines) == shorter + entry);
    if i == lines.len() - 1 {
        lemma_occurs_in_self(entry);
        lemma_occurs_in_prefixed(entry, entry, shorter);
    } else {
        lemma_listing_holds_line(lines.drop_last(), i);
        lemma_occurs_in_suffixed("\n"@ + lines[i], shorter, entry);
    }
}

/// Every report begins with the symptom line, which begins with the glyph of
/// the failure's kind. Behind that line stand the rule on a line of its own
/// and the text the failure carries, unchanged, with an empty line after it.
/// Each remedy of the kind stands on a line of its own, and there is at
/// least one.
pub proof fn lemma_report_shows_symptom_and_remedies(f: Failure)
    ensures
        occurs_at(glyph(f.kind), report(f), 0),
        occurs_at(symptom(f.kind) + "\n"@, report(f), 0),
        occurs_at(
            rule(f.kind) + "\n"@ + f.detail + "\n\n"@,
            report(f),
            (symptom(f.kind) + "\n"@).len() as int,
        ),
        occurs_in(f.detail, report(f)),
        remedies(f.kind).len() >= 1,
        forall|i: int|
            0 <= i < remedies(f.kind).len() ==> occurs_in(
                "\n"@ + #[trigger] remedies(f.kind)[i],
                report(f),
            ),
{
    let k = f.kind;
    let r = report(f);
    let fixes = listing(remedies(k));
    let first = symptom(k) + "\n"@;
    let body = rule(k) + "\n"@ + f.detail + "\n\n"@;
    let at = first.len() as int;
    assert(r == first + body + heading(k) + fixes);
    assert(r.subrange(0, glyph(k).len() as int) == glyph(k));
    assert(r.subrange(0, at) == first);
    assert(r.subrange(at, at + body.len()) == body);
    assert(occurs_in(f.detail, r)) by {
        lemma_occurs_in_self(f.detail);
        lemma_occurs_in_prefixed(f.detail, f.detail, rule(k) + "\n"@);
        lemma_occurs_in_suffixed(f.detail, rule(k) + "\n"@ + f.detail, "\n\n"@);
        assert(occurs_at(body, r, at));
        lemma_occurs_in_within(f.detail, body, r);
    }
    assert forall|i: int| 0 <= i < remedies(k).len() implies occurs_in(
        "\n"@ + #[trigger] remedies(k)[i],
        r,
    ) by {
        lemma_listing_holds_line(remedies(k), i);
        lemma_occurs_in_prefixed("\n"@ + remedies(k)[i], fixes, preamble(f));
    }
}

/// Whether `s` holds no line break.
pub open spec fn one_line(s: Seq<char>) -> bool {
    forall|i: int| 0 <= i < s.len() ==> #[trigger] s[i] != '\n'
}

/// The symptom line, the rule, the heading and each remedy are lines: none
/// is empty and none holds a line break.
pub proof fn lemma_report_lines_are_lines(kind: ErrorKind)
    ensures
        glyph(kind).len() > 0,
        title(kind).len() > 0,
        symptom(kind).len() > 0 && one_line(symptom(kind)),
        rule(kind).len() > 0 && one_line(rule(kind)),
        heading(kind).len() > 0 && one_line(heading(kind)),
        forall|i: int|
            0 <= i < remedies(kind).len() ==> (#[trigger] remedies(kind)[i]).len() > 0 && one_line(
                remedies(kind)[i],
            ),
{
    reveal_strlit(" ");
    match kind {
        ErrorKind::TokenNotFound => {
            reveal_strlit("GitHub Authentication Error");
            reveal_strlit("🔑");
            reveal_strlit("──────────────────────────");
            reveal_strlit("🔧 QUICK FIXES:");
            reveal_strlit("   → Use GitHub CLI: gh auth login");
            reveal_strlit("   → Set token directly: export CLAMBAKE_GITHUB_TOKEN=your_token");
            reveal_strlit("   → Create token at: https://github.com/settings/tokens");
            reveal_strlit("     (needs 'repo' scope for private repos, 'public_repo' for public)");
        },
        ErrorKind::ConfigNotFound => {
            reveal_strlit("GitHub Configuration Error");
            reveal_strlit("📂");
            reveal_strlit("─────────────────────────");
            reveal_strlit("🔧 QUICK FIXES:");
            reveal_strlit(
                "   → Set environment variables: export GITHUB_OWNER=username GITHUB_REPO=reponame",
            );
            reveal_strlit("   → Use GitHub CLI in repo: gh repo view");
            reveal_strlit("   → Run setup: clambake init");
        },
        ErrorKind::ApiError => {
            reveal_strlit("GitHub API Error");
            reveal_strlit("🌐");
            reveal_strlit("────────────────");
            reveal_strlit("🔧 TROUBLESHOOTING:");
            reveal_strlit("   → Check authentication: gh auth status");
            reveal_strlit("   → Test connection: curl -I https://api.github.com");
            reveal_strlit("   → Verify repository access: gh repo view");
            reveal_strlit("   → Check rate limits: gh api rate_limit");
        },
        ErrorKind::IoError => {
            reveal_strlit("File System Error");
            reveal_strlit("📁");
            reveal_strlit("─────────────────");
            reveal_strlit("🔧 POSSIBLE CAUSES:");
            reveal_strlit("   → File permissions issue");
            reveal_strlit("   → Directory doesn't exist");
            reveal_strlit("   → Disk space or I/O error");
        },
        ErrorKind::NotImplemented => {
            reveal_strlit("Feature Not Yet Implemented");
            reveal_strlit("🚧");
            reveal_strlit("──────────────────────────");
            reveal_strlit("🔧 ALTERNATIVES:");
            reveal_strlit("   → Manual workaround may be available");
            reveal_strlit("   → Feature coming in future release");
        },
    }
}

fn title_text(kind: ErrorKind) -> (r: &'static str)
    ensures
        r@ == title(kind),
{
    match kind {
        ErrorKind::TokenNotFound => "GitHub Authentication Error",
        ErrorKind::ConfigNotFound => "GitHub Configuration Error",
        ErrorKind::ApiError => "GitHub API Error",
        ErrorKind::IoError => "File System Error",
        ErrorKind::NotImplemented => "Feature Not Yet Implemented",
    }
}

fn rule_text(kind: ErrorKind) -> (r: &'static str)
    ensures
        r@ == rule(kind),
{
    match kind {
        ErrorKind::TokenNotFound => "──────────────────────────",
        ErrorKind::ConfigNotFound => "─────────────────────────",
        ErrorKind::ApiError => "────────────────",
        ErrorKind::IoError => "─────────────────",
        ErrorKind::NotImplemented => "──────────────────────────",
    }
}

fn glyph_text(kind: ErrorKind) -> (r: &'static str)
    ensures
        r@ == glyph(kind),
{
    match kind {
        ErrorKind::TokenNotFound => "🔑",
        ErrorKind::ConfigNotFound => "📂",
        ErrorKind::ApiError => "🌐",
        ErrorKind::IoError => "📁",
        ErrorKind::NotImplemented => "🚧",
    }
}

fn heading_text(kind: ErrorKind) -> (r: &'static str)
    ensures
        r@ == heading(kind),
{
    match kind {
        ErrorKind::TokenNotFound => "🔧 QUICK FIXES:",
        ErrorKind::ConfigNotFound => "🔧 QUICK FIXES:",
        ErrorKind::ApiError => "🔧 TROUBLESHOOTING:",
        ErrorKind::IoError => "🔧 POSSIBLE CAUSES:",
        ErrorKind::NotImplemented => "🔧 ALTERNATIVES:",
    }
}

/// The remedies for a failure of the given kind, in the order of the report.
pub fn remediation(kind: ErrorKind) -> (r: Vec<&'static str>)
    ensures
        r.deep_view() == remedies(kind),
{
    match kind {
        ErrorKind::TokenNotFound => vec![
            "   → Use GitHub CLI: gh auth login",
            "   → Set token directly: export CLAMBAKE_GITHUB_TOKEN=your_token",
            "   → Create token at: https://github.com/settings/tokens",
            "     (needs 'repo' scope for private repos, 'public_repo' for public)",
        ],
        ErrorKind::ConfigNotFound => vec![
            "   → Set environment variables: export GITHUB_OWNER=username GITHUB_REPO=reponame",
            "   → Use GitHub CLI in repo: gh repo view",
            "   → Run setup: clambake init",
        ],
        ErrorKind::ApiError => vec![
            "   → Check authentication: gh auth status",
            "   → Test connection: curl -I https://api.github.com",
            "   → Verify repository access: gh repo view",
            "   → Check rate limits: gh api rate_limit",
        ],
        ErrorKind::IoError => vec![
            "   → File permissions issue",
            "   → Directory doesn't exist",
            "   → Disk space or I/O error",
        ],
        ErrorKind::NotImplemented => vec![
            "   → Manual workaround may be available",
            "   → Feature coming in future release",
        ],
    }
}

impl GitHubError {
    /// The kind of this failure.
    pub fn kind(&self) -> (r: ErrorKind)
        ensures
            r == self@.kind,
    {
        match self {
            GitHubError::TokenNotFound(_) => ErrorKind::TokenNotFound,
            GitHubError::ConfigNotFound(_) => ErrorKind::ConfigNotFound,
            GitHubError::ApiError(_) => ErrorKind::ApiError,
            GitHubError::IoError(_) => ErrorKind::IoError,
            GitHubError::NotImplemented(_) => ErrorKind::NotImplemented,
        }
    }

    /// The text this failure carries.
    pub fn detail(&self) -> (r: &str)
        ensures
            r@ == self@.detail,
    {
        match self {
            GitHubError::TokenNotFound(m) => m.as_str(),
            GitHubError::ConfigNotFound(m) => m.as_str(),
            GitHubError::ApiError(m) => m.as_str(),
            GitHubError::IoError(m) => m.as_str(),
            GitHubError::NotImplemented(m) => m.as_str(),
        }
    }

    /// Renders the report of this failure.
    pub fn render(&self) -> (r: String)
        ensures
            r@ == report(self@),
    {
        let kind = self.kind();
        let mut out = glyph_text(kind).to_owned();
        out.append(" ");
        out.append(title_text(kind));
        out.append("\n");
        out.append(rule_text(kind));
        out.append("\n");
        out.append(self.detail());
        out.append("\n\n");
        out.append(heading_text(kind));
        let fixes = remediation(kind);
        let mut i: usize = 0;
        while i < fixes.len()
            invariant
                i <= fixes.len(),
                out@ == preamble(self@) + listing(fixes.deep_view().take(i as int)),
            decreases fixes.len() - i,
        {
            let ghost shown = fixes.deep_view().take(i as int);
            let ghost next = fixes.deep_view().take(i + 1);
            out.append("\n");
            out.append(fixes[i]);
            assert(next.drop_last() == shown);
            i += 1;
        }
        assert(fixes.deep_view().take(i as int) == fixes.deep_view());
        out
    }
}

} // verus!
