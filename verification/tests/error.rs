use clambake_github::error::{remediation, ErrorKind, GitHubError};

fn text(s: &str) -> String {
    s.to_string()
}

fn every_kind(detail: &str) -> [GitHubError; 5] {
    [
        GitHubError::TokenNotFound(text(detail)),
        GitHubError::ConfigNotFound(text(detail)),
        GitHubError::ApiError(text(detail)),
        GitHubError::IoError(text(detail)),
        GitHubError::NotImplemented(text(detail)),
    ]
}

#[test]
fn token_not_found_report() {
    let e = GitHubError::TokenNotFound(text("no token"));
    assert_eq!(
        e.render(),
        "🔑 GitHub Authentication Error\n\
         ──────────────────────────\n\
         no token\n\
         \n\
         🔧 QUICK FIXES:\n   \
         → Use GitHub CLI: gh auth login\n   \
         → Set token directly: export CLAMBAKE_GITHUB_TOKEN=your_token\n   \
         → Create token at: https://github.com/settings/tokens\n     \
         (needs 'repo' scope for private repos, 'public_repo' for public)"
    );
}

#[test]
fn config_not_found_report() {
    let e = GitHubError::ConfigNotFound(text("no config"));
    assert_eq!(
        e.render(),
        "📂 GitHub Configuration Error\n\
         ─────────────────────────\n\
         no config\n\
         \n\
         🔧 QUICK FIXES:\n   \
         → Set environment variables: export GITHUB_OWNER=username GITHUB_REPO=reponame\n   \
         → Use GitHub CLI in repo: gh repo view\n   \
         → Run setup: clambake init"
    );
}

#[test]
fn api_error_report() {
    let e = GitHubError::ApiError(text("Not Found"));
    assert_eq!(
        e.render(),
        "🌐 GitHub API Error\n\
         ────────────────\n\
         Not Found\n\
         \n\
         🔧 TROUBLESHOOTING:\n   \
         → Check authentication: gh auth status\n   \
         → Test connection: curl -I https://api.github.com\n   \
         → Verify repository access: gh repo view\n   \
         → Check rate limits: gh api rate_limit"
    );
}

#[test]
fn io_error_report() {
    let e = GitHubError::IoError(text("Permission denied (os error 13)"));
    assert_eq!(
        e.render(),
        "📁 File System Error\n\
         ─────────────────\n\
         Permission denied (os error 13)\n\
         \n\
         🔧 POSSIBLE CAUSES:\n   \
         → File permissions issue\n   \
         → Directory doesn't exist\n   \
         → Disk space or I/O error"
    );
}

#[test]
fn not_implemented_report() {
    let e = GitHubError::NotImplemented(text("merging"));
    assert_eq!(
        e.render(),
        "🚧 Feature Not Yet Implemented\n\
         ──────────────────────────\n\
         merging\n\
         \n\
         🔧 ALTERNATIVES:\n   \
         → Manual workaround may be available\n   \
         → Feature coming in future release"
    );
}

#[test]
fn rules_are_as_long_as_drawn() {
    let lengths = [26, 25, 16, 17, 26];
    for (e, expected) in every_kind("x").iter().zip(lengths) {
        let report = e.render();
        let rule = report.lines().nth(1).unwrap();
        assert_eq!(rule.chars().count(), expected);
        assert!(rule.chars().all(|c| c == '\u{2500}'));
    }
}

#[test]
fn every_report_has_symptom_and_remedies() {
    let glyphs = ['\u{1f511}', '\u{1f4c2}', '\u{1f310}', '\u{1f4c1}', '\u{1f6a7}'];
    let titles = [
        "GitHub Authentication Error",
        "GitHub Configuration Error",
        "GitHub API Error",
        "File System Error",
        "Feature Not Yet Implemented",
    ];
    for (n, e) in every_kind("what went wrong").iter().enumerate() {
        let report = e.render();
        let lines: Vec<&str> = report.lines().collect();
        assert_eq!(report.chars().next(), Some(glyphs[n]));
        assert_eq!(lines[0], format!("{} {}", glyphs[n], titles[n]));
        assert!(lines[1].chars().all(|c| c == '\u{2500}'));
        assert_eq!(lines[2], "what went wrong");
        assert_eq!(lines[3], "");
        assert!(lines[4].starts_with("\u{1f527} "));
        assert!(lines[4].ends_with(':'));
        let fixes = remediation(e.kind());
        assert!(!fixes.is_empty());
        assert_eq!(&lines[5..], &fixes[..]);
        for fix in fixes {
            assert!(!fix.is_empty());
            assert!(!fix.contains('\n'));
            assert!(report.contains(&format!("\n{}", fix)));
        }
        assert!(lines[5..].iter().any(|line| line.starts_with("   \u{2192} ")));
    }
}

#[test]
fn the_carried_text_is_shown_word_for_word() {
    let detail = "line one\nline two\t\u{1f980} \"quoted\" {} %s";
    for e in every_kind(detail) {
        assert_eq!(e.detail(), detail);
        assert!(e.render().contains(&format!("\n{}\n\n", detail)));
    }
    for e in every_kind("") {
        assert_eq!(e.detail(), "");
        let report = e.render();
        let lines: Vec<&str> = report.lines().collect();
        assert_eq!(lines[2], "");
        assert_eq!(lines[3], "");
        assert!(lines[4].starts_with("\u{1f527} "));
    }
}

#[test]
fn kinds_match_variants() {
    let kinds = [
        ErrorKind::TokenNotFound,
        ErrorKind::ConfigNotFound,
        ErrorKind::ApiError,
        ErrorKind::IoError,
        ErrorKind::NotImplemented,
    ];
    for (e, kind) in every_kind("x").iter().zip(kinds) {
        assert_eq!(e.kind(), kind);
    }
}

#[test]
fn remedies_by_kind() {
    assert_eq!(remediation(ErrorKind::TokenNotFound).len(), 4);
    assert_eq!(remediation(ErrorKind::ConfigNotFound).len(), 3);
    assert_eq!(remediation(ErrorKind::ApiError).len(), 4);
    assert_eq!(remediation(ErrorKind::IoError).len(), 3);
    assert_eq!(
        remediation(ErrorKind::NotImplemented),
        vec!["   → Manual workaround may be available", "   → Feature coming in future release"]
    );
}

#[test]
fn token_report_names_the_ways_out() {
    for detail in ["", "anything"] {
        let report = GitHubError::TokenNotFound(text(detail)).render();
        assert!(report.contains("CLAMBAKE_GITHUB_TOKEN"));
        assert!(report.contains("https://github.com/settings/tokens"));
    }
}
