use git_cache::locality::{is_local_parsed, key_from_parts, repo_is_local, repo_is_local_with, repo_path_from_url, url_is_scp_scheme, url_split_scp_scheme, ScpScheme};
use git_cache::urlparse::UrlParts;

#[test]
fn local_references_are_local() {
    assert!(repo_is_local("./x"));
    assert!(repo_is_local("/abs/x"));
    assert!(repo_is_local("file:///x"));
}

#[test]
fn remote_references_are_remote() {
    assert!(!repo_is_local("git@host:org/repo.git"));
    assert!(!repo_is_local("https://host/org/repo.git"));
}

#[test]
fn non_scp_text_counts_as_local() {
    // neither a URL nor `user@host:path`: treated as a local path
    assert!(repo_is_local_with("some-dir", false));
    assert!(repo_is_local_with("relative/dir", false));
    // `host:path` parses as a URL with the scheme `host`, so it is remote
    assert!(!repo_is_local_with("host:path", false));
}

#[test]
fn existing_path_makes_scp_shape_local() {
    assert!(!repo_is_local_with("git@host:org/repo.git", false));
    assert!(repo_is_local_with("git@host:org/repo.git", true));
    // a parsed URL is decided by its scheme alone
    assert!(!repo_is_local_with("https://host/org/repo.git", true));
}

#[test]
fn scp_split_positions() {
    assert_eq!(url_split_scp_scheme("git@host:org/repo.git"), Some((3, 8)));
    assert_eq!(url_split_scp_scheme("host:a@b"), None);
    assert_eq!(url_split_scp_scheme("git@host"), None);
    assert_eq!(url_split_scp_scheme(""), None);
    assert!(url_is_scp_scheme("a@b:c"));
    assert!(!url_is_scp_scheme("abc"));
}

#[test]
fn scp_scheme_parts() {
    let s = ScpScheme::try_from("git@github.com:org/repo.git").ok().unwrap();
    assert_eq!(s.user, "git");
    assert_eq!(s.host, "github.com");
    assert_eq!(s.path, "org/repo.git");
    assert!(ScpScheme::try_from("https://github.com/org/repo").is_err());
}

#[test]
fn cache_key_of_https_url() {
    assert_eq!(repo_path_from_url("https://example.com/project.git").unwrap(), "example.com/project.git");
    assert_eq!(repo_path_from_url("https://example.com/org/project").unwrap(), "example.com/org/project.git");
}

#[test]
fn cache_key_of_scp_reference() {
    assert_eq!(repo_path_from_url("git@github.com:org/repo.git").unwrap(), "github.com/org/repo.git");
}

#[test]
fn cache_key_is_deterministic_and_distinguishes_hosts_and_paths() {
    let a = repo_path_from_url("https://example.com/a.git").unwrap();
    let a2 = repo_path_from_url("https://example.com/a.git").unwrap();
    let b = repo_path_from_url("https://example.com/b.git").unwrap();
    let c = repo_path_from_url("https://example.org/a.git").unwrap();
    assert_eq!(a, a2);
    assert_ne!(a, b);
    assert_ne!(a, c);
    assert_ne!(b, c);
}

#[test]
fn no_cache_key_for_local_or_hostless() {
    assert!(repo_path_from_url("file:///x").is_none());
    assert!(repo_path_from_url("./x").is_none());
    assert!(repo_path_from_url("mailto:someone@example.com").is_none());
}

#[test]
fn git_suffix_is_added_or_kept_in_cache_keys() {
    assert_eq!(repo_path_from_url("https://example.com/a").unwrap(), "example.com/a.git");
    assert_eq!(repo_path_from_url("https://example.com/a.git").unwrap(), "example.com/a.git");
    assert_eq!(repo_path_from_url("https://example.com/lib.rs").unwrap(), "example.com/lib.rs.git");
}

#[test]
fn other_extensions_keep_keys_apart() {
    let tar = repo_path_from_url("https://h/a.tar").unwrap();
    let zip = repo_path_from_url("https://h/a.zip").unwrap();
    assert_eq!(tar, "h/a.tar.git");
    assert_ne!(tar, zip);
}

#[test]
fn keys_stay_below_the_cache_base() {
    // an absolute scp path keeps its host in front
    assert_eq!(repo_path_from_url("git@h:/srv/x.git").unwrap(), "h//srv/x.git");
    assert_ne!(repo_path_from_url("git@h:/srv/x.git"), repo_path_from_url("git@h:srv/x.git"));
    // a `..` component, an empty path or a host with `/` give no key
    assert!(repo_path_from_url("git@h:../x").is_none());
    assert!(repo_path_from_url("git@h:a/../../x").is_none());
    assert!(repo_path_from_url("git@..:x").is_none());
    assert!(repo_path_from_url("git@h:.git").is_none());
    assert!(repo_path_from_url("https://example.com/").is_none());
    assert!(repo_path_from_url("a@b/c:d").is_none());
    // dots inside a name are fine
    assert_eq!(repo_path_from_url("git@h:a..b/c").unwrap(), "h/a..b/c.git");
}

#[test]
fn decisions_on_a_given_parse() {
    let https = UrlParts { scheme: "https".to_string(), host: Some("h".to_string()), path: "/org/r.git".to_string() };
    let file = UrlParts { scheme: "file".to_string(), host: None, path: "/x".to_string() };
    assert!(!is_local_parsed(Some(&https), "https://h/org/r.git", true));
    assert!(is_local_parsed(Some(&file), "file:///x", false));
    assert!(!is_local_parsed(None, "git@h:r.git", false));
    assert!(is_local_parsed(None, "git@h:r.git", true));
    assert_eq!(key_from_parts(Some(&https), "https://h/org/r.git").unwrap(), "h/org/r.git");
    assert!(key_from_parts(Some(&file), "file:///x").is_none());
    assert_eq!(key_from_parts(None, "git@h:org/r").unwrap(), "h/org/r.git");
}
