use vstd::prelude::*;
use crate::submodules::strings_view;

verus! {

fn push_str(v: &mut Vec<String>, s: &str)
    ensures
        strings_view(final(v)@) == strings_view(old(v)@).push(s@),
{
    v.push(s.to_string());
    assert(strings_view(v@) =~= strings_view(old(v)@).push(s@));
}

fn push_all(v: &mut Vec<String>, items: &Vec<String>)
    ensures
        strings_view(final(v)@) == strings_view(old(v)@) + strings_view(items@),
{
    let mut i: usize = 0;
    while i < items.len()
        invariant
            i <= items@.len(),
            strings_view(v@) == strings_view(old(v)@) + strings_view(items@.take(i as int)),
        decreases items@.len() - i,
    {
        push_str(v, items[i].as_str());
        assert(strings_view(items@.take(i + 1)) =~= strings_view(items@.take(i as int)).push(items@[i as int]@));
        i = i + 1;
    }
    assert(items@.take(items@.len() as int) =~= items@);
}

/// `git -C repo <rest>`
fn in_repo(repo: &str) -> (r: Vec<String>)
    ensures
        strings_view(r@) == seq!["-C"@, repo@],
{
    let mut v: Vec<String> = Vec::new();
    push_str(&mut v, "-C");
    push_str(&mut v, repo);
    assert(strings_view(v@) =~= seq!["-C"@, repo@]);
    v
}

/// Arguments of `git` that mirror `url` into `dest`.
pub fn mirror_args(url: &str, dest: &str) -> (r: Vec<String>)
    ensures
        strings_view(r@) == seq!["clone"@, "--mirror"@, "--"@, url@, dest@],
{
    let mut v: Vec<String> = Vec::new();
    push_str(&mut v, "clone");
    push_str(&mut v, "--mirror");
    push_str(&mut v, "--");
    push_str(&mut v, url);
    push_str(&mut v, dest);
    assert(strings_view(v@) =~= seq!["clone"@, "--mirror"@, "--"@, url@, dest@]);
    v
}

/// Arguments of `git` that refresh the remote-tracking refs of `repo`.
pub fn update_args(repo: &str) -> (r: Vec<String>)
    ensures
        strings_view(r@) == seq!["-C"@, repo@, "remote"@, "update"@],
{
    let mut v = in_repo(repo);
    push_str(&mut v, "remote");
    push_str(&mut v, "update");
    assert(strings_view(v@) =~= seq!["-C"@, repo@, "remote"@, "update"@]);
    v
}

/// Arguments of `git` that succeed exactly where `commit` names a commit in `repo`.
pub fn has_commit_args(repo: &str, commit: &str) -> (r: Vec<String>)
    ensures
        strings_view(r@) == seq!["-C"@, repo@, "cat-file"@, "-e"@, commit@ + "^{commit}"@],
{
    let mut v = in_repo(repo);
    push_str(&mut v, "cat-file");
    push_str(&mut v, "-e");
    let rev = commit.to_string().concat("^{commit}");
    assert(rev@ == commit@ + "^{commit}"@);
    let ghost before = strings_view(v@);
    v.push(rev);
    assert(strings_view(v@) =~= before.push(rev@));
    assert(strings_view(v@) =~= seq!["-C"@, repo@, "cat-file"@, "-e"@, commit@ + "^{commit}"@]);
    v
}

/// Arguments of `git` for an object-sharing clone of `src` into `dest`,
/// with the passed-through arguments between.
pub fn shared_clone_args(src: &str, dest: &str, extra: Option<&Vec<String>>) -> (r: Vec<String>)
    ensures
        strings_view(r@) == seq!["clone"@, "--shared"@] + match extra {
            Some(e) => strings_view(e@),
            None => Seq::<Seq<char>>::empty(),
        } + seq!["--"@, src@, dest@],
{
    let mut v: Vec<String> = Vec::new();
    push_str(&mut v, "clone");
    push_str(&mut v, "--shared");
    assert(strings_view(v@) =~= seq!["clone"@, "--shared"@]);
    match extra {
        Some(e) => push_all(&mut v, e),
        None => {},
    }
    let ghost mid = strings_view(v@);
    push_str(&mut v, "--");
    push_str(&mut v, src);
    push_str(&mut v, dest);
    assert(strings_view(v@) =~= mid + seq!["--"@, src@, dest@]);
    v
}

/// Arguments of `git` that set the `origin` remote of `repo` to `url`.
pub fn set_origin_args(repo: &str, url: &str) -> (r: Vec<String>)
    ensures
        strings_view(r@) == seq!["-C"@, repo@, "remote"@, "set-url"@, "origin"@, url@],
{
    let mut v = in_repo(repo);
    push_str(&mut v, "remote");
    push_str(&mut v, "set-url");
    push_str(&mut v, "origin");
    push_str(&mut v, url);
    assert(strings_view(v@) =~= seq!["-C"@, repo@, "remote"@, "set-url"@, "origin"@, url@]);
    v
}

/// Arguments of `git` that set the configuration `key` of `repo` to `value`.
pub fn set_config_args(repo: &str, key: &str, value: &str) -> (r: Vec<String>)
    ensures
        strings_view(r@) == seq!["-C"@, repo@, "config"@, key@, value@],
{
    let mut v = in_repo(repo);
    push_str(&mut v, "config");
    push_str(&mut v, key);
    push_str(&mut v, value);
    assert(strings_view(v@) =~= seq!["-C"@, repo@, "config"@, key@, value@]);
    v
}

/// Arguments of `git` that check out `commit` in `repo`.
pub fn checkout_args(repo: &str, commit: &str) -> (r: Vec<String>)
    ensures
        strings_view(r@) == seq!["-C"@, repo@, "checkout"@, commit@],
{
    let mut v = in_repo(repo);
    push_str(&mut v, "checkout");
    push_str(&mut v, commit);
    assert(strings_view(v@) =~= seq!["-C"@, repo@, "checkout"@, commit@]);
    v
}

/// Arguments of `git` that restrict the working tree of `repo` to `paths`.
pub fn sparse_checkout_args(repo: &str, paths: &Vec<String>) -> (r: Vec<String>)
    ensures
        strings_view(r@) == seq!["-C"@, repo@, "sparse-checkout"@, "set"@] + strings_view(paths@),
{
    let mut v = in_repo(repo);
    push_str(&mut v, "sparse-checkout");
    push_str(&mut v, "set");
    assert(strings_view(v@) =~= seq!["-C"@, repo@, "sparse-checkout"@, "set"@]);
    push_all(&mut v, paths);
    v
}

/// Arguments of `git` that print the repository directory as seen from `path`.
pub fn git_dir_args(path: &str) -> (r: Vec<String>)
    ensures
        strings_view(r@) == seq!["-C"@, path@, "rev-parse"@, "--git-dir"@],
{
    let mut v = in_repo(path);
    push_str(&mut v, "rev-parse");
    push_str(&mut v, "--git-dir");
    assert(strings_view(v@) =~= seq!["-C"@, path@, "rev-parse"@, "--git-dir"@]);
    v
}

/// Arguments of `git` that print the `.gitmodules` of `HEAD` in `repo`.
pub fn show_gitmodules_args(repo: &str) -> (r: Vec<String>)
    ensures
        strings_view(r@) == seq!["-C"@, repo@, "show"@, "HEAD:.gitmodules"@],
{
    let mut v = in_repo(repo);
    push_str(&mut v, "show");
    push_str(&mut v, "HEAD:.gitmodules");
    assert(strings_view(v@) =~= seq!["-C"@, repo@, "show"@, "HEAD:.gitmodules"@]);
    v
}

/// Arguments of `git` that list the pinned commit of each submodule of `repo`.
pub fn submodule_status_args(repo: &str) -> (r: Vec<String>)
    ensures
        strings_view(r@) == seq!["-C"@, repo@, "submodule"@, "status"@],
{
    let mut v = in_repo(repo);
    push_str(&mut v, "submodule");
    push_str(&mut v, "status");
    assert(strings_view(v@) =~= seq!["-C"@, repo@, "submodule"@, "status"@]);
    v
}

/// Arguments of `git` that register the submodule at `path` with `repo`.
pub fn submodule_init_args(repo: &str, path: &str) -> (r: Vec<String>)
    ensures
        strings_view(r@) == seq!["-C"@, repo@, "submodule"@, "init"@, "--"@, path@],
{
    let mut v = in_repo(repo);
    push_str(&mut v, "submodule");
    push_str(&mut v, "init");
    push_str(&mut v, "--");
    push_str(&mut v, path);
    assert(strings_view(v@) =~= seq!["-C"@, repo@, "submodule"@, "init"@, "--"@, path@]);
    v
}

} // verus!
