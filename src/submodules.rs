use vstd::prelude::*;
use crate::urlparse::opt_view;

verus! {

/// A submodule as `.gitmodules` declares it; any key may be missing.
pub struct SubmoduleDecl {
    pub path: Option<String>,
    pub url: Option<String>,
    pub branch: Option<String>,
}

pub type DeclView = (Option<Seq<char>>, Option<Seq<char>>, Option<Seq<char>>);

impl SubmoduleDecl {
    pub open spec fn view_tuple(&self) -> DeclView {
        (opt_view(self.path), opt_view(self.url), opt_view(self.branch))
    }
}

pub open spec fn decls_view(d: Seq<SubmoduleDecl>) -> Seq<DeclView> {
    d.map_values(|x: SubmoduleDecl| x.view_tuple())
}

/// The submodule sections that gix-config reads from the bytes of a
/// `.gitmodules` file, in order, each with its `path`, `url` and `branch`
/// values; `None` where it rejects the bytes.
pub uninterp spec fn gitmodules_decls(data: Seq<u8>) -> Option<Seq<DeclView>>;

/// Relies on `gix_config::File::from_bytes_no_includes`, `File::sections_by_name`
/// and `section::Body::value`: parses the bytes of a `.gitmodules` file and
/// reads each `submodule` section's `path`, `url` and `branch`.
#[verifier::external_body]
pub(crate) fn parse_gitmodules(data: &[u8]) -> (r: Option<Vec<SubmoduleDecl>>)
    ensures
        match r {
            Some(v) => gitmodules_decls(data@) == Some(decls_view(v@)),
            None => gitmodules_decls(data@) is None,
        },
{
    let meta = gix_config::file::Metadata::api();
    let file = gix_config::File::from_bytes_no_includes(data, meta, Default::default()).ok()?;
    let sections = match file.sections_by_name("submodule") {
        Some(s) => s,
        None => return Some(Vec::new()),
    };
    Some(sections.map(|s| SubmoduleDecl {
        path: s.body().value("path").map(|v| v.to_string()),
        url: s.body().value("url").map(|v| v.to_string()),
        branch: s.body().value("branch").map(|v| v.to_string()),
    }).collect())
}

/// A submodule to clone: where it goes, where from, and at which commit.
pub struct SubmoduleSpec {
    pub path: String,
    pub url: String,
    pub branch: Option<String>,
    pub commit: String,
}

pub type SpecView = (Seq<char>, Seq<char>, Seq<char>, Option<Seq<char>>);

impl SubmoduleSpec {
    pub open spec fn view_tuple(&self) -> SpecView {
        (self.path@, self.url@, self.commit@, opt_view(self.branch))
    }

    pub fn new(path: String, url: String, commit: String, branch: Option<String>) -> (r: Self)
        ensures
            r.path == path,
            r.url == url,
            r.commit == commit,
            r.branch == branch,
    {
        SubmoduleSpec { path, url, commit, branch }
    }
}

pub open spec fn specs_view(s: Seq<SubmoduleSpec>) -> Seq<SpecView> {
    s.map_values(|x: SubmoduleSpec| x.view_tuple())
}

/// The path and commit of one line of `git submodule status`: a status
/// character, forty characters of commit, a space, then the path. `None`
/// for a line too short to hold them.
pub open spec fn status_entry(line: Seq<char>) -> Option<(Seq<char>, Seq<char>)> {
    if line.len() >= 42 {
        Some((line.subrange(42, line.len() as int), line.subrange(1, 41)))
    } else {
        None
    }
}

/// The (path, commit) pairs of the lines of `git submodule status`, in order.
pub open spec fn status_entries(lines: Seq<Seq<char>>) -> Seq<(Seq<char>, Seq<char>)>
    decreases lines.len(),
{
    if lines.len() == 0 {
        seq![]
    } else {
        let prev = status_entries(lines.drop_last());
        match status_entry(lines.last()) {
            Some(e) => prev.push(e),
            None => prev,
        }
    }
}

pub open spec fn strings_view(v: Seq<String>) -> Seq<Seq<char>> {
    v.map_values(|s: String| s@)
}

pub open spec fn pairs_view(v: Seq<(String, String)>) -> Seq<(Seq<char>, Seq<char>)> {
    v.map_values(|p: (String, String)| (p.0@, p.1@))
}

/// The commit pinned for `path`: the last entry that names it.
pub open spec fn pinned_commit(entries: Seq<(Seq<char>, Seq<char>)>, path: Seq<char>) -> Option<Seq<char>>
    decreases entries.len(),
{
    if entries.len() == 0 {
        None
    } else if entries.last().0 == path {
        Some(entries.last().1)
    } else {
        pinned_commit(entries.drop_last(), path)
    }
}

/// Reads the (path, commit) pairs from the lines of `git submodule status`,
/// passing over lines too short to hold both.
pub fn submodule_commits(lines: &Vec<String>) -> (r: Vec<(String, String)>)
    ensures
        pairs_view(r@) == status_entries(strings_view(lines@)),
{
    let mut r: Vec<(String, String)> = Vec::new();
    let mut i: usize = 0;
    while i < lines.len()
        invariant
            i <= lines@.len(),
            pairs_view(r@) == status_entries(strings_view(lines@.take(i as int))),
        decreases lines@.len() - i,
    {
        let line = lines[i].as_str();
        let n = line.unicode_len();
        proof {
            assert(strings_view(lines@.take(i + 1)).drop_last() =~= strings_view(lines@.take(i as int)));
            assert(strings_view(lines@.take(i + 1)).last() == lines@[i as int]@);
        }
        if n >= 42 {
            let commit = line.substring_char(1, 41).to_string();
            let path = line.substring_char(42, n).to_string();
            r.push((path, commit));
            assert(pairs_view(r@) =~= pairs_view(r@.drop_last()).push(status_entry(lines@[i as int]@)->0));
        }
        i = i + 1;
    }
    assert(lines@.take(lines@.len() as int) =~= lines@);
    r
}

fn pinned_commit_of(entries: &Vec<(String, String)>, path: &String) -> (r: Option<String>)
    ensures
        opt_view(r) == pinned_commit(pairs_view(entries@), path@),
{
    let mut i: usize = entries.len();
    assert(entries@.take(i as int) =~= entries@);
    while i > 0
        invariant
            i <= entries@.len(),
            pinned_commit(pairs_view(entries@), path@) == pinned_commit(pairs_view(entries@.take(i as int)), path@),
        decreases i,
    {
        let e = &entries[i - 1];
        proof {
            assert(pairs_view(entries@.take(i as int)).drop_last() =~= pairs_view(entries@.take(i - 1)));
        }
        if e.0 == *path {
            return Some(e.1.clone());
        }
        i = i - 1;
    }
    None
}

pub(crate) fn contains_string(v: &Vec<String>, s: &String) -> (r: bool)
    ensures
        r == strings_view(v@).contains(s@),
{
    let mut i: usize = 0;
    while i < v.len()
        invariant
            i <= v@.len(),
            forall|j: int| 0 <= j < i ==> v@[j]@ != s@,
        decreases v@.len() - i,
    {
        if v[i] == *s {
            assert(strings_view(v@)[i as int] == s@);
            return true;
        }
        i = i + 1;
    }
    assert forall|j: int| 0 <= j < strings_view(v@).len() implies strings_view(v@)[j] != s@ by {
        assert(v@[j]@ != s@);
    }
    false
}

/// What becomes of one declaration: kept where it has a path, a URL and a
/// pinned commit, and its path passes the filter (every path passes where
/// there is none).
pub open spec fn resolve_one(d: DeclView, entries: Seq<(Seq<char>, Seq<char>)>, filter: Option<Seq<Seq<char>>>) -> Option<SpecView> {
    match (d.0, d.1) {
        (Some(p), Some(u)) => match pinned_commit(entries, p) {
            Some(c) => match filter {
                Some(f) => if f.contains(p) { Some((p, u, c, d.2)) } else { None },
                None => Some((p, u, c, d.2)),
            },
            None => None,
        },
        _ => None,
    }
}

/// The submodules resolved from declarations, in order of declaration.
pub open spec fn resolve(decls: Seq<DeclView>, entries: Seq<(Seq<char>, Seq<char>)>, filter: Option<Seq<Seq<char>>>) -> Seq<SpecView>
    decreases decls.len(),
{
    if decls.len() == 0 {
        seq![]
    } else {
        let prev = resolve(decls.drop_last(), entries, filter);
        match resolve_one(decls.last(), entries, filter) {
            Some(s) => prev.push(s),
            None => prev,
        }
    }
}

pub open spec fn filter_view(f: Option<Vec<String>>) -> Option<Seq<Seq<char>>> {
    match f {
        Some(v) => Some(strings_view(v@)),
        None => None,
    }
}

/// Joins declarations with the pinned commits: a declaration without path
/// or URL, or without a pinned commit, is passed over, and so is one whose
/// path the filter leaves out; the others are kept in order.
pub fn resolve_decls(decls: &Vec<SubmoduleDecl>, entries: &Vec<(String, String)>, filter: Option<&Vec<String>>) -> (r: Vec<SubmoduleSpec>)
    ensures
        specs_view(r@) == resolve(decls_view(decls@), pairs_view(entries@), match filter {
            Some(f) => Some(strings_view(f@)),
            None => None,
        }),
{
    let ghost fv = match filter {
        Some(f) => Some(strings_view(f@)),
        None => None,
    };
    let mut r: Vec<SubmoduleSpec> = Vec::new();
    let mut i: usize = 0;
    while i < decls.len()
        invariant
            i <= decls@.len(),
            fv == match filter {
                Some(f) => Some(strings_view(f@)),
                None => None::<Seq<Seq<char>>>,
            },
            specs_view(r@) == resolve(decls_view(decls@.take(i as int)), pairs_view(entries@), fv),
        decreases decls@.len() - i,
    {
        let d = &decls[i];
        proof {
            assert(decls_view(decls@.take(i + 1)).drop_last() =~= decls_view(decls@.take(i as int)));
            assert(decls_view(decls@.take(i + 1)).last() == decls@[i as int].view_tuple());
        }
        match (&d.path, &d.url) {
            (Some(path), Some(url)) => {
                match pinned_commit_of(entries, path) {
                    Some(commit) => {
                        let keep = match filter {
                            Some(f) => contains_string(f, path),
                            None => true,
                        };
                        if keep {
                            let spec = SubmoduleSpec::new(path.clone(), url.clone(), commit, d.branch.clone());
                            r.push(spec);
                            assert(specs_view(r@) =~= specs_view(r@.drop_last()).push(spec.view_tuple()));
                        }
                    },
                    None => {},
                }
            },
            _ => {},
        }
        i = i + 1;
    }
    assert(decls@.take(decls@.len() as int) =~= decls@);
    r
}

/// The submodules of a checked-out repository.
pub open spec fn resolved_submodules(gitmodules: Option<Seq<u8>>, status_lines: Seq<Seq<char>>, filter: Option<Seq<Seq<char>>>) -> Option<Seq<SpecView>> {
    match gitmodules {
        None => Some(seq![]),
        Some(data) => match gitmodules_decls(data) {
            Some(d) => Some(resolve(d, status_entries(status_lines), filter)),
            None => None,
        },
    }
}

/// Why the submodules of a repository could not be read.
pub enum SubmoduleError {
    /// The `.gitmodules` file of the repository at `path` does not parse.
    Declarations { path: String },
}

/// A repository with a working copy.
pub struct GitRepo {
    pub path: String,
}

impl GitRepo {
    /// The submodules to clone, from the bytes of `.gitmodules` (`None`
    /// where the file is absent, which gives none) and the lines of
    /// `git submodule status`, kept where `filter` names their path (all
    /// where it is `None`). Fails only where `.gitmodules` does not parse.
    pub fn get_submodules(&self, gitmodules: Option<&[u8]>, status_lines: &Vec<String>, filter: Option<&Vec<String>>) -> (r: Result<Vec<SubmoduleSpec>, SubmoduleError>)
        ensures
            match resolved_submodules(match gitmodules { Some(g) => Some(g@), None => None }, strings_view(status_lines@),
                match filter { Some(f) => Some(strings_view(f@)), None => None }) {
                Some(s) => r matches Ok(v) && specs_view(v@) == s,
                None => r matches Err(SubmoduleError::Declarations { path }) && path == self.path,
            },
    {
        match gitmodules {
            None => {
                let v: Vec<SubmoduleSpec> = Vec::new();
                assert(specs_view(v@) =~= seq![]);
                Ok(v)
            },
            Some(data) => match parse_gitmodules(data) {
                Some(decls) => {
                    let entries = submodule_commits(status_lines);
                    Ok(resolve_decls(&decls, &entries, filter))
                },
                None => Err(SubmoduleError::Declarations { path: self.path.clone() }),
            },
        }
    }
}

proof fn lemma_resolved_are_pinned(decls: Seq<DeclView>, entries: Seq<(Seq<char>, Seq<char>)>, filter: Option<Seq<Seq<char>>>)
    ensures
        forall|k: int| 0 <= k < resolve(decls, entries, filter).len()
            ==> pinned_commit(entries, #[trigger] resolve(decls, entries, filter)[k].0) is Some,
    decreases decls.len(),
{
    if decls.len() > 0 {
        lemma_resolved_are_pinned(decls.drop_last(), entries, filter);
    }
}

proof fn lemma_resolved_kept(decls: Seq<DeclView>, entries: Seq<(Seq<char>, Seq<char>)>, filter: Option<Seq<Seq<char>>>, j: int)
    requires
        0 <= j < decls.len(),
        resolve_one(decls[j], entries, filter) is Some,
    ensures
        resolve(decls, entries, filter).contains(resolve_one(decls[j], entries, filter)->0),
    decreases decls.len(),
{
    let x = resolve_one(decls[j], entries, filter)->0;
    let prev = resolve(decls.drop_last(), entries, filter);
    if j == decls.len() - 1 {
        assert(resolve(decls, entries, filter) == prev.push(x));
        assert(resolve(decls, entries, filter)[prev.len() as int] == x);
    } else {
        assert(decls.drop_last()[j] == decls[j]);
        lemma_resolved_kept(decls.drop_last(), entries, filter, j);
        let k = choose|k: int| 0 <= k < prev.len() && prev[k] == x;
        match resolve_one(decls.last(), entries, filter) {
            Some(y) => assert(resolve(decls, entries, filter)[k] == x),
            None => {},
        }
    }
}

/// A declaration whose path has no pinned commit is left out of the
/// resolved list, and leaves every other declaration that resolves in it.
pub proof fn lemma_unpinned_excluded(decls: Seq<DeclView>, entries: Seq<(Seq<char>, Seq<char>)>, filter: Option<Seq<Seq<char>>>, i: int)
    requires
        0 <= i < decls.len(),
        decls[i].0 is Some,
        pinned_commit(entries, decls[i].0->0) is None,
    ensures
        forall|k: int| 0 <= k < resolve(decls, entries, filter).len()
            ==> #[trigger] resolve(decls, entries, filter)[k].0 != decls[i].0->0,
        forall|j: int| 0 <= j < decls.len() && #[trigger] resolve_one(decls[j], entries, filter) is Some
            ==> resolve(decls, entries, filter).contains(resolve_one(decls[j], entries, filter)->0),
{
    lemma_resolved_are_pinned(decls, entries, filter);
    assert forall|j: int| 0 <= j < decls.len() && #[trigger] resolve_one(decls[j], entries, filter) is Some
        implies resolve(decls, entries, filter).contains(resolve_one(decls[j], entries, filter)->0) by {
        lemma_resolved_kept(decls, entries, filter, j);
    }
}

/// The URLs that the declarations name, in order, passing over those
/// without one.
pub open spec fn declared_urls(decls: Seq<DeclView>) -> Seq<Seq<char>>
    decreases decls.len(),
{
    if decls.len() == 0 {
        seq![]
    } else {
        let prev = declared_urls(decls.drop_last());
        match decls.last().1 {
            Some(u) => prev.push(u),
            None => prev,
        }
    }
}

/// The URLs of the submodules declared in `.gitmodules`.
pub fn submodule_urls(decls: &Vec<SubmoduleDecl>) -> (r: Vec<String>)
    ensures
        strings_view(r@) == declared_urls(decls_view(decls@)),
{
    let mut r: Vec<String> = Vec::new();
    let mut i: usize = 0;
    while i < decls.len()
        invariant
            i <= decls@.len(),
            strings_view(r@) == declared_urls(decls_view(decls@.take(i as int))),
        decreases decls@.len() - i,
    {
        proof {
            assert(decls_view(decls@.take(i + 1)).drop_last() =~= decls_view(decls@.take(i as int)));
            assert(decls_view(decls@.take(i + 1)).last() == decls@[i as int].view_tuple());
        }
        match &decls[i].url {
            Some(u) => {
                r.push(u.clone());
                assert(strings_view(r@) =~= strings_view(r@.drop_last()).push(u@));
            },
            None => {},
        }
        i = i + 1;
    }
    assert(decls@.take(decls@.len() as int) =~= decls@);
    r
}

} // verus!
