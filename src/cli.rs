use vstd::prelude::*;
use crate::submodules::strings_view;

verus! {

/// What an argument does with what it is given.
pub enum ArgKind {
    /// A switch: present or not.
    Flag,
    /// Takes exactly one value.
    Value,
    /// Takes one value or more.
    Values,
    /// May be given several times, each time with at most one value that
    /// follows `=`.
    OptionalAppend,
    /// May be given several times, each with one value.
    Append,
}

/// How the values of an argument are read.
pub enum ValueType {
    Text,
    /// A path to a directory.
    DirPath,
    /// A non-negative count.
    Count,
}

/// One command-line argument.
pub struct CliArg {
    pub id: String,
    pub short: Option<char>,
    pub long: Option<String>,
    pub help: Option<String>,
    pub value_name: Option<String>,
    pub kind: ArgKind,
    pub value_type: ValueType,
    pub required: bool,
    pub hidden: bool,
    pub default_value: Option<String>,
    pub env: Option<String>,
    pub conflicts_with: Option<String>,
    pub overrides_with: Option<String>,
    /// Takes the value `true` by default where the argument named here is given.
    pub implied_by: Option<String>,
}

/// A subcommand with its arguments.
pub struct CliCommand {
    pub name: String,
    pub about: Option<String>,
    pub hidden: bool,
    pub args: Vec<CliArg>,
    pub after_help: Option<String>,
}

/// The program's command line: its global arguments and its subcommands.
pub struct CliApp {
    pub name: String,
    pub author: String,
    pub about: String,
    pub infer_subcommands: bool,
    pub args: Vec<CliArg>,
    pub subcommands: Vec<CliCommand>,
}

pub open spec fn arg_ids(args: Seq<CliArg>) -> Seq<Seq<char>> {
    args.map_values(|a: CliArg| a.id@)
}

pub open spec fn arg_kinds(args: Seq<CliArg>) -> Seq<ArgKind> {
    args.map_values(|a: CliArg| a.kind)
}

pub open spec fn command_names(c: Seq<CliCommand>) -> Seq<Seq<char>> {
    c.map_values(|x: CliCommand| x.name@)
}

fn s(x: &str) -> (r: String)
    ensures
        r@ == x@,
{
    x.to_string()
}

/// An argument named `id`, a hidden-free switch with nothing else set.
fn arg(id: &str) -> (r: CliArg)
    ensures
        r.id@ == id@,
        r.kind is Flag,
        !r.hidden && !r.required,
{
    CliArg {
        id: s(id),
        short: None,
        long: None,
        help: None,
        value_name: None,
        kind: ArgKind::Flag,
        value_type: ValueType::Text,
        required: false,
        hidden: false,
        default_value: None,
        env: None,
        conflicts_with: None,
        overrides_with: None,
        implied_by: None,
    }
}

fn push_arg(v: &mut Vec<CliArg>, a: CliArg)
    ensures
        final(v)@ == old(v)@.push(a),
        arg_ids(final(v)@) == arg_ids(old(v)@).push(a.id@),
        arg_kinds(final(v)@) == arg_kinds(old(v)@).push(a.kind),
{
    v.push(a);
    assert(arg_ids(v@) =~= arg_ids(old(v)@).push(a.id@));
    assert(arg_kinds(v@) =~= arg_kinds(old(v)@).push(a.kind));
}

/// The argument that names the cache's base directory.
pub fn clap_git_cache_dir_arg() -> (r: CliArg)
    ensures
        r.id@ == "git_cache_dir"@,
        r.short == Some('c'),
        r.long matches Some(l) && l@ == "cache-dir"@,
        r.default_value matches Some(d) && d@ == "~/.gitcache"@,
        r.env matches Some(e) && e@ == "GIT_CACHE_DIR"@,
        r.kind is Value && !r.required,
{
    CliArg {
        short: Some('c'),
        long: Some(s("cache-dir")),
        help: Some(s("git cache base directory")),
        kind: ArgKind::Value,
        value_type: ValueType::DirPath,
        default_value: Some(s("~/.gitcache")),
        env: Some(s("GIT_CACHE_DIR")),
        ..arg("git_cache_dir")
    }
}

/// The ids of the switches of `git clone` that are passed through, in the
/// order in which they are passed on.
pub open spec fn pass_through_flags() -> Seq<Seq<char>> {
    seq!["local"@, "no-checkout"@, "quiet"@, "shared"@, "verbose"@, "also-filter-submodules"@, "bare"@,
        "dissociate"@, "mirror"@, "no-hardlinks"@, "no-reject-shallow"@, "no-remote-submodules"@,
        "no-single-branch"@, "no-tags"@, "reject-shallow"@, "remote-submodules"@, "single-branch"@, "sparse"@]
}

/// The ids of the options of `git clone` that are passed through with their
/// value, in the order in which they are passed on.
pub open spec fn pass_through_options() -> Seq<Seq<char>> {
    seq!["branch"@, "bundle-uri"@, "config"@, "depth"@, "filter"@, "origin"@, "reference"@,
        "reference-if-able"@, "separate-git-dir"@, "shallow-exclude"@, "shallow-since"@, "template"@,
        "upload-pack"@]
}

fn push_s(v: &mut Vec<String>, x: &str)
    ensures
        strings_view(final(v)@) == strings_view(old(v)@).push(x@),
{
    v.push(s(x));
    assert(strings_view(v@) =~= strings_view(old(v)@).push(x@));
}

/// The switches of `git clone` that are passed through (see `pass_through_flags`).
pub fn pass_through_flag_ids() -> (r: Vec<String>)
    ensures
        strings_view(r@) == pass_through_flags(),
{
    let mut v: Vec<String> = Vec::new();
    push_s(&mut v, "local");
    push_s(&mut v, "no-checkout");
    push_s(&mut v, "quiet");
    push_s(&mut v, "shared");
    push_s(&mut v, "verbose");
    push_s(&mut v, "also-filter-submodules");
    push_s(&mut v, "bare");
    push_s(&mut v, "dissociate");
    push_s(&mut v, "mirror");
    push_s(&mut v, "no-hardlinks");
    push_s(&mut v, "no-reject-shallow");
    push_s(&mut v, "no-remote-submodules");
    push_s(&mut v, "no-single-branch");
    push_s(&mut v, "no-tags");
    push_s(&mut v, "reject-shallow");
    push_s(&mut v, "remote-submodules");
    push_s(&mut v, "single-branch");
    push_s(&mut v, "sparse");
    assert(strings_view(v@) =~= pass_through_flags());
    v
}

/// The options of `git clone` that are passed through (see `pass_through_options`).
pub fn pass_through_option_ids() -> (r: Vec<String>)
    ensures
        strings_view(r@) == pass_through_options(),
{
    let mut v: Vec<String> = Vec::new();
    push_s(&mut v, "branch");
    push_s(&mut v, "bundle-uri");
    push_s(&mut v, "config");
    push_s(&mut v, "depth");
    push_s(&mut v, "filter");
    push_s(&mut v, "origin");
    push_s(&mut v, "reference");
    push_s(&mut v, "reference-if-able");
    push_s(&mut v, "separate-git-dir");
    push_s(&mut v, "shallow-exclude");
    push_s(&mut v, "shallow-since");
    push_s(&mut v, "template");
    push_s(&mut v, "upload-pack");
    assert(strings_view(v@) =~= pass_through_options());
    v
}

/// The arguments passed on to `git clone`: `--id` for each switch that was
/// given, then `--id value` for each value of each option, in table order.
pub open spec fn forwarded(flags: Seq<Seq<char>>, set: Seq<bool>, options: Seq<Seq<char>>, values: Seq<Seq<Seq<char>>>) -> Seq<Seq<char>> {
    forwarded_flags(flags, set) + forwarded_options(options, values)
}

pub open spec fn forwarded_flags(flags: Seq<Seq<char>>, set: Seq<bool>) -> Seq<Seq<char>>
    decreases flags.len(),
{
    if flags.len() == 0 || set.len() == 0 {
        seq![]
    } else {
        let prev = forwarded_flags(flags.drop_last(), set.drop_last());
        if set.last() { prev.push("--"@ + flags.last()) } else { prev }
    }
}

pub open spec fn option_pairs(id: Seq<char>, vals: Seq<Seq<char>>) -> Seq<Seq<char>>
    decreases vals.len(),
{
    if vals.len() == 0 {
        seq![]
    } else {
        option_pairs(id, vals.drop_last()) + seq!["--"@ + id, vals.last()]
    }
}

pub open spec fn forwarded_options(options: Seq<Seq<char>>, values: Seq<Seq<Seq<char>>>) -> Seq<Seq<char>>
    decreases options.len(),
{
    if options.len() == 0 || values.len() == 0 {
        seq![]
    } else {
        forwarded_options(options.drop_last(), values.drop_last()) + option_pairs(options.last(), values.last())
    }
}

pub open spec fn values_view(v: Seq<Vec<String>>) -> Seq<Seq<Seq<char>>> {
    v.map_values(|x: Vec<String>| strings_view(x@))
}

fn dashed(id: &String) -> (r: String)
    ensures
        r@ == "--"@ + id@,
{
    s("--").concat(id.as_str())
}

/// The arguments to pass on to `git clone`, given which of the switches of
/// `pass_through_flag_ids` were set and the values given to each option of
/// `pass_through_option_ids` (see `forwarded`).
pub fn get_pass_through_args(flags_set: &Vec<bool>, option_values: &Vec<Vec<String>>) -> (r: Vec<String>)
    requires
        flags_set@.len() == pass_through_flags().len(),
        option_values@.len() == pass_through_options().len(),
    ensures
        strings_view(r@) == forwarded(pass_through_flags(), flags_set@, pass_through_options(), values_view(option_values@)),
{
    let flags = pass_through_flag_ids();
    let options = pass_through_option_ids();
    let mut r: Vec<String> = Vec::new();
    let mut i: usize = 0;
    while i < flags.len()
        invariant
            strings_view(flags@) == pass_through_flags(),
            flags_set@.len() == flags@.len(),
            i <= flags@.len(),
            strings_view(r@) == forwarded_flags(strings_view(flags@).take(i as int), flags_set@.take(i as int)),
        decreases flags@.len() - i,
    {
        proof {
            assert(strings_view(flags@).take(i + 1).drop_last() =~= strings_view(flags@).take(i as int));
            assert(flags_set@.take(i + 1).drop_last() =~= flags_set@.take(i as int));
        }
        if flags_set[i] {
            let a = dashed(&flags[i]);
            let ghost before = strings_view(r@);
            r.push(a);
            assert(strings_view(r@) =~= before.push(a@));
        }
        i = i + 1;
    }
    assert(strings_view(flags@).take(flags@.len() as int) =~= strings_view(flags@));
    assert(flags_set@.take(flags@.len() as int) =~= flags_set@);
    let ghost head = strings_view(r@);
    let mut k: usize = 0;
    while k < options.len()
        invariant
            strings_view(options@) == pass_through_options(),
            option_values@.len() == options@.len(),
            k <= options@.len(),
            strings_view(r@) == head + forwarded_options(strings_view(options@).take(k as int),
                values_view(option_values@).take(k as int)),
        decreases options@.len() - k,
    {
        proof {
            assert(strings_view(options@).take(k + 1).drop_last() =~= strings_view(options@).take(k as int));
            assert(values_view(option_values@).take(k + 1).drop_last() =~= values_view(option_values@).take(k as int));
        }
        let vals = &option_values[k];
        let ghost mid = strings_view(r@);
        let mut j: usize = 0;
        while j < vals.len()
            invariant
                k < options@.len(),
                strings_view(r@) == mid + option_pairs(strings_view(options@)[k as int], strings_view(vals@).take(j as int)),
                j <= vals@.len(),
            decreases vals@.len() - j,
        {
            proof {
                assert(strings_view(vals@).take(j + 1).drop_last() =~= strings_view(vals@).take(j as int));
            }
            let a = dashed(&options[k]);
            let b = vals[j].clone();
            let ghost before = strings_view(r@);
            r.push(a);
            r.push(b);
            assert(strings_view(r@) =~= before + seq![a@, b@]);
            assert(strings_view(vals@).take(j + 1).last() == b@);
            j = j + 1;
        }
        assert(strings_view(vals@).take(vals@.len() as int) =~= strings_view(vals@));
        assert(values_view(option_values@).take(k + 1).last() == strings_view(vals@));
        assert(strings_view(r@) =~= head + forwarded_options(strings_view(options@).take(k + 1),
            values_view(option_values@).take(k + 1)));
        k = k + 1;
    }
    assert(strings_view(options@).take(options@.len() as int) =~= strings_view(options@));
    assert(values_view(option_values@).take(options@.len() as int) =~= values_view(option_values@));
    r
}

/// A hidden switch `--id` of `git clone`, passed through.
fn hidden_flag(id: &str, short: Option<char>) -> (r: CliArg)
    ensures
        r.id@ == id@,
        r.long matches Some(l) && l@ == id@,
        r.short == short,
        r.hidden && r.kind is Flag,
{
    CliArg { short, long: Some(s(id)), hidden: true, ..arg(id) }
}

/// A hidden option `--id value` of `git clone`, passed through.
fn hidden_option(id: &str, short: Option<char>) -> (r: CliArg)
    ensures
        r.id@ == id@,
        r.long matches Some(l) && l@ == id@,
        r.short == short,
        r.hidden && r.kind is Value,
{
    CliArg { short, long: Some(s(id)), hidden: true, kind: ArgKind::Value, ..arg(id) }
}

pub open spec fn pass_through_arg_ids() -> Seq<Seq<char>> {
    seq!["local"@, "quiet"@, "shared"@, "verbose"@, "no-checkout"@, "sparse"@, "branch"@, "config"@, "origin"@,
        "upload-pack"@, "also-filter-submodules"@, "bare"@, "dissociate"@, "mirror"@, "no-hardlinks"@,
        "no-reject-shallow"@, "no-remote-submodules"@, "no-single-branch"@, "no-tags"@, "reject-shallow"@,
        "remote-submodules"@, "single-branch"@, "bundle-uri"@, "depth"@, "filter"@, "reference"@,
        "reference-if-able"@, "separate-git-dir"@, "shallow-exclude"@, "shallow-since"@, "template"@]
}

/// The kinds of the arguments of `pass_through_args`: switches where
/// `pass_through_flags` names the id, one value where `pass_through_options`
/// does.
pub open spec fn pass_through_arg_kinds() -> Seq<ArgKind> {
    seq![ArgKind::Flag, ArgKind::Flag, ArgKind::Flag, ArgKind::Flag, ArgKind::Flag, ArgKind::Flag,
        ArgKind::Value, ArgKind::Value, ArgKind::Value, ArgKind::Value,
        ArgKind::Flag, ArgKind::Flag, ArgKind::Flag, ArgKind::Flag, ArgKind::Flag, ArgKind::Flag,
        ArgKind::Flag, ArgKind::Flag, ArgKind::Flag, ArgKind::Flag, ArgKind::Flag, ArgKind::Flag,
        ArgKind::Value, ArgKind::Value, ArgKind::Value, ArgKind::Value, ArgKind::Value, ArgKind::Value,
        ArgKind::Value, ArgKind::Value, ArgKind::Value]
}

/// The hidden arguments of `clone` that stand for options of `git clone`
/// and are passed through to it. `--no-checkout` is implied by `--commit`,
/// and `--sparse` by `--sparse-add`.
pub fn pass_through_args() -> (r: Vec<CliArg>)
    ensures
        arg_ids(r@) == pass_through_arg_ids(),
        arg_kinds(r@) == pass_through_arg_kinds(),
        forall|i: int| 0 <= i < r@.len() ==> (#[trigger] r@[i]).hidden,
        r@[4].implied_by matches Some(c) && c@ == "commit"@,
        r@[5].implied_by matches Some(c) && c@ == "sparse-add"@,
{
    let mut v: Vec<CliArg> = Vec::new();
    push_arg(&mut v, hidden_flag("local", Some('l')));
    push_arg(&mut v, hidden_flag("quiet", Some('q')));
    push_arg(&mut v, hidden_flag("shared", Some('s')));
    push_arg(&mut v, hidden_flag("verbose", Some('v')));
    push_arg(&mut v, CliArg { implied_by: Some(s("commit")), ..hidden_flag("no-checkout", Some('n')) });
    push_arg(&mut v, CliArg { implied_by: Some(s("sparse-add")), ..hidden_flag("sparse", None) });
    push_arg(&mut v, hidden_option("branch", Some('b')));
    push_arg(&mut v, hidden_option("config", Some('c')));
    push_arg(&mut v, hidden_option("origin", Some('o')));
    push_arg(&mut v, hidden_option("upload-pack", Some('u')));
    push_arg(&mut v, hidden_flag("also-filter-submodules", None));
    push_arg(&mut v, hidden_flag("bare", None));
    push_arg(&mut v, hidden_flag("dissociate", None));
    push_arg(&mut v, hidden_flag("mirror", None));
    push_arg(&mut v, hidden_flag("no-hardlinks", None));
    push_arg(&mut v, hidden_flag("no-reject-shallow", None));
    push_arg(&mut v, hidden_flag("no-remote-submodules", None));
    push_arg(&mut v, hidden_flag("no-single-branch", None));
    push_arg(&mut v, hidden_flag("no-tags", None));
    push_arg(&mut v, hidden_flag("reject-shallow", None));
    push_arg(&mut v, hidden_flag("remote-submodules", None));
    push_arg(&mut v, hidden_flag("single-branch", None));
    push_arg(&mut v, hidden_option("bundle-uri", None));
    push_arg(&mut v, hidden_option("depth", None));
    push_arg(&mut v, hidden_option("filter", None));
    push_arg(&mut v, hidden_option("reference", None));
    push_arg(&mut v, hidden_option("reference-if-able", None));
    push_arg(&mut v, hidden_option("separate-git-dir", None));
    push_arg(&mut v, hidden_option("shallow-exclude", None));
    push_arg(&mut v, hidden_option("shallow-since", None));
    push_arg(&mut v, hidden_option("template", None));
    assert(arg_ids(v@) =~= pass_through_arg_ids());
    assert(arg_kinds(v@) =~= pass_through_arg_kinds());
    v
}

fn append_args(v: &mut Vec<CliArg>, more: Vec<CliArg>)
    ensures
        final(v)@ == old(v)@ + more@,
        arg_ids(final(v)@) == arg_ids(old(v)@) + arg_ids(more@),
        arg_kinds(final(v)@) == arg_kinds(old(v)@) + arg_kinds(more@),
{
    let ghost given = more@;
    let mut more = more;
    v.append(&mut more);
    assert(arg_ids(v@) =~= arg_ids(old(v)@) + arg_ids(given));
    assert(arg_kinds(v@) =~= arg_kinds(old(v)@) + arg_kinds(given));
}

pub open spec fn clone_arg_ids() -> Seq<Seq<char>> {
    seq!["repository"@, "target_path"@, "update"@, "commit"@, "sparse-add"@, "recurse-submodules"@,
        "shallow-submodules"@, "no-shallow-submodules"@, "jobs"@]
}

pub open spec fn clone_arg_kinds() -> Seq<ArgKind> {
    seq![ArgKind::Value, ArgKind::Value, ArgKind::Flag, ArgKind::Value, ArgKind::Append, ArgKind::OptionalAppend,
        ArgKind::Flag, ArgKind::Flag, ArgKind::Value]
}

/// The subcommand that clones one repository, named `name`: its own
/// arguments, then those passed through to `git clone`. A pinned commit and
/// sparse paths each exclude `--branch`.
pub fn clap_clone_command(name: &str) -> (r: CliCommand)
    ensures
        r.name@ == name@,
        arg_ids(r.args@) == clone_arg_ids() + pass_through_arg_ids(),
        arg_kinds(r.args@) == clone_arg_kinds() + pass_through_arg_kinds(),
        r.args@[0].required,
        r.args@[2].short == Some('U'),
        r.args@[3].conflicts_with matches Some(c) && c@ == "branch"@,
        r.args@[4].conflicts_with matches Some(c) && c@ == "branch"@,
        r.args@[6].overrides_with matches Some(o) && o@ == "no-shallow-submodules"@,
        r.args@[7].overrides_with matches Some(o) && o@ == "shallow-submodules"@,
        r.args@[8].short == Some('j') && r.args@[8].value_type is Count,
        !r.hidden,
{
    let mut v: Vec<CliArg> = Vec::new();
    push_arg(&mut v, CliArg { help: Some(s("repository to clone")), kind: ArgKind::Value, required: true, ..arg("repository") });
    push_arg(&mut v, CliArg { help: Some(s("target path")), kind: ArgKind::Value, value_type: ValueType::DirPath,
        ..arg("target_path") });
    push_arg(&mut v, CliArg { short: Some('U'), long: Some(s("update")), help: Some(s("force update of cached repo")),
        ..arg("update") });
    push_arg(&mut v, CliArg { long: Some(s("commit")), value_name: Some(s("HASH")), conflicts_with: Some(s("branch")),
        help: Some(s("check out specific commit")), kind: ArgKind::Value, ..arg("commit") });
    push_arg(&mut v, CliArg { long: Some(s("sparse-add")), value_name: Some(s("PATH")), conflicts_with: Some(s("branch")),
        help: Some(s("do a sparse checkout, keep PATH")), kind: ArgKind::Append, ..arg("sparse-add") });
    push_arg(&mut v, CliArg { long: Some(s("recurse-submodules")), value_name: Some(s("pathspec")),
        help: Some(s("recursively clone submodules")), kind: ArgKind::OptionalAppend, ..arg("recurse-submodules") });
    push_arg(&mut v, CliArg { long: Some(s("shallow-submodules")), overrides_with: Some(s("no-shallow-submodules")),
        help: Some(s("shallow-clone submodules")), ..arg("shallow-submodules") });
    push_arg(&mut v, CliArg { long: Some(s("no-shallow-submodules")), overrides_with: Some(s("shallow-submodules")),
        help: Some(s("don't shallow-clone submodules")), ..arg("no-shallow-submodules") });
    push_arg(&mut v, CliArg { short: Some('j'), long: Some(s("jobs")), help: Some(s("The number of submodules fetched at the same time.")),
        kind: ArgKind::Value, value_type: ValueType::Count, ..arg("jobs") });
    assert(arg_ids(v@) =~= clone_arg_ids());
    assert(arg_kinds(v@) =~= clone_arg_kinds());
    let ghost own = v@;
    append_args(&mut v, pass_through_args());
    assert(v@[3] == own[3] && v@[4] == own[4] && v@[2] == own[2] && v@[8] == own[8]);
    assert(v@[6] == own[6] && v@[7] == own[7] && v@[0] == own[0]);
    CliCommand {
        name: s(name),
        about: Some(s("clone repository")),
        hidden: false,
        args: v,
        after_help: Some(s("These regular \"git clone\" options are passed through:\n
        [--template=<template-directory>]
        [-l] [-s] [--no-hardlinks] [-q] [-n] [--bare] [--mirror]
        [-o <name>] [-b <name>] [-u <upload-pack>] [--reference <repository>]
        [--dissociate] [--separate-git-dir <git-dir>]
        [--depth <depth>] [--[no-]single-branch] [--no-tags]
        [--recurse-submodules[=<pathspec>]] [--[no-]shallow-submodules]
        [--[no-]remote-submodules] [--jobs <n>] [--sparse] [--[no-]reject-shallow]
        [--filter=<filter> [--also-filter-submodules]]")),
    }
}

/// The subcommand that prefetches repositories into the cache, named `name`.
pub fn clap_prefetch_command(name: &str) -> (r: CliCommand)
    ensures
        r.name@ == name@,
        arg_ids(r.args@) == seq!["repositories"@, "update"@, "recurse-submodules"@, "jobs"@],
        arg_kinds(r.args@) == seq![ArgKind::Values, ArgKind::Flag, ArgKind::Flag, ArgKind::Value],
        r.args@[0].required,
        r.args@[1].short == Some('U'),
        r.args@[2].short == Some('r'),
        r.args@[3].short == Some('j') && r.args@[3].value_type is Count,
        !r.hidden,
{
    let mut v: Vec<CliArg> = Vec::new();
    push_arg(&mut v, CliArg { help: Some(s("repositories to prefetch")), kind: ArgKind::Values, required: true,
        ..arg("repositories") });
    push_arg(&mut v, CliArg { short: Some('U'), long: Some(s("update")), help: Some(s("force update of already cached repo(s)")),
        ..arg("update") });
    push_arg(&mut v, CliArg { short: Some('r'), long: Some(s("recurse-submodules")), help: Some(s("recursively prefetch submodules")),
        ..arg("recurse-submodules") });
    push_arg(&mut v, CliArg { short: Some('j'), long: Some(s("jobs")), help: Some(s("The number of reposititories fetched at the same time.")),
        kind: ArgKind::Value, value_type: ValueType::Count, ..arg("jobs") });
    assert(arg_ids(v@) =~= seq!["repositories"@, "update"@, "recurse-submodules"@, "jobs"@]);
    assert(arg_kinds(v@) =~= seq![ArgKind::Values, ArgKind::Flag, ArgKind::Flag, ArgKind::Value]);
    CliCommand { name: s(name), about: Some(s("pre-fetch repositories into the cache")), hidden: false, args: v, after_help: None }
}

/// The whole command line: the cache directory argument, and the
/// subcommands `clone`, `prefetch` and a hidden `init` that does nothing.
pub fn clap() -> (r: CliApp)
    ensures
        r.name@ == "git-cache"@,
        r.infer_subcommands,
        arg_ids(r.args@) == seq!["git_cache_dir"@],
        command_names(r.subcommands@) == seq!["clone"@, "prefetch"@, "init"@],
        r.subcommands@[2].hidden && r.subcommands@[2].args@.len() == 0,
{
    let mut args: Vec<CliArg> = Vec::new();
    push_arg(&mut args, clap_git_cache_dir_arg());
    assert(arg_ids(args@) =~= seq!["git_cache_dir"@]);
    let mut subcommands: Vec<CliCommand> = Vec::new();
    subcommands.push(clap_clone_command("clone"));
    subcommands.push(clap_prefetch_command("prefetch"));
    subcommands.push(CliCommand { name: s("init"), about: None, hidden: true, args: Vec::new(), after_help: None });
    assert(command_names(subcommands@) =~= seq!["clone"@, "prefetch"@, "init"@]);
    CliApp {
        name: s("git-cache"),
        author: s("Kaspar Schleiser <kaspar@schleiser.de>"),
        about: s("A git repository cache tool"),
        infer_subcommands: true,
        args,
        subcommands,
    }
}

} // verus!
