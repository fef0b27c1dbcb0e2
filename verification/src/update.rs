//! Self-update decisions: the GitHub repository path, the release API
//! reply, and the step that follows from comparing versions.
use vstd::prelude::*;
use vstd::string::StringExecFns;

use crate::text::{
    chars_of, drop_leading, drop_trailing, lemma_split_on_append_plain, opt_view, split_on,
    split_range, starts_with_at, strip_suffixes, string_of, views,
};
use crate::version::{should_update, update_wanted};

verus! {

broadcast use vstd::string::group_string_axioms;

/// Why an update could not go ahead.
#[derive(Debug)]
pub enum UpdateError {
    /// The repository URL is not a GitHub repository.
    UnsupportedRepository(String),
    /// A program could not be started.
    Command { program: String, source: std::io::Error },
    /// A program ran and reported failure.
    CommandFailed { program: String, status: String, stderr: String },
    /// The release reply is not JSON.
    ReleaseJson(serde_json::Error),
    /// The release reply has no string `tag_name`.
    MissingTagName,
}

/// The part of a repository URL after the GitHub host, if it names that host.
pub open spec fn after_github_host(s: Seq<char>) -> Option<Seq<char>> {
    let https = "https://github.com/"@;
    let http = "http://github.com/"@;
    if s.len() >= https.len() && s.take(https.len() as int) == https {
        Some(s.skip(https.len() as int))
    } else if s.len() >= http.len() && s.take(http.len() as int) == http {
        Some(s.skip(http.len() as int))
    } else {
        None
    }
}

/// The path after the host without trailing `.git`s and without slashes at either end.
pub open spec fn repo_path_body(rest: Seq<char>) -> Seq<char> {
    drop_trailing(drop_leading(strip_suffixes(rest, ".git"@), '/'), '/')
}

/// The first two slash-separated segments of the path (the second empty if missing).
pub open spec fn owner_and_repo(rest: Seq<char>) -> (Seq<char>, Seq<char>) {
    let parts = split_on(repo_path_body(rest), '/');
    (parts[0], if parts.len() > 1 { parts[1] } else { Seq::empty() })
}

/// `owner/repo` for a GitHub repository URL whose owner and repository are both non-empty.
pub open spec fn repo_path_of(url: Seq<char>) -> Option<Seq<char>> {
    match after_github_host(url) {
        None => None,
        Some(rest) => {
            let (owner, repo) = owner_and_repo(rest);
            if owner.len() > 0 && repo.len() > 0 {
                Some(owner + seq!['/'] + repo)
            } else {
                None
            }
        },
    }
}

/// Where the trailing copies of `.git` in `v[from..to]` start.
fn strip_git_suffixes(v: &Vec<char>, from: usize, to: usize) -> (e: usize)
    requires
        from <= to <= v.len(),
    ensures
        from <= e <= to,
        v@.subrange(from as int, e as int) == strip_suffixes(
            v@.subrange(from as int, to as int),
            ".git"@,
        ),
{
    let git = chars_of(".git");
    proof {
        reveal_strlit(".git");
    }
    let mut e = to;
    while e - from >= 4 && starts_with_at(v, e - 4, e, &git)
        invariant
            from <= e <= to <= v.len(),
            git@ == ".git"@,
            git@.len() == 4,
            strip_suffixes(v@.subrange(from as int, e as int), ".git"@) == strip_suffixes(
                v@.subrange(from as int, to as int),
                ".git"@,
            ),
        decreases e,
    {
        let ghost s = v@.subrange(from as int, e as int);
        assert(s.subrange(s.len() - 4, s.len() as int) == v@.subrange(e - 4, e as int));
        assert(s.subrange(0, s.len() - 4) == v@.subrange(from as int, e - 4));
        e = e - 4;
    }
    proof {
        let s = v@.subrange(from as int, e as int);
        if s.len() >= 4 {
            assert(s.subrange(s.len() - 4, s.len() as int) == v@.subrange(e - 4, e as int));
        }
    }
    e
}

/// Bounds of `v[from..to]` without its leading and trailing slashes.
fn trim_slashes(v: &Vec<char>, from: usize, to: usize) -> (r: (usize, usize))
    requires
        from <= to <= v.len(),
    ensures
        from <= r.0 <= r.1 <= to,
        v@.subrange(r.0 as int, r.1 as int) == drop_trailing(
            drop_leading(v@.subrange(from as int, to as int), '/'),
            '/',
        ),
{
    let mut a = from;
    while a < to && v[a] == '/'
        invariant
            from <= a <= to <= v.len(),
            drop_leading(v@.subrange(a as int, to as int), '/') == drop_leading(
                v@.subrange(from as int, to as int),
                '/',
            ),
        decreases to - a,
    {
        assert(v@.subrange(a as int, to as int).drop_first() == v@.subrange(a + 1, to as int));
        a = a + 1;
    }
    let mut b = to;
    while b > a && v[b - 1] == '/'
        invariant
            from <= a <= b <= to <= v.len(),
            drop_leading(v@.subrange(from as int, to as int), '/') == v@.subrange(
                a as int,
                to as int,
            ),
            drop_trailing(v@.subrange(a as int, b as int), '/') == drop_trailing(
                v@.subrange(a as int, to as int),
                '/',
            ),
        decreases b,
    {
        assert(v@.subrange(a as int, b as int).drop_last() == v@.subrange(a as int, b - 1));
        b = b - 1;
    }
    (a, b)
}

/// Characters `a` followed by `b`.
fn concat_chars(a: &Vec<char>, b: &Vec<char>) -> (r: Vec<char>)
    ensures
        r@ == a@ + b@,
{
    let mut r: Vec<char> = Vec::new();
    for i in 0..a.len()
        invariant
            r@ == a@.take(i as int),
    {
        r.push(a[i]);
        assert(a@.take(i + 1) == a@.take(i as int).push(a@[i as int]));
    }
    assert(a@.take(a.len() as int) == a@);
    for i in 0..b.len()
        invariant
            r@ == a@ + b@.take(i as int),
    {
        r.push(b[i]);
        assert(b@.take(i + 1) == b@.take(i as int).push(b@[i as int]));
    }
    assert(b@.take(b.len() as int) == b@);
    r
}

/// `owner/repo` of a GitHub repository URL (`https://github.com/owner/repo`,
/// optionally over plain HTTP, with a `.git` suffix or extra slashes).
pub fn github_repo_path(repository: &str) -> (r: Result<String, UpdateError>)
    ensures
        match r {
            Ok(path) => repo_path_of(repository@) == Some(path@),
            Err(e) => repo_path_of(repository@) is None && (e matches UpdateError::UnsupportedRepository(
                s,
            ) && s@ == repository@),
        },
{
    let v = chars_of(repository);
    let https = chars_of("https://github.com/");
    let http = chars_of("http://github.com/");
    let start = if starts_with_at(&v, 0, v.len(), &https) {
        https.len()
    } else if starts_with_at(&v, 0, v.len(), &http) {
        http.len()
    } else {
        return Err(UpdateError::UnsupportedRepository(repository.to_owned()));
    };
    assert(v@.subrange(0, v.len() as int) == v@);
    let ghost rest = v@.skip(start as int);
    assert(after_github_host(repository@) == Some(rest));
    assert(rest == v@.subrange(start as int, v.len() as int));
    let e = strip_git_suffixes(&v, start, v.len());
    let (a, b) = trim_slashes(&v, start, e);
    assert(v@.subrange(a as int, b as int) == repo_path_body(rest));
    let parts = split_range(&v, a, b, '/');
    assert(views(parts@)[0] == parts@[0]@);
    let owner = &parts[0];
    let empty: Vec<char> = Vec::new();
    let repo = if parts.len() > 1 {
        assert(views(parts@)[1] == parts@[1]@);
        &parts[1]
    } else {
        &empty
    };
    assert(owner_and_repo(rest) == (owner@, repo@));
    if owner.len() == 0 || repo.len() == 0 {
        return Err(UpdateError::UnsupportedRepository(repository.to_owned()));
    }
    let mut slash: Vec<char> = Vec::new();
    slash.push('/');
    let head = concat_chars(owner, &slash);
    let joined = concat_chars(&head, repo);
    assert(joined@ == owner@ + seq!['/'] + repo@);
    Ok(string_of(&joined))
}


/// Appending `.git` to a repository URL does not change the path it names.
pub proof fn law_git_suffix_is_ignored(url: Seq<char>)
    ensures
        repo_path_of(url + ".git"@) == repo_path_of(url),
{
    reveal_strlit(".git");
    reveal_strlit("https://github.com/");
    reveal_strlit("http://github.com/");
    let g = ".git"@;
    let u = url + g;
    let https = "https://github.com/"@;
    let http = "http://github.com/"@;
    if u.len() >= https.len() && u.take(https.len() as int) == https {
        assert(https.len() == 19 && https[18] == '/');
        assert(u.take(19)[18] == u[18]);
        assert(u[18] == '/');
        assert(url.len() >= 19);
        assert(url.take(19) =~= u.take(19));
        assert(u.skip(19) =~= url.skip(19) + g);
    } else if u.len() >= http.len() && u.take(http.len() as int) == http {
        assert(http.len() == 18 && http[17] == '/');
        assert(u.take(18)[17] == u[17]);
        assert(u[17] == '/');
        assert(url.len() >= 18);
        assert(url.take(18) =~= u.take(18));
        assert(!(url.len() >= https.len() && url.take(https.len() as int) == https)) by {
            if url.len() >= https.len() && url.take(https.len() as int) == https {
                assert(u.take(19) =~= url.take(19));
                assert(u[4] == url.take(19)[4]);
            }
        }
        assert(u.skip(18) =~= url.skip(18) + g);
    } else {
        if url.len() >= https.len() && url.take(https.len() as int) == https {
            assert(u.take(19) =~= url.take(19));
        }
        if url.len() >= http.len() && url.take(http.len() as int) == http {
            assert(u.take(18) =~= url.take(18));
        }
    }
    if let Some(rest) = after_github_host(url) {
        let r2 = rest + g;
        assert(r2.subrange(r2.len() - 4, r2.len() as int) =~= g);
        assert(r2.subrange(0, r2.len() - 4) =~= rest);
    }
}

/// What serde_json reads from `json`: `None` when it is not JSON, otherwise the
/// string member `key` of the top-level object, if there is one.
pub uninterp spec fn json_string_member(json: Seq<u8>, key: Seq<char>) -> Option<Option<Seq<char>>>;

/// Parses `json` with `serde_json::from_slice` into a `serde_json::Value` and reads
/// the member `key` with `Value::get` and `Value::as_str`. Claimed: the outcome is
/// a function of `json` and `key` alone; nothing is claimed of which inputs parse.
#[verifier::external_body]
fn read_json_string_member(json: &[u8], key: &str) -> (r: Result<Option<String>, serde_json::Error>)
    ensures
        r is Ok <==> json_string_member(json@, key@) is Some,
        r matches Ok(o) ==> json_string_member(json@, key@) == Some(opt_view(o)),
{
    let value: serde_json::Value = serde_json::from_slice(json)?;
    Ok(value.get(key).and_then(serde_json::Value::as_str).map(str::to_owned))
}

/// The release tag from what the release reply held under `tag_name`.
pub fn tag_from_member(found: Result<Option<String>, serde_json::Error>) -> (r: Result<
    String,
    UpdateError,
>)
    ensures
        match found {
            Err(e) => r matches Err(UpdateError::ReleaseJson(e2)) && e2 == e,
            Ok(None) => r matches Err(UpdateError::MissingTagName),
            Ok(Some(t)) => r matches Ok(s) && s@ == t@,
        },
{
    match found {
        Err(e) => Err(UpdateError::ReleaseJson(e)),
        Ok(None) => Err(UpdateError::MissingTagName),
        Ok(Some(t)) => Ok(t),
    }
}

/// The `tag_name` of a GitHub "latest release" reply.
pub fn latest_tag_name(json: &[u8]) -> (r: Result<String, UpdateError>)
    ensures
        match json_string_member(json@, "tag_name"@) {
            None => r matches Err(UpdateError::ReleaseJson(_)),
            Some(None) => r matches Err(UpdateError::MissingTagName),
            Some(Some(t)) => r matches Ok(s) && s@ == t,
        },
{
    tag_from_member(read_json_string_member(json, "tag_name"))
}

/// The decimal digit character for `d < 10`.
pub open spec fn digit_char(d: nat) -> char {
    (48 + d) as char
}

/// The decimal form of `n`, without leading zeros.
pub open spec fn decimal_of(n: nat) -> Seq<char>
    decreases n,
{
    if n < 10 {
        seq![digit_char(n)]
    } else {
        decimal_of(n / 10).push(digit_char(n % 10))
    }
}

fn push_decimal(out: &mut Vec<char>, n: u64)
    ensures
        final(out)@ == old(out)@ + decimal_of(n as nat),
    decreases n,
{
    if n >= 10 {
        push_decimal(out, n / 10);
    }
    let d: u8 = (n % 10) as u8;
    let c: char = (48u8 + d) as char;
    out.push(c);
}

/// `s` followed by `t`.
fn join(s: &str, t: &str) -> (r: String)
    ensures
        r@ == s@ + t@,
{
    let mut r = String::from_str(s);
    r.append(t);
    r
}

/// The GitHub API address of the latest release of `owner/repo`.
pub fn release_api_url(repo_path: &str) -> (r: String)
    ensures
        r@ == "https://api.github.com/repos/"@ + repo_path@ + "/releases/latest"@,
{
    let a = join("https://api.github.com/repos/", repo_path);
    join(a.as_str(), "/releases/latest")
}

/// The address of the installer script attached to release `tag`.
pub fn installer_url(repo_path: &str, tag: &str, installer_name: &str) -> (r: String)
    ensures
        r@ == "https://github.com/"@ + repo_path@ + "/releases/download/"@ + tag@ + "/"@
            + installer_name@ + "-installer.sh"@,
{
    let a = join("https://github.com/", repo_path);
    let b = join(a.as_str(), "/releases/download/");
    let c = join(b.as_str(), tag);
    let d = join(c.as_str(), "/");
    let e = join(d.as_str(), installer_name);
    join(e.as_str(), "-installer.sh")
}

/// The file name under which the installer of process `pid` is saved.
pub fn installer_file_name(installer_name: &str, pid: u32) -> (r: String)
    ensures
        r@ == installer_name@ + "-installer-"@ + decimal_of(pid as nat) + ".sh"@,
{
    let a = join(installer_name, "-installer-");
    let mut digits: Vec<char> = Vec::new();
    push_decimal(&mut digits, pid as u64);
    assert(digits@ == Seq::<char>::empty() + decimal_of(pid as nat));
    let num = string_of(&digits);
    let b = join(a.as_str(), num.as_str());
    join(b.as_str(), ".sh")
}

/// What the updater does after reading the latest release.
#[derive(Debug)]
pub enum UpdateStep {
    /// The running version is current: report `message` and stop.
    UpToDate { message: String },
    /// Report `message`, then download and run the installer at `installer_url`.
    Install { message: String, installer_url: String },
}

/// The step that follows the release reply `release_json` for the running
/// `current_version` of `installer_name` published at `repo_path`.
pub fn next_update_step(
    repo_path: &str,
    installer_name: &str,
    current_version: &str,
    release_json: &[u8],
) -> (r: Result<UpdateStep, UpdateError>)
    ensures
        match json_string_member(release_json@, "tag_name"@) {
            None => r matches Err(UpdateError::ReleaseJson(_)),
            Some(None) => r matches Err(UpdateError::MissingTagName),
            Some(Some(tag)) => if update_wanted(current_version@, tag) {
                r matches Ok(UpdateStep::Install { message, installer_url }) && message@
                    == "updating rt "@ + current_version@ + " -> "@ + tag && installer_url@
                    == "https://github.com/"@ + repo_path@ + "/releases/download/"@ + tag + "/"@
                    + installer_name@ + "-installer.sh"@
            } else {
                r matches Ok(UpdateStep::UpToDate { message }) && message@
                    == "rt is already up to date ("@ + current_version@ + ")."@
            },
        },
{
    let tag = match latest_tag_name(release_json) {
        Ok(t) => t,
        Err(e) => {
            return Err(e);
        },
    };
    if !should_update(current_version, tag.as_str()) {
        let a = join("rt is already up to date (", current_version);
        return Ok(UpdateStep::UpToDate { message: join(a.as_str(), ").") });
    }
    let a = join("updating rt ", current_version);
    let b = join(a.as_str(), " -> ");
    let message = join(b.as_str(), tag.as_str());
    Ok(UpdateStep::Install { message, installer_url: installer_url(repo_path, tag.as_str(), installer_name) })
}

/// Whether `r` ends with `.git`.
pub open spec fn ends_with_git(r: Seq<char>) -> bool {
    r.len() >= 4 && r.subrange(r.len() - 4, r.len() as int) == ".git"@
}

/// The path of `https://github.com/o/r`, for an owner `o` and a repository `r`
/// that are non-empty and hold no `/`, is `o/r`, with every character of both
/// kept; only a trailing `.git` would be dropped.
pub proof fn law_repo_path_keeps_owner_and_repo(o: Seq<char>, r: Seq<char>)
    requires
        o.len() > 0,
        r.len() > 0,
        !o.contains('/'),
        !r.contains('/'),
        !ends_with_git(r),
    ensures
        repo_path_of("https://github.com/"@ + o + seq!['/'] + r) == Some(o + seq!['/'] + r),
{
    reveal_strlit("https://github.com/");
    reveal_strlit(".git");
    let https = "https://github.com/"@;
    let rest = o + seq!['/'] + r;
    let url = https + rest;
    assert(url.take(https.len() as int) =~= https);
    assert(url.skip(https.len() as int) =~= rest);
    assert(after_github_host(url) == Some(rest));
    // no trailing `.git`
    assert(!(rest.len() >= 4 && rest.subrange(rest.len() - 4, rest.len() as int) == ".git"@)) by {
        if rest.len() >= 4 && rest.subrange(rest.len() - 4, rest.len() as int) == ".git"@ {
            if r.len() >= 4 {
                assert(rest.subrange(rest.len() - 4, rest.len() as int) =~= r.subrange(
                    r.len() - 4,
                    r.len() as int,
                ));
            } else {
                let k = 3 - r.len();
                assert(rest.subrange(rest.len() - 4, rest.len() as int)[k] == rest[o.len() as int]);
                assert(rest[o.len() as int] == '/');
                assert(".git"@[0] == '.' && ".git"@[1] == 'g' && ".git"@[2] == 'i' && ".git"@[3] == 't');
            }
        }
    }
    assert(strip_suffixes(rest, ".git"@) == rest);
    assert(rest[0] == o[0]);
    assert(o[0] != '/') by {
        if o[0] == '/' {
            assert(o.contains('/'));
        }
    }
    assert(drop_leading(rest, '/') == rest);
    assert(rest.last() == r.last());
    assert(r.last() != '/') by {
        if r.last() == '/' {
            assert(r[r.len() - 1] == '/');
        }
    }
    assert(drop_trailing(rest, '/') == rest);
    assert(repo_path_body(rest) == rest);
    // splitting at `/`
    let e = Seq::<char>::empty();
    lemma_split_on_append_plain(e, o, '/');
    assert(e + o =~= o);
    assert(split_on(e, '/') == seq![e]);
    assert(split_on(o, '/') =~= seq![o]);
    let os = o + seq!['/'];
    assert(os.drop_last() =~= o);
    assert(split_on(os, '/') =~= seq![o, e]);
    lemma_split_on_append_plain(os, r, '/');
    assert(os + r =~= rest);
    assert(e + r =~= r);
    assert(split_on(rest, '/') =~= seq![o, r]);
    assert(owner_and_repo(rest) == (o, r));
    assert("https://github.com/"@ + o + seq!['/'] + r =~= url);
}

} // verus!
