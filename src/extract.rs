//! Reading the `owner/repo` identifier out of a GitHub repository URL.
use vstd::prelude::*;

verus! {

/// The pattern that a GitHub repository URL is matched against: the scheme,
/// the host, then the owner and the repository as capture groups.
pub open spec fn github_url_pattern() -> Seq<char> {
    "https?://github\\.com/([\\w\\._-]+)/([\\w\\._-]+)"@
}

/// The capture groups of the leftmost match of `pattern` in `text`, as the
/// regex crate finds them (group 0 is the whole match); `None` where there is
/// no match or the pattern does not compile.
pub uninterp spec fn regex_captures(pattern: Seq<char>, text: Seq<char>) -> Option<Seq<Option<Seq<char>>>>;

/// The text that an optional string holds, as characters.
pub open spec fn opt_str_view(s: Option<String>) -> Option<Seq<char>> {
    match s {
        Some(s) => Some(s@),
        None => None,
    }
}

/// The capture groups handed back for a match, as characters.
pub open spec fn groups_view(groups: Option<Vec<Option<String>>>) -> Option<Seq<Option<Seq<char>>>> {
    match groups {
        Some(g) => Some(g@.map_values(|x: Option<String>| opt_str_view(x))),
        None => None,
    }
}

/// The literal suffix that is taken off a repository name.
pub open spec fn git_suffix() -> Seq<char> {
    seq!['.', 'g', 'i', 't']
}

/// Whether the text ends with `.git`.
pub open spec fn ends_with_git(s: Seq<char>) -> bool {
    s.len() >= 4 && s.subrange(s.len() - 4, s.len() as int) == git_suffix()
}

/// The repository name with one trailing `.git` taken off, if it has one.
pub open spec fn strip_git(repo: Seq<char>) -> Seq<char> {
    if ends_with_git(repo) {
        repo.subrange(0, repo.len() - 4)
    } else {
        repo
    }
}

/// The identifier that the capture groups of a URL give: the owner, a slash,
/// and the repository without its `.git` suffix.
pub open spec fn path_from_groups(groups: Option<Seq<Option<Seq<char>>>>) -> Option<Seq<char>> {
    match groups {
        Some(g) => if g.len() >= 3 && g[1] is Some && g[2] is Some {
            Some(g[1]->0 + seq!['/'] + strip_git(g[2]->0))
        } else {
            None
        },
        None => None,
    }
}

/// The identifier read out of a URL, or `None` where the URL does not match.
pub open spec fn extracted_path(url: Seq<char>) -> Option<Seq<char>> {
    path_from_groups(regex_captures(github_url_pattern(), url))
}

/// Relies on regex's `Regex::new` and `Regex::captures`: the capture groups
/// of the leftmost match depend on the pattern and the text alone.
#[verifier::external_body]
fn first_captures(pattern: &str, text: &str) -> (r: Option<Vec<Option<String>>>)
    ensures
        groups_view(r) == regex_captures(pattern@, text@),
{
    regex::Regex::new(pattern).ok().and_then(
        |re| re.captures(text).map(|c| c.iter().map(|m| m.map(|m| m.as_str().to_string())).collect()),
    )
}

/// Relies on std's `str::strip_suffix`: the text before the suffix, where the
/// text ends with it.
#[verifier::external_body]
fn strip_suffix<'a>(s: &'a str, suffix: &str) -> (r: Option<&'a str>)
    ensures
        r is Some <==> (suffix@.len() <= s@.len() && s@.subrange(s@.len() - suffix@.len(), s@.len() as int) == suffix@),
        r matches Some(base) ==> base@ + suffix@ == s@,
{
    s.strip_suffix(suffix)
}

/// Builds the identifier out of the capture groups of a match: the owner
/// (group 1), a slash, and the repository (group 2) with one trailing `.git`
/// taken off.
pub fn github_path_from_groups(groups: Option<Vec<Option<String>>>) -> (r: Option<String>)
    ensures
        opt_str_view(r) == path_from_groups(groups_view(groups)),
{
    match groups {
        Some(g) => {
            if g.len() < 3 {
                return None;
            }
            match (&g[1], &g[2]) {
                (Some(owner), Some(repo)) => {
                    let suffix = ".git";
                    proof {
                        reveal_strlit(".git");
                        assert(suffix@ == git_suffix());
                    }
                    let base: &str = match strip_suffix(repo.as_str(), suffix) {
                        Some(b) => {
                            assert(b@ =~= repo@.subrange(0, repo@.len() - 4));
                            b
                        },
                        None => repo.as_str(),
                    };
                    let mut out = String::from_str(owner.as_str());
                    out.append("/");
                    out.append(base);
                    proof {
                        reveal_strlit("/");
                        assert(out@ =~= owner@ + seq!['/'] + strip_git(repo@));
                    }
                    Some(out)
                },
                _ => None,
            }
        },
        None => None,
    }
}

/// Reads the `owner/repo` identifier out of a GitHub repository URL; `None`
/// where the URL does not match.
pub fn get_github_path(url: &str) -> (r: Option<String>)
    ensures
        opt_str_view(r) == extracted_path(url@),
{
    let pattern = "https?://github\\.com/([\\w\\._-]+)/([\\w\\._-]+)";
    let groups = first_captures(pattern, url);
    github_path_from_groups(groups)
}

/// Once a URL has matched, its identifier is the owner, a slash and the
/// repository, where a repository that ends in `.git` loses that suffix and
/// any other is kept whole.
pub proof fn lemma_path_of_match(whole: Seq<char>, owner: Seq<char>, repo: Seq<char>)
    ensures
        ends_with_git(repo) ==> path_from_groups(Some(seq![Some(whole), Some(owner), Some(repo)]))
            == Some(owner + seq!['/'] + repo.subrange(0, repo.len() - 4)),
        !ends_with_git(repo) ==> path_from_groups(Some(seq![Some(whole), Some(owner), Some(repo)]))
            == Some(owner + seq!['/'] + repo),
{
}

/// Taking `.git` off a repository name that was given that suffix gives the
/// name back, once: `x.git.git` becomes `x.git`.
pub proof fn lemma_strip_git_appended(base: Seq<char>)
    ensures
        strip_git(base + git_suffix()) == base,
{
    let s = base + git_suffix();
    assert(s.subrange(s.len() - 4, s.len() as int) =~= git_suffix());
    assert(s.subrange(0, s.len() - 4) =~= base);
}

/// A URL that matches no pattern gives no identifier.
pub proof fn lemma_no_match_no_path(url: Seq<char>)
    requires
        regex_captures(github_url_pattern(), url) is None,
    ensures
        extracted_path(url) is None,
{
}

/// The identifier depends on the URL alone: two calls on the same URL give
/// the same result.
pub proof fn lemma_extraction_deterministic(url1: Seq<char>, url2: Seq<char>)
    requires
        url1 == url2,
    ensures
        extracted_path(url1) == extracted_path(url2),
{
}

} // verus!
