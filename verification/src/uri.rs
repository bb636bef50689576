use vstd::prelude::*;
use vstd::string::*;

verus! {

#[verifier::external_type_specification]
#[verifier::external_body]
pub struct ExUrlParseError(url::ParseError);

#[verifier::external_type_specification]
#[verifier::external_body]
pub struct ExRegexError(regex::Error);

#[verifier::external_type_specification]
#[verifier::external_body]
pub struct ExRegex(regex::Regex);

/// What `url::Url::parse` makes of its input: the error it refuses the input with, or the
/// parsed URL's path and fragment (the text after `#`, when there is one).
pub uninterp spec fn url_parse(input: Seq<char>) -> Result<(Seq<char>, Option<Seq<char>>), url::ParseError>;

/// What `regex::Regex::new` makes of `pattern`: `Ok` where it compiles, else its error.
pub uninterp spec fn regex_compile(pattern: Seq<char>) -> Result<(), regex::Error>;

/// What `regex::Regex::captures` finds of `pattern` in `haystack`, taken at capture group
/// `group` with `Captures::get`: `None` where the pattern does not match, `Some(None)` where it
/// matches but the group took part in no match, else the group's text.
pub uninterp spec fn regex_group(pattern: Seq<char>, haystack: Seq<char>, group: nat) -> Option<Option<Seq<char>>>;

pub open spec fn opt_view(o: Option<String>) -> Option<Seq<char>> {
    match o {
        Some(s) => Some(s@),
        None => None,
    }
}

pub open spec fn opt_opt_view(o: Option<Option<String>>) -> Option<Option<Seq<char>>> {
    match o {
        Some(inner) => Some(opt_view(inner)),
        None => None,
    }
}

/// The parts of a parsed URL that the commands read.
#[derive(Debug)]
pub struct ParsedUrl {
    pub path: String,
    pub fragment: Option<String>,
}

pub open spec fn parsed_view(r: Result<ParsedUrl, url::ParseError>) -> Result<(Seq<char>, Option<Seq<char>>), url::ParseError> {
    match r {
        Ok(p) => Ok((p.path@, opt_view(p.fragment))),
        Err(e) => Err(e),
    }
}

/// Parses `input` with `url::Url::parse` and keeps the URL's `path()` and `fragment()`.
/// Trusted: the result is what `url_parse` names, its error included; what the parser
/// accepts and how it normalises the text is left to the `url` crate.
#[verifier::external_body]
fn parse_url(input: &str) -> (res: Result<ParsedUrl, url::ParseError>)
    ensures
        parsed_view(res) == url_parse(input@),
{
    match url::Url::parse(input) {
        Ok(u) => Ok(ParsedUrl { path: u.path().to_string(), fragment: u.fragment().map(String::from) }),
        Err(e) => Err(e),
    }
}

/// A regular expression together with the pattern it was compiled from. Only
/// `compile_regex` makes one, so `regex` is always the compilation of `pattern`.
pub struct CompiledRegex {
    regex: regex::Regex,
    pattern: String,
}

impl CompiledRegex {
    /// The pattern the expression was compiled from.
    pub closed spec fn spec_pattern(&self) -> Seq<char> {
        self.pattern@
    }
}

pub open spec fn compiled_view(r: Result<CompiledRegex, regex::Error>) -> Result<(), regex::Error> {
    match r {
        Ok(_) => Ok(()),
        Err(e) => Err(e),
    }
}

/// The text that announces the token in a redirect URI's fragment.
pub open spec fn token_marker() -> Seq<char> {
    "token="@
}

/// A match of `token=(.+)` can start at `i` of `f`: `token=` stands there, followed by at
/// least one character that is not a newline (`.` matches anything but `\n`).
pub open spec fn is_token_start(f: Seq<char>, i: int) -> bool {
    &&& 0 <= i
    &&& i + 7 <= f.len()
    &&& f.subrange(i, i + 6) == token_marker()
    &&& f[i + 6] != '\n'
}

/// `i` is the leftmost place where a match of `token=(.+)` can start.
pub open spec fn is_first_token_start(f: Seq<char>, i: int) -> bool {
    &&& is_token_start(f, i)
    &&& forall|k: int| 0 <= k < i ==> !is_token_start(f, k)
}

/// `j` ends the run of characters that follows `token=` at `i`: none of `f[i + 6 .. j]` is a
/// newline, and `j` is the end of `f` or a newline.
pub open spec fn is_token_run_end(f: Seq<char>, i: int, j: int) -> bool {
    &&& i + 6 <= j <= f.len()
    &&& forall|k: int| i + 6 <= k < j ==> f[k] != '\n'
    &&& (j == f.len() || f[j] == '\n')
}

/// What `token=(.+)`, group 1, captures in `f` under the regex crate's leftmost-first,
/// greedy semantics: nothing where no match can start, else the longest newline-free run
/// after the leftmost `token=` that a character follows.
pub open spec fn token_capture_rule(f: Seq<char>, c: Option<Option<Seq<char>>>) -> bool {
    &&& (c is None <==> forall|i: int| !is_token_start(f, i))
    &&& forall|i: int, j: int|
        #[trigger] is_first_token_start(f, i) && #[trigger] is_token_run_end(f, i, j) ==> c == Some(
            Some(f.subrange(i + 6, j)),
        )
}

/// Compiles `pattern` with `regex::Regex::new`. Trusted: the outcome is what `regex_compile`
/// names, its error included, a compiled expression keeps `pattern` as its pattern, and the
/// token pattern `token=(.+)` (a literal, `.` and `+`, well within the default size limit)
/// compiles.
#[verifier::external_body]
fn compile_regex(pattern: &str) -> (res: Result<CompiledRegex, regex::Error>)
    ensures
        compiled_view(res) == regex_compile(pattern@),
        res matches Ok(c) ==> c.spec_pattern() == pattern@,
        pattern@ == "token=(.+)"@ ==> res is Ok,
{
    match regex::Regex::new(pattern) {
        Ok(regex) => Ok(CompiledRegex { regex, pattern: pattern.to_string() }),
        Err(e) => Err(e),
    }
}

/// Runs `Regex::captures` on `haystack` and takes group `group` with `Captures::get`.
/// Trusted: the result is what `regex_group` names for the expression's pattern; for the
/// token pattern `token=(.+)` and group 1 it is what the regex crate documents for that
/// pattern (`token_capture_rule`: leftmost-first match, `.` any character but `\n`, `+`
/// greedy). The semantics of other patterns are left to the `regex` crate.
#[verifier::external_body]
fn capture_group(re: &CompiledRegex, haystack: &str, group: usize) -> (res: Option<Option<String>>)
    ensures
        opt_opt_view(res) == regex_group(re.spec_pattern(), haystack@, group as nat),
        re.spec_pattern() == "token=(.+)"@ && group == 1 ==> token_capture_rule(haystack@, opt_opt_view(res)),
{
    match re.regex.captures(haystack) {
        None => None,
        Some(caps) => Some(caps.get(group).map(|m| m.as_str().to_string())),
    }
}

/// `s` is the last `/`-separated segment of `p`: the longest suffix of `p` without a `/`.
pub open spec fn is_last_segment(p: Seq<char>, s: Seq<char>) -> bool {
    &&& s.len() <= p.len()
    &&& s == p.subrange(p.len() - s.len(), p.len() as int)
    &&& forall|i: int| 0 <= i < s.len() ==> s[i] != '/'
    &&& (s.len() == p.len() || p[p.len() - s.len() - 1] == '/')
}

/// A path has exactly one last segment.
pub proof fn lemma_last_segment_unique(p: Seq<char>, s1: Seq<char>, s2: Seq<char>)
    requires
        is_last_segment(p, s1),
        is_last_segment(p, s2),
    ensures
        s1 == s2,
{
    if s1.len() < s2.len() {
        let k = s2.len() - s1.len() - 1;
        assert(s2[k] == p[p.len() - s1.len() - 1]);
    } else if s2.len() < s1.len() {
        let k = s1.len() - s2.len() - 1;
        assert(s1[k] == p[p.len() - s2.len() - 1]);
    }
}

/// The last `/`-separated segment of `path` (the whole path when it holds no `/`, the empty
/// string when it ends in `/`).
pub fn last_path_segment(path: &str) -> (s: String)
    ensures
        is_last_segment(path@, s@),
{
    let n = path.unicode_len();
    let mut i = n;
    while i > 0 && path.get_char(i - 1) != '/'
        invariant
            i <= n,
            n == path@.len(),
            forall|k: int| i <= k < n ==> path@[k] != '/',
        decreases i,
    {
        i = i - 1;
    }
    let seg = path.substring_char(i, n);
    let s = String::from_str(seg);
    assert(s@.len() == n - i);
    assert forall|k: int| 0 <= k < s@.len() implies s@[k] != '/' by {
        assert(s@[k] == path@[i + k]);
    }
    s
}


/// Why a redirect URI could not give what a command needs from it.
#[derive(Debug)]
pub enum UriError {
    /// `url::Url::parse` refused the URI.
    InvalidUrl(url::ParseError),
    /// The token pattern did not compile.
    InvalidPattern(regex::Error),
    /// The URI has no fragment.
    NoFragment,
    /// The token pattern does not match the fragment.
    NoTokenCaptured,
    /// The token pattern matched but its group captured nothing.
    NoTokenFound,
}

impl UriError {
    /// The text the command line shows for this error.
    pub fn message(&self) -> (m: String)
        ensures
            self matches UriError::InvalidUrl(e) ==> to_string_from_display_ensures::<url::ParseError>(e, m),
            self matches UriError::InvalidPattern(e) ==> to_string_from_display_ensures::<regex::Error>(e, m),
            self is NoFragment ==> m@ == "No fragment present in the redirect uri"@,
            self is NoTokenCaptured ==> m@ == "Could not capture token in the fragment"@,
            self is NoTokenFound ==> m@ == "No token found in the uri"@,
    {
        match self {
            UriError::InvalidUrl(e) => e.to_string(),
            UriError::InvalidPattern(e) => e.to_string(),
            UriError::NoFragment => String::from_str("No fragment present in the redirect uri"),
            UriError::NoTokenCaptured => String::from_str("Could not capture token in the fragment"),
            UriError::NoTokenFound => String::from_str("No token found in the uri"),
        }
    }
}

/// A text result seen through its view.
pub open spec fn outcome(r: Result<String, UriError>) -> Result<Seq<char>, UriError> {
    match r {
        Ok(s) => Ok(s@),
        Err(e) => Err(e),
    }
}

/// The pattern that finds the token in a redirect URI's fragment.
pub open spec fn token_pattern() -> Seq<char> {
    "token=(.+)"@
}

/// What a token search gives for each capture that the pattern can yield.
pub open spec fn token_of_capture(capture: Option<Option<Seq<char>>>) -> Result<Seq<char>, UriError> {
    match capture {
        None => Err(UriError::NoTokenCaptured),
        Some(None) => Err(UriError::NoTokenFound),
        Some(Some(t)) => Ok(t),
    }
}

/// What `extract_token_from_uri` gives for `uri`: the URI is parsed, then the token pattern
/// is compiled, then the fragment is looked up and searched.
pub open spec fn token_outcome(uri: Seq<char>) -> Result<Seq<char>, UriError> {
    match url_parse(uri) {
        Err(e) => Err(UriError::InvalidUrl(e)),
        Ok((_, fragment)) => match regex_compile(token_pattern()) {
            Err(e) => Err(UriError::InvalidPattern(e)),
            Ok(()) => match fragment {
                None => Err(UriError::NoFragment),
                Some(f) => token_of_capture(regex_group(token_pattern(), f, 1)),
            },
        },
    }
}

/// Turns what the token pattern captured in a fragment into the token.
pub fn token_from_capture(capture: Option<Option<String>>) -> (res: Result<String, UriError>)
    ensures
        outcome(res) == token_of_capture(opt_opt_view(capture)),
{
    match capture {
        None => Err(UriError::NoTokenCaptured),
        Some(None) => Err(UriError::NoTokenFound),
        Some(Some(t)) => Ok(t),
    }
}

/// What the token of a URI with fragment `f` is: the run of characters after the leftmost
/// `token=` that a character follows, up to the end of the line; no token where there is
/// no such `token=`.
pub open spec fn token_rule(uri: Seq<char>, res: Result<String, UriError>) -> bool {
    url_parse(uri) matches Ok((_, Some(f))) ==> {
        &&& (forall|i: int| !is_token_start(f, i)) ==> res is Err && res->Err_0 is NoTokenCaptured
        &&& forall|i: int, j: int|
            #[trigger] is_first_token_start(f, i) && #[trigger] is_token_run_end(f, i, j) ==> res is Ok
                && res->Ok_0@ == f.subrange(i + 6, j)
    }
}

/// `token=` stands at `k` of `s`.
pub open spec fn has_marker_at(s: Seq<char>, k: int) -> bool {
    0 <= k && k + 6 <= s.len() && s.subrange(k, k + 6) == token_marker()
}

/// No `token=` starts inside the `token=` placed after `prefix`, nor overlaps it from the left.
proof fn lemma_marker_not_overlapping(prefix: Seq<char>, t: Seq<char>, k: int)
    requires
        prefix.len() < k + 6,
        0 <= k < prefix.len(),
    ensures
        !has_marker_at(prefix + token_marker() + t, k),
{
    reveal_strlit("token=");
    let m = token_marker();
    let f = prefix + m + t;
    let i = prefix.len() as int;
    if has_marker_at(f, k) {
        assert(f.subrange(k, k + 6)[5] == m[5]);
        assert(f[k + 5] == m[k + 5 - i]);
    }
}

/// After a `prefix` without `token=`, the `token=` that follows is the leftmost match start,
/// and a non-empty newline-free `t` runs to the end.
proof fn lemma_first_token_after_prefix(prefix: Seq<char>, t: Seq<char>)
    requires
        forall|k: int| !#[trigger] has_marker_at(prefix, k),
        t.len() > 0,
        forall|k: int| 0 <= k < t.len() ==> t[k] != '\n',
    ensures
        is_first_token_start(prefix + token_marker() + t, prefix.len() as int),
        is_token_run_end(prefix + token_marker() + t, prefix.len() as int, (prefix + token_marker() + t).len() as int),
        (prefix + token_marker() + t).subrange(prefix.len() + 6int, (prefix + token_marker() + t).len() as int) == t,
{
    reveal_strlit("token=");
    let m = token_marker();
    let f = prefix + m + t;
    let i = prefix.len() as int;
    assert(m.len() == 6);
    assert(f.subrange(i, i + 6) =~= m);
    assert(f[i + 6] == t[0]);
    assert forall|k: int| 0 <= k < i implies !is_token_start(f, k) by {
        if k + 6 <= i {
            assert(f.subrange(k, k + 6) =~= prefix.subrange(k, k + 6));
            assert(!has_marker_at(prefix, k));
        } else {
            lemma_marker_not_overlapping(prefix, t, k);
        }
    }
    assert(f.subrange(i + 6, f.len() as int) =~= t);
}

/// Every fragment `prefix + "token=" + t`, where `prefix` holds no `token=` and `t` is a
/// non-empty run without a newline, gives the whole of `t` as the token, whatever its length.
pub proof fn lemma_token_is_rest_of_fragment(
    uri: Seq<char>,
    path: Seq<char>,
    prefix: Seq<char>,
    t: Seq<char>,
    res: Result<String, UriError>,
)
    requires
        token_rule(uri, res),
        url_parse(uri) == Ok::<(Seq<char>, Option<Seq<char>>), url::ParseError>(
            (path, Some(prefix + token_marker() + t)),
        ),
        forall|k: int| !#[trigger] has_marker_at(prefix, k),
        t.len() > 0,
        forall|k: int| 0 <= k < t.len() ==> t[k] != '\n',
    ensures
        res matches Ok(s) && s@ == t,
{
    lemma_first_token_after_prefix(prefix, t);
    let f = prefix + token_marker() + t;
    assert(is_first_token_start(f, prefix.len() as int));
    assert(is_token_run_end(f, prefix.len() as int, f.len() as int));
}

/// The token that a redirect URI carries in its fragment, as `token=<token>`.
pub fn extract_token_from_uri(uri: &str) -> (res: Result<String, UriError>)
    ensures
        outcome(res) == token_outcome(uri@),
        token_rule(uri@, res),
{
    let parsed = match parse_url(uri) {
        Ok(p) => p,
        Err(e) => return Err(UriError::InvalidUrl(e)),
    };
    let re = match compile_regex("token=(.+)") {
        Ok(re) => re,
        Err(e) => return Err(UriError::InvalidPattern(e)),
    };
    let fragment = match parsed.fragment {
        Some(f) => f,
        None => return Err(UriError::NoFragment),
    };
    token_from_capture(capture_group(&re, fragment.as_str(), 1))
}

/// What `extract_mock_payment_id` gives for `uri`: the last segment of its path.
pub open spec fn mock_payment_id_ok(uri: Seq<char>, res: Result<String, UriError>) -> bool {
    match url_parse(uri) {
        Err(e) => res == Err::<String, UriError>(UriError::InvalidUrl(e)),
        Ok((path, _)) => res matches Ok(s) && is_last_segment(path, s@),
    }
}

/// A path that ends in `/` and a segment without `/` has that segment as its last one.
pub proof fn lemma_last_segment_of_split(prefix: Seq<char>, seg: Seq<char>)
    requires
        forall|k: int| 0 <= k < seg.len() ==> seg[k] != '/',
    ensures
        is_last_segment(prefix + seq!['/'] + seg, seg),
{
    let p = prefix + seq!['/'] + seg;
    assert(p.subrange(p.len() - seg.len(), p.len() as int) =~= seg);
    assert(p[p.len() - seg.len() - 1] == '/');
}

/// Whatever its length, the mock payment id is the whole segment after the path's last `/`.
pub proof fn lemma_mock_payment_id_is_final_segment(
    uri: Seq<char>,
    prefix: Seq<char>,
    seg: Seq<char>,
    fragment: Option<Seq<char>>,
    res: Result<String, UriError>,
)
    requires
        mock_payment_id_ok(uri, res),
        url_parse(uri) == Ok::<(Seq<char>, Option<Seq<char>>), url::ParseError>(
            (prefix + seq!['/'] + seg, fragment),
        ),
        forall|k: int| 0 <= k < seg.len() ==> seg[k] != '/',
    ensures
        res matches Ok(s) && s@ == seg,
{
    lemma_last_segment_of_split(prefix, seg);
    let s = res->Ok_0;
    lemma_last_segment_unique(prefix + seq!['/'] + seg, s@, seg);
}

/// The mock provider's payment id: the last segment of the redirect URI's path.
pub fn extract_mock_payment_id(uri: &str) -> (res: Result<String, UriError>)
    ensures
        mock_payment_id_ok(uri@, res),
        url_parse(uri@) matches Ok((path, _)) ==> res matches Ok(s) && is_last_segment(path, s@),
        url_parse(uri@) matches Err(e) ==> res == Err::<String, UriError>(UriError::InvalidUrl(e)),
{
    match parse_url(uri) {
        Ok(parsed) => Ok(last_path_segment(parsed.path.as_str())),
        Err(e) => Err(UriError::InvalidUrl(e)),
    }
}

} // verus!
