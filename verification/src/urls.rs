//! A document URL, held as its parsed components, and the rules that decide
//! when the document's address may be rewritten in place.

use vstd::prelude::*;

verus! {

/// The components of an absolute URL, as plain values.
pub struct Url {
    pub scheme: String,
    pub username: String,
    pub password: Option<String>,
    pub host: Option<String>,
    pub port: Option<u16>,
    pub path: String,
    pub query: Option<String>,
    pub fragment: Option<String>,
}

/// The mathematical model of a [`Url`]: each component as a sequence of characters.
pub ghost struct UrlView {
    pub scheme: Seq<char>,
    pub username: Seq<char>,
    pub password: Option<Seq<char>>,
    pub host: Option<Seq<char>>,
    pub port: Option<u16>,
    pub path: Seq<char>,
    pub query: Option<Seq<char>>,
    pub fragment: Option<Seq<char>>,
}

pub open spec fn opt_str_view(o: Option<String>) -> Option<Seq<char>> {
    match o {
        Some(s) => Some(s@),
        None => None,
    }
}

impl View for Url {
    type V = UrlView;

    open spec fn view(&self) -> UrlView {
        UrlView {
            scheme: self.scheme@,
            username: self.username@,
            password: opt_str_view(self.password),
            host: opt_str_view(self.host),
            port: self.port,
            path: self.path@,
            query: opt_str_view(self.query),
            fragment: opt_str_view(self.fragment),
        }
    }
}

/// True when the two URLs agree on scheme, username, password, host and port.
pub open spec fn same_origin_parts(a: UrlView, b: UrlView) -> bool {
    &&& a.scheme == b.scheme
    &&& a.username == b.username
    &&& a.password == b.password
    &&& a.host == b.host
    &&& a.port == b.port
}

/// Whether a document at `doc` may have its address silently rewritten to
/// `target` without a navigation: the two must agree on scheme, username,
/// password, host and port; an `http` or `https` URL may then change path and
/// query freely; a `file` URL must keep its exact path (query is ignored);
/// any other scheme must keep both path and query.
pub open spec fn can_rewrite(doc: UrlView, target: UrlView) -> bool {
    if !same_origin_parts(doc, target) {
        false
    } else if target.scheme == "http"@ || target.scheme == "https"@ {
        true
    } else if target.scheme == "file"@ {
        target.path == doc.path
    } else {
        target.path == doc.path && target.query == doc.query
    }
}

/// Character-by-character string equality, stated over the views.
pub fn str_eq(a: &str, b: &str) -> (r: bool)
    ensures
        r == (a@ == b@),
{
    let n = a.unicode_len();
    let m = b.unicode_len();
    if n != m {
        return false;
    }
    let mut i: usize = 0;
    while i < n
        invariant
            n == a@.len(),
            m == b@.len(),
            n == m,
            i <= n,
            forall|j: int| 0 <= j < i ==> a@[j] == b@[j],
        decreases n - i,
    {
        if a.get_char(i) != b.get_char(i) {
            return false;
        }
        i += 1;
    }
    proof {
        assert(a@ =~= b@);
    }
    true
}

pub fn opt_string_eq(a: &Option<String>, b: &Option<String>) -> (r: bool)
    ensures
        r == (opt_str_view(*a) == opt_str_view(*b)),
{
    match (a, b) {
        (None, None) => true,
        (Some(x), Some(y)) => str_eq(x.as_str(), y.as_str()),
        _ => false,
    }
}

fn opt_port_eq(a: &Option<u16>, b: &Option<u16>) -> (r: bool)
    ensures
        r == (*a == *b),
{
    match (a, b) {
        (None, None) => true,
        (Some(x), Some(y)) => *x == *y,
        _ => false,
    }
}

impl Url {
    /// Decides whether a document whose address is `document_url` may have it
    /// rewritten to `target_url` without a navigation.
    pub fn can_have_url_rewritten(document_url: &Url, target_url: &Url) -> (r: bool)
        ensures
            r == can_rewrite(document_url@, target_url@),
    {
        if !str_eq(target_url.scheme.as_str(), document_url.scheme.as_str())
            || !str_eq(target_url.username.as_str(), document_url.username.as_str())
            || !opt_string_eq(&target_url.password, &document_url.password)
            || !opt_string_eq(&target_url.host, &document_url.host)
            || !opt_port_eq(&target_url.port, &document_url.port)
        {
            return false;
        }
        if str_eq(target_url.scheme.as_str(), "http") || str_eq(target_url.scheme.as_str(), "https")
        {
            return true;
        }
        if str_eq(target_url.scheme.as_str(), "file") {
            return str_eq(target_url.path.as_str(), document_url.path.as_str());
        }
        if !str_eq(target_url.path.as_str(), document_url.path.as_str())
            || !opt_string_eq(&target_url.query, &document_url.query)
        {
            return false;
        }
        true
    }

    /// A copy of this URL whose model is identical.
    pub fn duplicate(&self) -> (r: Url)
        ensures
            r@ == self@,
    {
        Url {
            scheme: self.scheme.clone(),
            username: self.username.clone(),
            password: clone_opt_string(&self.password),
            host: clone_opt_string(&self.host),
            port: self.port,
            path: self.path.clone(),
            query: clone_opt_string(&self.query),
            fragment: clone_opt_string(&self.fragment),
        }
    }
}

pub fn clone_opt_string(o: &Option<String>) -> (r: Option<String>)
    ensures
        opt_str_view(r) == opt_str_view(*o),
{
    match o {
        Some(s) => Some(s.clone()),
        None => None,
    }
}

pub open spec fn digit_char(d: u8) -> char {
    if d == 0 {
        '0'
    } else if d == 1 {
        '1'
    } else if d == 2 {
        '2'
    } else if d == 3 {
        '3'
    } else if d == 4 {
        '4'
    } else if d == 5 {
        '5'
    } else if d == 6 {
        '6'
    } else if d == 7 {
        '7'
    } else if d == 8 {
        '8'
    } else {
        '9'
    }
}

/// The decimal digits of `n`, most significant first.
pub open spec fn decimal_of(n: u16) -> Seq<char>
    decreases n,
{
    if n < 10 {
        seq![digit_char(n as u8)]
    } else {
        decimal_of(n / 10) + seq![digit_char((n % 10) as u8)]
    }
}

pub open spec fn userinfo_of(u: UrlView) -> Seq<char> {
    if u.username.len() == 0 && u.password is None {
        Seq::empty()
    } else {
        u.username + (match u.password {
            Some(p) => ":"@ + p,
            None => Seq::empty(),
        }) + "@"@
    }
}

pub open spec fn authority_of(u: UrlView) -> Seq<char> {
    match u.host {
        Some(h) => "//"@ + userinfo_of(u) + h + (match u.port {
            Some(n) => ":"@ + decimal_of(n),
            None => Seq::empty(),
        }),
        None => Seq::empty(),
    }
}

/// The textual form of a URL, rebuilt from its components.
pub open spec fn href_of(u: UrlView) -> Seq<char> {
    u.scheme + ":"@ + authority_of(u) + u.path + (match u.query {
        Some(q) => "?"@ + q,
        None => Seq::empty(),
    }) + (match u.fragment {
        Some(f) => "#"@ + f,
        None => Seq::empty(),
    })
}

fn digit_str(d: u8) -> (r: &'static str)
    requires
        d < 10,
    ensures
        r@ == seq![digit_char(d)],
{
    proof {
        reveal_strlit("0");
        reveal_strlit("1");
        reveal_strlit("2");
        reveal_strlit("3");
        reveal_strlit("4");
        reveal_strlit("5");
        reveal_strlit("6");
        reveal_strlit("7");
        reveal_strlit("8");
        reveal_strlit("9");
        assert("0"@ =~= seq!['0']);
        assert("1"@ =~= seq!['1']);
        assert("2"@ =~= seq!['2']);
        assert("3"@ =~= seq!['3']);
        assert("4"@ =~= seq!['4']);
        assert("5"@ =~= seq!['5']);
        assert("6"@ =~= seq!['6']);
        assert("7"@ =~= seq!['7']);
        assert("8"@ =~= seq!['8']);
        assert("9"@ =~= seq!['9']);
    }
    if d == 0 {
        "0"
    } else if d == 1 {
        "1"
    } else if d == 2 {
        "2"
    } else if d == 3 {
        "3"
    } else if d == 4 {
        "4"
    } else if d == 5 {
        "5"
    } else if d == 6 {
        "6"
    } else if d == 7 {
        "7"
    } else if d == 8 {
        "8"
    } else {
        "9"
    }
}

fn push_decimal(s: &mut String, n: u16)
    ensures
        final(s)@ == old(s)@ + decimal_of(n),
    decreases n,
{
    if n >= 10 {
        push_decimal(s, n / 10);
    }
    s.append(digit_str((n % 10) as u8));
    proof {
        if n < 10 {
            assert(decimal_of(n) == seq![digit_char((n % 10) as u8)]);
            assert(final(s)@ =~= old(s)@ + decimal_of(n));
        } else {
            assert(final(s)@ =~= old(s)@ + (decimal_of(n / 10) + seq![
                digit_char((n % 10) as u8),
            ]));
        }
    }
}

impl Url {
    /// The textual form of this URL, as [`href_of`] describes it.
    #[verifier::rlimit(60)]
    pub fn href(&self) -> (s: String)
        ensures
            s@ == href_of(self@),
    {
        let mut s = String::new();
        s.append(self.scheme.as_str());
        s.append(":");
        match &self.host {
            Some(h) => {
                s.append("//");
                if !self.username.as_str().is_empty() || self.password.is_some() {
                    s.append(self.username.as_str());
                    match &self.password {
                        Some(p) => {
                            s.append(":");
                            s.append(p.as_str());
                        },
                        None => {},
                    }
                    s.append("@");
                }
                s.append(h.as_str());
                match self.port {
                    Some(n) => {
                        s.append(":");
                        push_decimal(&mut s, n);
                    },
                    None => {},
                }
            },
            None => {},
        }
        s.append(self.path.as_str());
        match &self.query {
            Some(q) => {
                s.append("?");
                s.append(q.as_str());
            },
            None => {},
        }
        match &self.fragment {
            Some(f) => {
                s.append("#");
                s.append(f.as_str());
            },
            None => {},
        }
        proof {
            assert(s@ =~= href_of(self@));
        }
        s
    }
}

/// The URL, if any, that the text `input` names when parsed against the URL
/// whose textual form is `base`. What it is on given texts is decided by the
/// parser alone; the library states only that it depends on the two texts.
pub uninterp spec fn resolve_spec(base: Seq<char>, input: Seq<char>) -> Option<UrlView>;

/// Relies on `url::Url::parse` and `url::Url::join`: parsing resolves `input`
/// against the base URL and depends on the two texts alone; each component
/// accessor returns the corresponding parsed component.
#[verifier::external_body]
fn resolve_raw(base: &str, input: &str) -> (r: Option<Url>)
    ensures
        r matches Some(u) ==> resolve_spec(base@, input@) == Some(u@),
        r is None ==> resolve_spec(base@, input@) is None,
{
    let b = url::Url::parse(base).ok()?;
    let u = b.join(input).ok()?;
    Some(Url {
        scheme: u.scheme().to_string(),
        username: u.username().to_string(),
        password: u.password().map(|p| p.to_string()),
        host: u.host_str().map(|h| h.to_string()),
        port: u.port(),
        path: u.path().to_string(),
        query: u.query().map(|q| q.to_string()),
        fragment: u.fragment().map(|f| f.to_string()),
    })
}

/// Resolves `input` relative to `base`, handing the parser the textual form
/// of `base`.
pub fn resolve_url(base: &Url, input: &str) -> (r: Option<Url>)
    ensures
        r matches Some(u) ==> resolve_spec(href_of(base@), input@) == Some(u@),
        r is None ==> resolve_spec(href_of(base@), input@) is None,
{
    let href = base.href();
    resolve_raw(href.as_str(), input)
}

/// Rewriting a URL to itself is always allowed.
pub proof fn lemma_can_rewrite_reflexive(u: UrlView)
    ensures
        can_rewrite(u, u),
{
}

/// Rewriting is never allowed between URLs that differ in scheme, host or
/// port, whatever their paths and queries.
pub proof fn lemma_can_rewrite_needs_same_origin(doc: UrlView, target: UrlView)
    requires
        doc.scheme != target.scheme || doc.host != target.host || doc.port != target.port,
    ensures
        !can_rewrite(doc, target),
{
}

/// Between two same-origin `file` URLs, rewriting ignores the query but
/// demands the exact same path.
pub proof fn lemma_can_rewrite_file_scheme(doc: UrlView, target: UrlView)
    requires
        same_origin_parts(doc, target),
        target.scheme == "file"@,
    ensures
        can_rewrite(doc, target) <==> doc.path == target.path,
{
    reveal_strlit("file");
    reveal_strlit("http");
    reveal_strlit("https");
    assert("file"@ =~= seq!['f', 'i', 'l', 'e']);
    assert("http"@ =~= seq!['h', 't', 't', 'p']);
    assert("https"@ =~= seq!['h', 't', 't', 'p', 's']);
    assert(target.scheme != "http"@);
    assert(target.scheme != "https"@);
}

} // verus!
