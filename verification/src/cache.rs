use vstd::prelude::*;
use crate::error::Error;
use crate::text::{trimmed, trim, same_text, push_char};
use crate::request::push_text;
use crate::request::RequestModel;
use crate::routes::{login, LoginRequest, login_model, login_request_model, opt_str, password_login_model};

verus! {

/// The view of a list of strings.
pub open spec fn texts(v: Seq<String>) -> Seq<Seq<char>> {
    v.map_values(|l: String| l@)
}

/// The view of an optional string.
pub open spec fn opt_text(o: Option<String>) -> Option<Seq<char>> {
    match o {
        Some(s) => Some(s@),
        None => None,
    }
}

/// `k` is the position of the first tab of `s`.
pub open spec fn first_tab_at(s: Seq<char>, k: int) -> bool {
    0 <= k < s.len() && s[k] == '\t' && forall|j: int| 0 <= j < k ==> s[j] != '\t'
}

/// `k` is the position of the only tab of `s`.
pub open spec fn only_tab_at(s: Seq<char>, k: int) -> bool {
    0 <= k < s.len() && s[k] == '\t' && forall|j: int| 0 <= j < s.len() && j != k ==> s[j] != '\t'
}

/// The part of a line before its first tab: the whole line if it has none.
pub open spec fn first_field(s: Seq<char>) -> Seq<char> {
    if exists|k: int| first_tab_at(s, k) {
        s.take(choose|k: int| first_tab_at(s, k))
    } else {
        s
    }
}

/// What a cache line says of `email`: a line of exactly two tab-separated
/// fields whose first field is the email gives the second field, trimmed.
pub open spec fn cache_entry(line: Seq<char>, email: Seq<char>) -> Option<Seq<char>> {
    if exists|k: int| only_tab_at(line, k) {
        let k = choose|k: int| only_tab_at(line, k);
        if line.take(k) == email {
            Some(trimmed(line.skip(k + 1)))
        } else {
            None
        }
    } else {
        None
    }
}

/// The token that the first line about `email` gives.
pub open spec fn cached_token_of(lines: Seq<Seq<char>>, email: Seq<char>) -> Option<Seq<char>>
    decreases lines.len(),
{
    if lines.len() == 0 {
        None
    } else {
        match cache_entry(lines[0], email) {
            Some(t) => Some(t),
            None => cached_token_of(lines.drop_first(), email),
        }
    }
}

/// The cache line that records `token` for `email`.
pub open spec fn cache_line(email: Seq<char>, token: Seq<char>) -> Seq<char> {
    email + seq!['\t'] + token
}

/// The cache after a login: the new line first, then every other line whose
/// first field is not the email, in their order.
pub open spec fn rewritten_cache(lines: Seq<Seq<char>>, email: Seq<char>, token: Seq<char>) -> Seq<
    Seq<char>,
> {
    seq![cache_line(email, token)] + lines.filter(other_than(email))
}

/// Holds of the lines whose first field is not `email`.
pub open spec fn other_than(email: Seq<char>) -> spec_fn(Seq<char>) -> bool {
    |l: Seq<char>| first_field(l) != email
}

/// How a login with a token cache proceeds.
#[derive(Clone, Copy, Debug, PartialEq, Eq, Structural)]
pub enum CacheLogin {
    /// Log in presenting the cached token.
    CachedToken,
    /// Log in with the password alone.
    Password,
}

/// The positions of the first tab and whether there is more than one.
fn tab_positions(line: &str) -> (r: (Option<usize>, bool))
    ensures
        r.0 matches Some(k) ==> first_tab_at(line@, k as int),
        r.0 is None ==> forall|j: int| 0 <= j < line@.len() ==> line@[j] != '\t',
        r.0 matches Some(k) ==> (r.1 <==> !only_tab_at(line@, k as int)),
{
    let n = line.unicode_len();
    let mut first: Option<usize> = None;
    let mut more = false;
    for i in 0..n
        invariant
            n == line@.len(),
            first matches Some(k) ==> k < i && first_tab_at(line@, k as int),
            first is None ==> forall|j: int| 0 <= j < i ==> line@[j] != '\t',
            first matches Some(k) ==> (more <==> exists|j: int|
                0 <= j < i && j != k && line@[j] == '\t'),
            first is None ==> !more,
    {
        let c = line.get_char(i);
        if c == '\t' {
            match first {
                None => {
                    first = Some(i);
                },
                Some(_) => {
                    more = true;
                },
            }
        }
    }
    (first, more)
}

/// The first field of a line, as `line.split('\t').next()` gives it.
pub fn first_field_of(line: &str) -> (f: &str)
    ensures
        f@ == first_field(line@),
{
    let (first, _) = tab_positions(line);
    match first {
        Some(k) => {
            let f = line.substring_char(0, k);
            proof {
                assert forall|m: int| first_tab_at(line@, m) implies m == k by {
                    if m < k {
                        assert(line@[m] != '\t');
                    } else if m > k {
                        assert(line@[k as int] != '\t');
                    }
                }
                assert(f@ =~= line@.take(k as int));
            }
            f
        },
        None => {
            assert(!exists|m: int| first_tab_at(line@, m));
            line
        },
    }
}

/// What one cache line says of `email`.
pub fn line_entry(line: &str, email: &str) -> (r: Option<String>)
    ensures
        opt_text(r) == cache_entry(line@, email@),
{
    let n = line.unicode_len();
    let (first, more) = tab_positions(line);
    match first {
        None => {
            assert(!exists|m: int| only_tab_at(line@, m));
            None
        },
        Some(k) => {
            if more {
                assert(!exists|m: int| only_tab_at(line@, m)) by {
                    if exists|m: int| only_tab_at(line@, m) {
                        let m = choose|m: int| only_tab_at(line@, m);
                        assert(m == k);
                    }
                }
                None
            } else {
                assert(only_tab_at(line@, k as int));
                assert forall|m: int| only_tab_at(line@, m) implies m == k by {}
                let head = line.substring_char(0, k);
                assert(head@ =~= line@.take(k as int));
                if same_text(head, email) {
                    let tail = line.substring_char(k + 1, n);
                    assert(tail@ =~= line@.skip(k + 1));
                    Some(trim(tail).to_owned())
                } else {
                    None
                }
            }
        },
    }
}

/// The token cached for `email`: from the first line of exactly two
/// tab-separated fields whose first field is the email, the second field
/// trimmed.
pub fn cached_token(lines: &Vec<String>, email: &str) -> (r: Option<String>)
    ensures
        opt_text(r) == cached_token_of(texts(lines@), email@),
{
    let n = lines.len();
    let mut i: usize = 0;
    assert(texts(lines@).skip(0) =~= texts(lines@));
    while i < n
        invariant
            n == lines@.len(),
            i <= n,
            cached_token_of(texts(lines@), email@) == cached_token_of(
                texts(lines@).skip(i as int),
                email@,
            ),
        decreases n - i,
    {
        let ghost rest = texts(lines@).skip(i as int);
        assert(rest[0] == lines@[i as int]@);
        assert(rest.drop_first() =~= texts(lines@).skip(i + 1));
        match line_entry(lines[i].as_str(), email) {
            Some(t) => {
                return Some(t);
            },
            None => {},
        }
        i = i + 1;
    }
    assert(texts(lines@).skip(n as int).len() == 0);
    None
}

/// The cache file's lines after a login as `email` that gave `token`.
pub fn rewrite_cache(lines: &Vec<String>, email: &str, token: &str) -> (out: Vec<String>)
    ensures
        texts(out@) == rewritten_cache(texts(lines@), email@, token@),
{
    let ghost keep = other_than(email@);
    let mut head = email.to_owned();
    push_char(&mut head, '\t');
    push_text(&mut head, token);
    let mut out: Vec<String> = Vec::new();
    out.push(head);
    let n = lines.len();
    proof {
        let empty = texts(lines@).take(0);
        assert(empty =~= Seq::<Seq<char>>::empty());
        empty.lemma_filter_len(keep);
        assert(empty.filter(keep) =~= Seq::<Seq<char>>::empty());
        assert(head@ =~= cache_line(email@, token@));
        assert(texts(out@)[0] == head@);
        assert(texts(out@) =~= seq![cache_line(email@, token@)] + empty.filter(keep));
    }
    for i in 0..n
        invariant
            n == lines@.len(),
            keep == other_than(email@),
            texts(out@) == seq![cache_line(email@, token@)] + texts(lines@).take(i as int).filter(
                keep,
            ),
    {
        let ghost before = texts(out@);
        let line = lines[i].as_str();
        assert(texts(lines@)[i as int] == lines@[i as int]@);
        let field = first_field_of(line);
        proof {
            assert(texts(lines@).take(i + 1) =~= texts(lines@).take(i as int).push(lines@[i as int]@));
            texts(lines@).take(i as int).lemma_filter_push(lines@[i as int]@, keep);
        }
        if !same_text(field, email) {
            assert(keep(lines@[i as int]@));
            out.push(lines[i].clone());
            assert(texts(out@) =~= before.push(lines@[i as int]@));
        } else {
            assert(!keep(lines@[i as int]@));
            assert(texts(out@) =~= before);
        }
    }
    assert(texts(lines@).take(n as int) =~= texts(lines@));
    out
}

/// The text of a cache file: each line followed by a newline.
pub open spec fn cache_file_text(lines: Seq<Seq<char>>) -> Seq<char>
    decreases lines.len(),
{
    if lines.len() == 0 {
        Seq::empty()
    } else {
        cache_file_text(lines.drop_last()) + lines.last() + seq!['\n']
    }
}

/// The text to write to the cache file for the given lines.
pub fn cache_text(lines: &Vec<String>) -> (text: String)
    ensures
        text@ == cache_file_text(texts(lines@)),
{
    let mut text = String::new();
    let n = lines.len();
    for i in 0..n
        invariant
            n == lines@.len(),
            text@ == cache_file_text(texts(lines@).take(i as int)),
    {
        let ghost before = text@;
        push_text(&mut text, lines[i].as_str());
        push_char(&mut text, '\n');
        proof {
            let t = texts(lines@).take(i + 1);
            assert(t.drop_last() =~= texts(lines@).take(i as int));
            assert(t.last() == lines@[i as int]@);
        }
    }
    proof {
        assert(texts(lines@).take(0) =~= Seq::<Seq<char>>::empty());
        assert(texts(lines@).take(n as int) =~= texts(lines@));
    }
    text
}

/// Whether the cache must be written back: the login gave a token other than
/// the one found in the cache.
pub fn cache_needs_update(initial: &Option<String>, token: &str) -> (r: bool)
    ensures
        r == (opt_text(*initial) != Some(token@)),
{
    match initial {
        Some(t) => !same_text(t.as_str(), token),
        None => true,
    }
}

/// How to log in with a token cache: present the cached token when there is
/// one, else the password; with neither there is nothing to log in with.
pub fn cache_login_plan(initial: &Option<String>, password: Option<&str>) -> (r: Result<CacheLogin, Error>)
    ensures
        initial is Some ==> r == Ok::<CacheLogin, Error>(CacheLogin::CachedToken),
        initial is None && password is Some ==> r == Ok::<CacheLogin, Error>(CacheLogin::Password),
        initial is None && password is None ==> (r matches Err(Error::Other(m)) && m@
            == "No password was specified and no cached token was found"@),
{
    match initial {
        Some(_) => Ok(CacheLogin::CachedToken),
        None => match password {
            Some(_) => Ok(CacheLogin::Password),
            None => Err(Error::Other("No password was specified and no cached token was found")),
        },
    }
}

proof fn lemma_cached_token_cons(x: Seq<char>, rest: Seq<Seq<char>>, email: Seq<char>)
    ensures
        cached_token_of(seq![x] + rest, email) == (match cache_entry(x, email) {
            Some(t) => Some(t),
            None => cached_token_of(rest, email),
        }),
{
    assert((seq![x] + rest)[0] == x);
    assert((seq![x] + rest).drop_first() =~= rest);
}

proof fn lemma_cache_line_fields(email: Seq<char>, token: Seq<char>)
    requires
        forall|j: int| 0 <= j < email.len() ==> email[j] != '\t',
    ensures
        forall|k: int| only_tab_at(cache_line(email, token), k) ==> k == email.len(),
        cache_line(email, token).take(email.len() as int) == email,
        cache_line(email, token).skip(email.len() as int + 1) == token,
{
    let l = cache_line(email, token);
    assert(l[email.len() as int] == '\t');
    assert forall|k: int| only_tab_at(l, k) implies k == email.len() by {
        if k < email.len() {
            assert(l[k] == email[k]);
        }
    }
    assert(l.take(email.len() as int) =~= email);
    assert(l.skip(email.len() as int + 1) =~= token);
}

/// A line whose first field is `email` says nothing of any other email.
proof fn lemma_entry_of_other_email(line: Seq<char>, email: Seq<char>, other: Seq<char>)
    requires
        first_field(line) == email,
        other != email,
    ensures
        cache_entry(line, other) is None,
{
    if exists|k: int| only_tab_at(line, k) {
        let k = choose|k: int| only_tab_at(line, k);
        assert(first_tab_at(line, k));
        assert forall|m: int| first_tab_at(line, m) implies m == k by {
            if m < k {
                assert(line[m] != '\t');
            } else if m > k {
                assert(line[k] != '\t');
            }
        }
        assert(line.take(k) == email);
    }
}

proof fn lemma_filter_keeps_other_tokens(lines: Seq<Seq<char>>, email: Seq<char>, other: Seq<char>)
    requires
        other != email,
    ensures
        cached_token_of(lines.filter(other_than(email)), other) == cached_token_of(lines, other),
    decreases lines.len(),
{
    if lines.len() == 0 {
        lines.lemma_filter_len(other_than(email));
        assert(lines.filter(other_than(email)) =~= lines);
    } else {
        let x = lines[0];
        let rest = lines.drop_first();
        assert(lines =~= seq![x] + rest);
        rest.lemma_filter_prepend(x, other_than(email));
        lemma_filter_keeps_other_tokens(rest, email, other);
        lemma_cached_token_cons(x, rest, other);
        if first_field(x) != email {
            assert(other_than(email)(x));
            lemma_cached_token_cons(x, rest.filter(other_than(email)), other);
        } else {
            assert(!other_than(email)(x));
            assert(seq![] + rest.filter(other_than(email)) =~= rest.filter(other_than(email)));
            lemma_entry_of_other_email(x, email, other);
        }
    }
}

/// Reading the cache back after a login gives the token that the login
/// returned (trimmed, as every cached token is read), provided neither the
/// email nor the token holds a tab.
pub proof fn lemma_cache_reads_back(lines: Seq<Seq<char>>, email: Seq<char>, token: Seq<char>)
    requires
        forall|j: int| 0 <= j < email.len() ==> email[j] != '\t',
        forall|j: int| 0 <= j < token.len() ==> token[j] != '\t',
    ensures
        cached_token_of(rewritten_cache(lines, email, token), email) == Some(trimmed(token)),
{
    let l = cache_line(email, token);
    lemma_cache_line_fields(email, token);
    assert(only_tab_at(l, email.len() as int)) by {
        assert forall|j: int| 0 <= j < l.len() && j != email.len() implies l[j] != '\t' by {
            if j < email.len() {
                assert(l[j] == email[j]);
            } else {
                assert(l[j] == token[j - email.len() - 1]);
            }
        }
    }
    lemma_cached_token_cons(l, lines.filter(other_than(email)), email);
}

/// A login as one email leaves what the cache says of every other email
/// unchanged, provided the email holds no tab.
pub proof fn lemma_cache_keeps_others(
    lines: Seq<Seq<char>>,
    email: Seq<char>,
    token: Seq<char>,
    other: Seq<char>,
)
    requires
        forall|j: int| 0 <= j < email.len() ==> email[j] != '\t',
        other != email,
    ensures
        cached_token_of(rewritten_cache(lines, email, token), other) == cached_token_of(lines, other),
{
    let l = cache_line(email, token);
    lemma_cache_line_fields(email, token);
    assert(cache_entry(l, other) is None);
    lemma_cached_token_cons(l, lines.filter(other_than(email)), other);
    lemma_filter_keeps_other_tokens(lines, email, other);
}

/// The login that a token cache leads to: with a cached token, the login
/// presents that token (and the password, when given); without one, it is a
/// login with the password alone; with neither there is nothing to log in with.
pub open spec fn cache_login_model(email: Seq<char>, password: Option<Seq<char>>, cached: Option<Seq<char>>) -> Option<
    (RequestModel, Option<Seq<char>>),
> {
    match cached {
        Some(t) => Some((login_model(email, password), Some(t))),
        None => match password {
            Some(p) => Some(password_login_model(email, p)),
            None => None,
        },
    }
}

/// The login request for a login with a token cache, given the token found in
/// the cache, if any.
pub fn cache_login(email: &str, password: Option<&str>, cached: &Option<String>) -> (r: Result<LoginRequest, Error>)
    ensures
        match cache_login_model(email@, opt_str(password), opt_text(*cached)) {
            Some(m) => r matches Ok(l) && login_request_model(l) == m,
            None => r matches Err(Error::Other(msg)) && msg@
                == "No password was specified and no cached token was found"@,
        },
{
    match cache_login_plan(cached, password) {
        Ok(CacheLogin::CachedToken) => {
            let token = match cached {
                Some(t) => t.clone(),
                None => String::new(),
            };
            Ok(LoginRequest { request: login(email, password), authorization: Some(token) })
        },
        Ok(CacheLogin::Password) => {
            let p = match password {
                Some(p) => p,
                None => "",
            };
            Ok(LoginRequest { request: login(email, Some(p)), authorization: None })
        },
        Err(e) => Err(e),
    }
}

/// Without a cached token, a login with a token cache sends the same request
/// as a login with the password alone.
pub proof fn lemma_uncached_login_is_password_login(email: Seq<char>, password: Seq<char>)
    ensures
        cache_login_model(email, Some(password), None) == Some(password_login_model(email, password)),
{
}

} // verus!
