//! Where a request's session identifier is read from, and the cookie that sends it back.

use vstd::prelude::*;
use crate::config::{AxumSessionConfig, CookieSameSite};
use crate::text::copy_text;
use crate::api::opt_view;

verus! {

/// The session identifier a request carries: the session header's value when the
/// request has one that is text, else the session cookie's value.
pub fn choose_session_token(header_value: Option<String>, cookie_value: Option<String>) -> (r: Option<String>)
    ensures
        header_value is Some ==> r == header_value,
        header_value is None ==> r == cookie_value,
{
    match header_value {
        Some(h) => Some(h),
        None => cookie_value,
    }
}

/// The longest cookie lifetime, in milliseconds (`chrono::Duration::max_value`).
pub const MAX_COOKIE_AGE_MILLIS: i64 = i64::MAX;

/// The session cookie to send: its name and value, and the attributes the
/// configuration sets.
pub struct SessionCookie {
    pub name: String,
    pub value: String,
    pub path: String,
    pub secure: bool,
    pub http_only: bool,
    pub same_site: CookieSameSite,
    pub domain: Option<String>,
    pub max_age_millis: i64,
}

/// The session cookie `name=value` with the configuration's path, secure and
/// http-only flags, same-site rule and domain, kept as long as a cookie can be.
pub fn create_cookie(config: &AxumSessionConfig, name: &str, value: &str) -> (r: SessionCookie)
    ensures
        r.name@ == name@,
        r.value@ == value@,
        r.path@ == config.cookie_path@,
        r.secure == config.cookie_secure,
        r.http_only == config.cookie_http_only,
        r.same_site == config.cookie_same_site,
        match config.cookie_domain {
            Some(d) => r.domain matches Some(x) && x@ == d@,
            None => r.domain is None,
        },
        r.max_age_millis == MAX_COOKIE_AGE_MILLIS,
{
    let domain = match &config.cookie_domain {
        Some(d) => Some(copy_text(d.as_str())),
        None => None,
    };
    SessionCookie {
        name: copy_text(name),
        value: copy_text(value),
        path: copy_text(config.cookie_path.as_str()),
        secure: config.cookie_secure,
        http_only: config.cookie_http_only,
        same_site: config.cookie_same_site,
        domain,
        max_age_millis: MAX_COOKIE_AGE_MILLIS,
    }
}

/// The pieces `str::split(';')` gives of the text from `start`, scanning from `i`.
pub open spec fn pieces_from(s: Seq<char>, start: int, i: int) -> Seq<Seq<char>>
    decreases s.len() - i,
{
    if i >= s.len() {
        seq![s.subrange(start, s.len() as int)]
    } else if s[i] == ';' {
        seq![s.subrange(start, i)] + pieces_from(s, i + 1, i + 1)
    } else {
        pieces_from(s, start, i + 1)
    }
}

/// The `;`-separated pieces of a `Cookie` header, as `str::split(';')` gives them.
pub open spec fn cookie_pieces(s: Seq<char>) -> Seq<Seq<char>> {
    pieces_from(s, 0, 0)
}

/// The pieces of all the `Cookie` headers of a request, in order.
pub open spec fn all_cookie_pieces(headers: Seq<Seq<char>>) -> Seq<Seq<char>>
    decreases headers.len(),
{
    if headers.len() == 0 {
        Seq::empty()
    } else {
        all_cookie_pieces(headers.drop_last()) + cookie_pieces(headers.last())
    }
}

/// What `cookie::Cookie::parse_encoded` reads from one piece of a `Cookie` header: the
/// cookie's name and its percent-decoded value; `None` when the piece does not parse.
pub uninterp spec fn spec_cookie_pair(piece: Seq<char>) -> Option<(Seq<char>, Seq<char>)>;

/// What a private cookie jar of `cookie` decrypts a cookie value sealed under the
/// given key material and cookie name to; `None` when the key material is too short
/// or the value does not unseal.
pub uninterp spec fn spec_unseal(key: Seq<u8>, name: Seq<char>, value: Seq<char>) -> Option<Seq<char>>;

/// The `Set-Cookie` text that `cookie` encodes for a cookie with the given name, value
/// and attributes.
pub uninterp spec fn spec_set_cookie_text(
    name: Seq<char>,
    value: Seq<char>,
    path: Seq<char>,
    secure: bool,
    http_only: bool,
    same_site: CookieSameSite,
    domain: Option<Seq<char>>,
    max_age_millis: i64,
) -> Seq<char>;

/// The value of the last cookie of the given name among the pieces, as a cookie jar
/// filled with them in order keeps it.
pub open spec fn last_named(pieces: Seq<Seq<char>>, name: Seq<char>) -> Option<Seq<char>>
    decreases pieces.len(),
{
    if pieces.len() == 0 {
        None
    } else {
        match spec_cookie_pair(pieces.last()) {
            Some((n, v)) => if n == name {
                Some(v)
            } else {
                last_named(pieces.drop_last(), name)
            },
            None => last_named(pieces.drop_last(), name),
        }
    }
}

/// The value a request's `Cookie` headers give the cookie `name`: the last one of that
/// name, decrypted when the session layer uses private cookies (`key`).
pub open spec fn request_cookie(headers: Seq<Seq<char>>, name: Seq<char>, key: Option<Seq<u8>>) -> Option<Seq<char>> {
    match last_named(all_cookie_pieces(headers), name) {
        None => None,
        Some(v) => match key {
            None => Some(v),
            Some(k) => spec_unseal(k, name, v),
        },
    }
}

/// Calls `cookie::Cookie::parse_encoded` on one piece of a `Cookie` header and takes the
/// cookie's name and value; the result is named, not written out.
#[verifier::external_body]
fn parse_cookie_pair(piece: &str) -> (r: Option<(String, String)>)
    ensures
        match r {
            Some((n, v)) => spec_cookie_pair(piece@) == Some((n@, v@)),
            None => spec_cookie_pair(piece@) is None,
        },
{
    match cookie::Cookie::parse_encoded(piece.to_owned()) {
        Ok(c) => Some((c.name().to_string(), c.value().to_string())),
        Err(_) => None,
    }
}

/// Decrypts a cookie value with `cookie`'s private jar (`PrivateJar::decrypt`) under
/// the key made by `Key::try_from` from the material; the result is named.
#[verifier::external_body]
fn unseal_cookie_value(key: &Vec<u8>, name: &str, value: &str) -> (r: Option<String>)
    ensures
        match r {
            Some(v) => spec_unseal(key@, name@, value@) == Some(v@),
            None => spec_unseal(key@, name@, value@) is None,
        },
{
    let key = cookie::Key::try_from(key.as_slice()).ok()?;
    let jar = cookie::CookieJar::new();
    let sealed = cookie::Cookie::new(name.to_owned(), value.to_owned());
    jar.private(&key).decrypt(sealed).map(|c| c.value().to_string())
}

/// Encrypts a cookie value as `cookie`'s private jar does when a cookie is added
/// (`PrivateJar::add`), under the key made by `Key::try_from` from the material. The
/// nonce is random, so the sealed text is not named. Claimed: `None` exactly when the
/// material is shorter than the 64 bytes a key needs; otherwise the sealed text
/// decrypts, under the same material and name, to the value.
#[verifier::external_body]
fn seal_cookie_value(key: &Vec<u8>, name: &str, value: &str) -> (r: Option<String>)
    ensures
        r is None <==> key@.len() < 64,
        r matches Some(s) ==> spec_unseal(key@, name@, s@) == Some(value@),
{
    let key = cookie::Key::try_from(key.as_slice()).ok()?;
    let mut jar = cookie::CookieJar::new();
    jar.private_mut(&key).add(cookie::Cookie::new(name.to_owned(), value.to_owned()));
    jar.get(name).map(|c| c.value().to_string())
}

/// Builds the cookie with `cookie::Cookie::build` and the cookie's attributes and
/// takes the text its `encoded()` form displays; the result is named. Claimed besides
/// the name: the text begins with the percent-encoded `name=value`, whose encoding
/// leaves no `;`, `=` in the name, whitespace or quote, so the piece before the first
/// `;` (what a client sends back) reads, through `Cookie::parse_encoded`, as the
/// cookie's name and value, when the name is not empty.
#[verifier::external_body]
fn set_cookie_text(c: &SessionCookie) -> (r: String)
    ensures
        r@ == spec_set_cookie_text(
            c.name@,
            c.value@,
            c.path@,
            c.secure,
            c.http_only,
            c.same_site,
            opt_view(c.domain),
            c.max_age_millis,
        ),
        c.name@.len() > 0 ==> spec_cookie_pair(cookie_pieces(r@)[0]) == Some((c.name@, c.value@)),
{
    let same_site = match c.same_site {
        CookieSameSite::Strict => cookie::SameSite::Strict,
        CookieSameSite::Lax => cookie::SameSite::Lax,
        CookieSameSite::NoRestriction => cookie::SameSite::None,
    };
    let mut builder = cookie::Cookie::build(c.name.clone(), c.value.clone())
        .path(c.path.clone())
        .secure(c.secure)
        .http_only(c.http_only)
        .same_site(same_site)
        .max_age(cookie::time::Duration::milliseconds(c.max_age_millis));
    if let Some(domain) = &c.domain {
        builder = builder.domain(domain.clone());
    }
    builder.finish().encoded().to_string()
}

/// The `;`-separated pieces of a `Cookie` header.
fn split_cookie_header(header: &str) -> (r: Vec<String>)
    ensures
        r@.map_values(|p: String| p@) == cookie_pieces(header@),
{
    let n = header.unicode_len();
    let mut out: Vec<String> = Vec::new();
    let mut start: usize = 0;
    let mut i: usize = 0;
    while i < n
        invariant
            n == header@.len(),
            0 <= start <= i <= n,
            out@.map_values(|p: String| p@) + pieces_from(header@, start as int, i as int) == cookie_pieces(header@),
        decreases n - i,
    {
        let ghost before = out@.map_values(|p: String| p@);
        if header.get_char(i) == ';' {
            let piece = header.substring_char(start, i);
            out.push(piece.to_owned());
            proof {
                let rest = pieces_from(header@, i + 1, i + 1);
                assert(pieces_from(header@, start as int, i as int) == seq![header@.subrange(start as int, i as int)] + rest);
                assert(out@.map_values(|p: String| p@) =~= before.push(piece@));
                assert(before + (seq![header@.subrange(start as int, i as int)] + rest) =~= before.push(piece@) + rest);
            }
            start = i + 1;
        } else {
            proof {
                assert(pieces_from(header@, start as int, i as int) == pieces_from(header@, start as int, i + 1));
            }
        }
        i = i + 1;
    }
    let last = header.substring_char(start, n);
    let ghost before = out@.map_values(|p: String| p@);
    out.push(last.to_owned());
    proof {
        assert(pieces_from(header@, start as int, n as int) == seq![header@.subrange(start as int, n as int)]);
        assert(out@.map_values(|p: String| p@) =~= before.push(last@));
        assert(before + seq![header@.subrange(start as int, n as int)] =~= before.push(last@));
    }
    out
}

/// The value of the cookie `name` that a request's `Cookie` headers carry: the last
/// cookie of that name, decrypted with the key material when the session layer uses
/// private cookies; `None` when there is none or it does not decrypt.
pub fn request_cookie_value(headers: &Vec<String>, name: &str, key: &Option<Vec<u8>>) -> (r: Option<String>)
    ensures
        match r {
            Some(v) => request_cookie(headers@.map_values(|h: String| h@), name@, match key {
                Some(k) => Some(k@),
                None => None,
            }) == Some(v@),
            None => request_cookie(headers@.map_values(|h: String| h@), name@, match key {
                Some(k) => Some(k@),
                None => None,
            }) is None,
        },
{
    let ghost hs = headers@.map_values(|h: String| h@);
    let mut pieces: Vec<String> = Vec::new();
    let mut h: usize = 0;
    while h < headers.len()
        invariant
            hs == headers@.map_values(|h: String| h@),
            0 <= h <= headers@.len(),
            pieces@.map_values(|p: String| p@) == all_cookie_pieces(hs.take(h as int)),
        decreases headers@.len() - h,
    {
        let ghost before = pieces@.map_values(|p: String| p@);
        let mut split = split_cookie_header(headers[h].as_str());
        let ghost added = split@.map_values(|p: String| p@);
        pieces.append(&mut split);
        proof {
            assert(hs.take(h + 1).drop_last() =~= hs.take(h as int));
            assert(hs.take(h + 1).last() == headers@[h as int]@);
            assert(pieces@.map_values(|p: String| p@) =~= before + added);
        }
        h = h + 1;
    }
    proof {
        assert(hs.take(headers@.len() as int) =~= hs);
    }
    let ghost all = pieces@.map_values(|p: String| p@);
    let mut found: Option<String> = None;
    let mut i: usize = 0;
    while i < pieces.len()
        invariant
            all == pieces@.map_values(|p: String| p@),
            0 <= i <= pieces@.len(),
            match found {
                Some(v) => last_named(all.take(i as int), name@) == Some(v@),
                None => last_named(all.take(i as int), name@) is None,
            },
        decreases pieces@.len() - i,
    {
        proof {
            assert(all.take(i + 1).drop_last() =~= all.take(i as int));
            assert(all.take(i + 1).last() == pieces@[i as int]@);
        }
        match parse_cookie_pair(pieces[i].as_str()) {
            Some((n, v)) => {
                if crate::text::text_eq(n.as_str(), name) {
                    found = Some(v);
                }
            },
            None => {},
        }
        i = i + 1;
    }
    proof {
        assert(all.take(pieces@.len() as int) =~= all);
    }
    match found {
        None => None,
        Some(v) => match key {
            None => Some(v),
            Some(k) => unseal_cookie_value(k, name, v.as_str()),
        },
    }
}

/// The `Set-Cookie` text that sends a session cookie: the cookie `create_cookie` makes,
/// its value sealed first when the configuration holds key material. `None` when the
/// key material is too short to make a key.
pub fn session_cookie_header(config: &AxumSessionConfig, name: &str, value: &str) -> (r: Option<String>)
    ensures
        ({
            let domain = opt_view(config.cookie_domain);
            match config.key {
                None => r matches Some(t) && t@ == spec_set_cookie_text(
                    name@,
                    value@,
                    config.cookie_path@,
                    config.cookie_secure,
                    config.cookie_http_only,
                    config.cookie_same_site,
                    domain,
                    MAX_COOKIE_AGE_MILLIS,
                ),
                Some(k) => if k@.len() < 64 {
                    r is None
                } else {
                    r matches Some(t) && exists|s: Seq<char>| spec_unseal(k@, name@, s) == Some(value@)
                        && #[trigger] spec_set_cookie_text(
                        name@,
                        s,
                        config.cookie_path@,
                        config.cookie_secure,
                        config.cookie_http_only,
                        config.cookie_same_site,
                        domain,
                        MAX_COOKIE_AGE_MILLIS,
                    ) == t@
                },
            }
        }),
        name@.len() > 0 ==> (r matches Some(t) ==> request_cookie(
            seq![cookie_pieces(t@)[0]],
            name@,
            match config.key {
                Some(k) => Some(k@),
                None => None,
            },
        ) == Some(value@)),
{
    let mut c = create_cookie(config, name, value);
    let ghost domain = opt_view(config.cookie_domain);
    match &config.key {
        None => {
            let t = set_cookie_text(&c);
            proof {
                if name@.len() > 0 {
                    lemma_sent_piece_reads_back(t@, name@, value@);
                }
            }
            Some(t)
        },
        Some(k) => match seal_cookie_value(k, name, value) {
            None => None,
            Some(sealed) => {
                let ghost s = sealed@;
                c.value = sealed;
                let t = set_cookie_text(&c);
                assert(spec_set_cookie_text(
                    name@,
                    s,
                    config.cookie_path@,
                    config.cookie_secure,
                    config.cookie_http_only,
                    config.cookie_same_site,
                    domain,
                    MAX_COOKIE_AGE_MILLIS,
                ) == t@);
                proof {
                    if name@.len() > 0 {
                        lemma_sent_piece_reads_back(t@, name@, s);
                    }
                }
                Some(t)
            },
        },
    }
}

/// Whether a text holds no `;`.
pub open spec fn semicolon_free(s: Seq<char>) -> bool {
    forall|k: int| 0 <= k < s.len() ==> s[k] != ';'
}

/// The first piece of a text is free of `;`.
proof fn lemma_first_piece_free(s: Seq<char>, start: int, i: int)
    requires
        0 <= start <= i <= s.len(),
        forall|k: int| start <= k < i ==> s[k] != ';',
    ensures
        pieces_from(s, start, i).len() >= 1,
        semicolon_free(pieces_from(s, start, i)[0]),
    decreases s.len() - i,
{
    if i >= s.len() {
        assert(pieces_from(s, start, i)[0] =~= s.subrange(start, s.len() as int));
    } else if s[i] == ';' {
        assert(pieces_from(s, start, i)[0] == s.subrange(start, i));
    } else {
        lemma_first_piece_free(s, start, i + 1);
    }
}

/// A text free of `;` is a single piece.
proof fn lemma_free_single(p: Seq<char>, i: int)
    requires
        semicolon_free(p),
        0 <= i <= p.len(),
    ensures
        pieces_from(p, 0, i) == seq![p.subrange(0, p.len() as int)],
    decreases p.len() - i,
{
    if i < p.len() {
        lemma_free_single(p, i + 1);
    }
}

/// A request whose `Cookie` header is the first piece of a sent cookie text, which
/// reads as `(name, value)`, carries `value` for `name`.
pub proof fn lemma_sent_piece_reads_back(t: Seq<char>, name: Seq<char>, value: Seq<char>)
    requires
        spec_cookie_pair(cookie_pieces(t)[0]) == Some((name, value)),
    ensures
        last_named(all_cookie_pieces(seq![cookie_pieces(t)[0]]), name) == Some(value),
{
    lemma_first_piece_free(t, 0, 0);
    let p = cookie_pieces(t)[0];
    lemma_free_single(p, 0);
    assert(p.subrange(0, p.len() as int) =~= p);
    let hs = seq![p];
    assert(hs.drop_last() =~= Seq::<Seq<char>>::empty());
    assert(all_cookie_pieces(hs.drop_last()) == Seq::<Seq<char>>::empty());
    assert(all_cookie_pieces(hs) =~= seq![p]);
    assert(seq![p].drop_last() =~= Seq::<Seq<char>>::empty());
}

} // verus!
