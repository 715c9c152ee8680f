//! Cookies: reading the `Cookie` header of a request and writing the
//! `Set-Cookie` header of an answer.

use crate::common::text::{decimal_text, is_whitespace, trimmed};
use cookie::{Cookie, SameSite};
use vstd::prelude::*;

verus! {

/// One entry of a `Cookie` header: the name and the value of a cookie, or
/// `None` for an entry that is no cookie.
pub type CookieEntry = Option<(String, String)>;

/// The position of the first `mark` in `text`, or the length of `text`
/// where it holds none.
pub open spec fn position_of(text: Seq<char>, mark: char) -> int
    decreases text.len(),
{
    if text.len() == 0 || text[0] == mark {
        0
    } else {
        1 + position_of(text.skip(1), mark)
    }
}

/// Whether `text` holds nothing but whitespace.
pub open spec fn all_whitespace(text: Seq<char>) -> bool {
    forall|i: int| 0 <= i < text.len() ==> is_whitespace(#[trigger] text[i])
}

/// What one piece of a `Cookie` header reads as: the name before the first
/// `=` and the value after it, each without the whitespace around it. A
/// piece without `=`, or with nothing before it, is no cookie.
pub open spec fn cookie_of(piece: Seq<char>) -> Option<(Seq<char>, Seq<char>)> {
    let pair = trimmed(piece);
    let at = position_of(pair, '=');
    if 0 <= at < pair.len() && trimmed(pair.take(at)).len() > 0 {
        Some((trimmed(pair.take(at)), trimmed(pair.skip(at + 1))))
    } else {
        None
    }
}

/// The entries of a `Cookie` header, in the order of the header: the header
/// is cut at each `;`, the pieces that hold nothing but whitespace are
/// passed over, and every other piece is read as a cookie.
pub open spec fn cookie_entries(header: Seq<char>) -> Seq<Option<(Seq<char>, Seq<char>)>>
    decreases header.len(),
{
    if header.len() == 0 {
        Seq::empty()
    } else {
        let end = position_of(header, ';');
        let rest = if 0 <= end < header.len() {
            cookie_entries(header.skip(end + 1))
        } else {
            Seq::empty()
        };
        if all_whitespace(header.take(end)) {
            rest
        } else {
            seq![cookie_of(header.take(end))] + rest
        }
    }
}

/// `cookie::Cookie::split_parse`, run to its end, with `Cookie::name` and
/// `Cookie::value` copied out of each cookie and each parse error handed on
/// as `None`. The crate cuts the header at each `;` and passes over the
/// pieces that hold nothing but whitespace. It trims every other piece and
/// looks for its first `=`: without one the piece is an error; the name is
/// what stands before it and the value what stands after it, both trimmed
/// and otherwise as they are, quotes and percent signs included; an empty
/// name is an error. That is [`cookie_entries`].
#[verifier::external_body]
fn split_cookie_header(header: &str) -> (entries: Vec<CookieEntry>)
    ensures
        entries.deep_view() == cookie_entries(header@),
{
    Cookie::split_parse(header).map(
        |entry| entry.ok().map(|cookie| (cookie.name().to_string(), cookie.value().to_string())),
    ).collect()
}

/// The entries of a `Cookie` header.
pub fn parse_cookie_header(header: &str) -> (entries: Vec<CookieEntry>)
    ensures
        entries.deep_view() == cookie_entries(header@),
{
    split_cookie_header(header)
}

/// What a search for a cookie of a given name ends with.
pub enum CookieLookup {
    /// The value of the first cookie of that name whose value is not empty.
    Found(String),
    /// An entry that is no cookie stands before any such cookie.
    Malformed,
    /// No such cookie among the entries.
    Missing,
}

/// A [`CookieLookup`] over plain text.
pub enum Lookup {
    Found(Seq<char>),
    Malformed,
    Missing,
}

impl View for CookieLookup {
    type V = Lookup;

    open spec fn view(&self) -> Lookup {
        match self {
            CookieLookup::Found(value) => Lookup::Found(value@),
            CookieLookup::Malformed => Lookup::Malformed,
            CookieLookup::Missing => Lookup::Missing,
        }
    }
}

/// Goes through the entries in order. The first cookie named `name` with a
/// value that is not empty is found; an entry that is no cookie ends the
/// search where it stands.
pub open spec fn lookup(entries: Seq<Option<(Seq<char>, Seq<char>)>>, name: Seq<char>) -> Lookup
    decreases entries.len(),
{
    if entries.len() == 0 {
        Lookup::Missing
    } else {
        match entries[0] {
            None => Lookup::Malformed,
            Some((entry_name, value)) => if entry_name == name && value.len() > 0 {
                Lookup::Found(value)
            } else {
                lookup(entries.skip(1), name)
            },
        }
    }
}

/// Whether two texts are the same.
pub fn same_text(left: &str, right: &str) -> (same: bool)
    ensures
        same == (left@ == right@),
{
    left.to_owned() == right.to_owned()
}

/// Searches the entries of a `Cookie` header for the cookie named `name`.
pub fn find_cookie(entries: &Vec<CookieEntry>, name: &str) -> (found: CookieLookup)
    ensures
        found@ == lookup(entries.deep_view(), name@),
{
    let ghost model = entries.deep_view();
    assert(model.skip(0) =~= model);
    let mut at: usize = 0;
    while at < entries.len()
        invariant
            at <= entries.len(),
            model == entries.deep_view(),
            lookup(model, name@) == lookup(model.skip(at as int), name@),
        decreases entries.len() - at,
    {
        proof {
            assert(model.skip(at as int)[0] == model[at as int]);
            assert(model[at as int] == entries@[at as int].deep_view());
            assert(model.skip(at as int).skip(1) =~= model.skip(at + 1));
        }
        match &entries[at] {
            None => {
                return CookieLookup::Malformed;
            },
            Some((entry_name, value)) => {
                if same_text(entry_name.as_str(), name) && !value.as_str().is_empty() {
                    return CookieLookup::Found(value.clone());
                }
            },
        }
        at = at + 1;
    }
    CookieLookup::Missing
}

/// How far a browser sends a cookie along with requests from other sites.
#[derive(Debug, Clone, Copy, PartialEq, Eq, Structural)]
pub enum SameSitePolicy {
    /// Never along with requests from other sites.
    Strict,
    /// Along with top-level navigation from other sites.
    Lax,
    /// Along with every request.
    CrossSite,
}

impl SameSitePolicy {
    /// The policy as the `SameSite` attribute writes it.
    pub open spec fn name(self) -> Seq<char> {
        match self {
            SameSitePolicy::Strict => "Strict"@,
            SameSitePolicy::Lax => "Lax"@,
            SameSitePolicy::CrossSite => "None"@,
        }
    }
}

/// The attributes a cookie is set with.
pub struct CookiePolicy {
    pub http_only: bool,
    pub secure: bool,
    pub same_site: SameSitePolicy,
    pub path: String,
}

/// The value of a `Set-Cookie` header: the name and the value of the cookie,
/// then its attributes, each after `; `.
pub open spec fn set_cookie_text(
    name: Seq<char>,
    value: Seq<char>,
    http_only: bool,
    secure: bool,
    same_site: SameSitePolicy,
    path: Seq<char>,
    max_age_seconds: i64,
) -> Seq<char> {
    name + "="@ + value + (if http_only {
        "; HttpOnly"@
    } else {
        Seq::<char>::empty()
    }) + "; SameSite="@ + same_site.name() + (if secure {
        "; Secure"@
    } else {
        Seq::<char>::empty()
    }) + "; Path="@ + path + "; Max-Age="@ + decimal_text(max_age_seconds as int)
}

/// `cookie::Cookie::build`, the builder's `http_only`, `secure`, `same_site`,
/// `path` and `max_age` (with `time::Duration::seconds`), `build`, and the
/// cookie's `Display`: the text of the `Set-Cookie` header for a cookie with
/// these attributes. `Display` writes the name, `=`, the value, and then, in
/// this order, `; HttpOnly` where that is set to true, `; SameSite=` with the
/// policy, `; Secure` where that is set to true, `; Path=` with the path, and
/// `; Max-Age=` with the whole seconds; name, value and path are written as
/// they are.
#[verifier::external_body]
fn render_set_cookie(
    name: &str,
    value: String,
    http_only: bool,
    secure: bool,
    same_site: SameSitePolicy,
    path: &str,
    max_age_seconds: i64,
) -> (text: String)
    ensures
        text@ == set_cookie_text(
            name@,
            value@,
            http_only,
            secure,
            same_site,
            path@,
            max_age_seconds,
        ),
{
    let same_site = match same_site {
        SameSitePolicy::Strict => SameSite::Strict,
        SameSitePolicy::Lax => SameSite::Lax,
        SameSitePolicy::CrossSite => SameSite::None,
    };
    Cookie::build((name, value)).http_only(http_only).secure(secure).same_site(same_site).path(
        path,
    ).max_age(cookie::time::Duration::seconds(max_age_seconds)).build().to_string()
}

/// The value of the `Set-Cookie` header that sets the cookie `name` to
/// `value` for `max_age_seconds` seconds under the given policy.
pub fn set_cookie_header(name: &str, value: String, policy: &CookiePolicy, max_age_seconds: i64) -> (text:
    String)
    ensures
        text@ == set_cookie_text(
            name@,
            value@,
            policy.http_only,
            policy.secure,
            policy.same_site,
            policy.path@,
            max_age_seconds,
        ),
{
    render_set_cookie(
        name,
        value,
        policy.http_only,
        policy.secure,
        policy.same_site,
        policy.path.as_str(),
        max_age_seconds,
    )
}

} // verus!
