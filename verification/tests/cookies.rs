use cookie::Cookie;
use demeter::common::cookies::{
    find_cookie, parse_cookie_header, same_text, set_cookie_header, CookieEntry, CookieLookup,
    CookiePolicy, SameSitePolicy,
};
use demeter::common::error::AppError;
use demeter::common::middleware::{
    access_token_from_entries, bearer_token, extract_access_token_from_cookie, get_current_user,
    request_token, require_admin,
};
use demeter::common::jwt::Claims;
use demeter::common::text::{text_of, trim, whitespace};
use demeter::config::JwtConfig;
use demeter::modules::auth::handlers::{
    auth_set_cookie_headers, build_access_cookie, build_auth_cookie, build_refresh_cookie,
    clear_access_cookie, clear_auth_cookie, clear_refresh_cookie,
    extract_refresh_token_from_cookie, logout_set_cookie_headers, refresh_token_from_entries,
};

fn pair(name: &str, value: &str) -> CookieEntry {
    Some((name.to_string(), value.to_string()))
}

fn found(lookup: CookieLookup) -> Option<String> {
    match lookup {
        CookieLookup::Found(value) => Some(value),
        _ => None,
    }
}

fn refusal<T: std::fmt::Debug>(result: Result<T, AppError>) -> (u16, String) {
    result.unwrap_err().status_and_message()
}

#[test]
fn a_cookie_header_is_split_into_names_and_values() {
    assert_eq!(
        parse_cookie_header("a=1; access_token=abc.def; b = 2 "),
        vec![pair("a", "1"), pair("access_token", "abc.def"), pair("b", "2")]
    );
    assert_eq!(parse_cookie_header(""), Vec::<CookieEntry>::new());
    assert_eq!(parse_cookie_header(" ; ;"), Vec::<CookieEntry>::new());
    assert_eq!(parse_cookie_header("a=1;;b=2"), vec![pair("a", "1"), pair("b", "2")]);
    assert_eq!(parse_cookie_header("name=key%20value"), vec![pair("name", "key%20value")]);
    assert_eq!(parse_cookie_header("novalue"), vec![None]);
    assert_eq!(parse_cookie_header("=x; a=1"), vec![None, pair("a", "1")]);
    assert_eq!(parse_cookie_header("a=; b=\"q\""), vec![pair("a", ""), pair("b", "\"q\"")]);
}

#[test]
fn the_entries_are_those_of_the_cookie_crate() {
    let header = "x=1; broken; access_token=tok; y=2; =z";
    let direct: Vec<CookieEntry> = Cookie::split_parse(header)
        .map(|entry| entry.ok().map(|c| (c.name().to_string(), c.value().to_string())))
        .collect();
    assert_eq!(parse_cookie_header(header), direct);
    assert_eq!(direct.len(), 5);
    assert!(direct[1].is_none() && direct[4].is_none());
}

#[test]
fn the_first_cookie_of_the_name_with_a_value_is_found() {
    let entries = vec![pair("a", "1"), pair("t", ""), pair("t", "first"), pair("t", "second")];
    assert_eq!(found(find_cookie(&entries, "t")), Some("first".to_string()));
    assert_eq!(found(find_cookie(&entries, "a")), Some("1".to_string()));
    assert!(matches!(find_cookie(&entries, "T"), CookieLookup::Missing));
    assert!(matches!(find_cookie(&entries, ""), CookieLookup::Missing));
    assert!(matches!(find_cookie(&Vec::new(), "t"), CookieLookup::Missing));
    assert!(matches!(find_cookie(&vec![pair("t", "")], "t"), CookieLookup::Missing));
}

#[test]
fn an_entry_that_is_no_cookie_ends_the_search() {
    let entries = vec![pair("a", "1"), None, pair("t", "late")];
    assert!(matches!(find_cookie(&entries, "t"), CookieLookup::Malformed));
    assert_eq!(found(find_cookie(&entries, "a")), Some("1".to_string()));
    let entries = vec![pair("t", "early"), None];
    assert_eq!(found(find_cookie(&entries, "t")), Some("early".to_string()));
}

#[test]
fn same_text_compares_by_content() {
    assert!(same_text("", ""));
    assert!(same_text("access_token", "access_token"));
    assert!(!same_text("access_token", "access_toke"));
    assert!(!same_text("a", "A"));
}

#[test]
fn the_access_token_comes_from_its_cookie() {
    assert_eq!(
        extract_access_token_from_cookie(Some("theme=dark; access_token=abc; refresh_token=r")),
        Some("abc".to_string())
    );
    assert_eq!(extract_access_token_from_cookie(Some("theme=dark")), None);
    assert_eq!(extract_access_token_from_cookie(Some("access_token=")), None);
    assert_eq!(extract_access_token_from_cookie(Some("")), None);
    assert_eq!(extract_access_token_from_cookie(None), None);
    assert_eq!(extract_access_token_from_cookie(Some("broken; access_token=abc")), None);
    assert_eq!(
        extract_access_token_from_cookie(Some("access_token=abc; broken")),
        Some("abc".to_string())
    );
    assert_eq!(
        access_token_from_entries(&vec![pair("access_token", ""), pair("access_token", "x")]),
        Some("x".to_string())
    );
}

#[test]
fn the_refresh_token_comes_from_its_cookie() {
    assert_eq!(
        extract_refresh_token_from_cookie(Some("access_token=a; refresh_token=rrr")).ok(),
        Some("rrr".to_string())
    );
    assert_eq!(
        refusal(extract_refresh_token_from_cookie(None)),
        (401, "Missing refresh token".to_string())
    );
    assert_eq!(
        refusal(extract_refresh_token_from_cookie(Some("access_token=a"))),
        (401, "Missing refresh token".to_string())
    );
    assert_eq!(
        refusal(extract_refresh_token_from_cookie(Some("refresh_token="))),
        (401, "Missing refresh token".to_string())
    );
    assert_eq!(
        refusal(extract_refresh_token_from_cookie(Some("oops; refresh_token=r"))),
        (401, "Invalid Cookie".to_string())
    );
    assert_eq!(
        refusal(refresh_token_from_entries(&vec![None])),
        (401, "Invalid Cookie".to_string())
    );
}

#[test]
fn the_bearer_token_follows_its_prefix() {
    assert_eq!(bearer_token(Some("Bearer abc.def")).ok(), Some("abc.def".to_string()));
    assert_eq!(bearer_token(Some("Bearer ")).ok(), Some(String::new()));
    assert_eq!(bearer_token(Some("Bearer  two")).ok(), Some(" two".to_string()));
    assert_eq!(bearer_token(Some("Bearer \u{e9}t\u{e9}")).ok(), Some("\u{e9}t\u{e9}".to_string()));
    assert_eq!(
        refusal(bearer_token(None)),
        (401, "Missing authentication token".to_string())
    );
    for bad in ["", "Bearer", "bearer abc", "Basic abc", " Bearer abc", "Bearerabc"] {
        assert_eq!(
            refusal(bearer_token(Some(bad))),
            (401, "Invalid authentication token format".to_string()),
            "{:?}",
            bad
        );
    }
}

#[test]
fn the_cookie_goes_before_the_authorization_header() {
    assert_eq!(
        request_token(Some("access_token=from_cookie"), Some("Bearer from_header")).ok(),
        Some("from_cookie".to_string())
    );
    assert_eq!(
        request_token(Some("other=1"), Some("Bearer from_header")).ok(),
        Some("from_header".to_string())
    );
    assert_eq!(
        request_token(None, Some("Bearer from_header")).ok(),
        Some("from_header".to_string())
    );
    assert_eq!(
        refusal(request_token(None, None)),
        (401, "Missing authentication token".to_string())
    );
    assert_eq!(
        refusal(request_token(Some("access_token="), Some("Token x"))),
        (401, "Invalid authentication token format".to_string())
    );
}

fn claims(username: &str) -> Claims {
    Claims {
        sub: 1,
        username: username.to_string(),
        exp: 2,
        iat: 1,
        token_type: "access".to_string(),
    }
}

#[test]
fn only_the_administrator_passes_the_admin_gate() {
    assert_eq!(require_admin(Some(claims("admin"))).unwrap().sub, 1);
    assert_eq!(refusal(require_admin(Some(claims("root")))), (403, "Admin access required".to_string()));
    assert_eq!(refusal(require_admin(Some(claims("Admin")))), (403, "Admin access required".to_string()));
    assert_eq!(refusal(require_admin(Some(claims("")))), (403, "Admin access required".to_string()));
    assert_eq!(refusal(require_admin(None)), (401, "Not authenticated".to_string()));
    assert_eq!(get_current_user(Some(claims("eve"))).unwrap().username, "eve");
    assert_eq!(refusal(get_current_user(None)), (401, "Not authenticated".to_string()));
}

#[test]
fn a_set_cookie_header_lists_its_attributes_in_order() {
    let policy = CookiePolicy {
        http_only: true,
        secure: false,
        same_site: SameSitePolicy::Lax,
        path: "/api".to_string(),
    };
    assert_eq!(
        set_cookie_header("access_token", "abc".to_string(), &policy, 900),
        "access_token=abc; HttpOnly; SameSite=Lax; Path=/api; Max-Age=900"
    );
    let policy = CookiePolicy {
        http_only: false,
        secure: true,
        same_site: SameSitePolicy::Strict,
        path: "/".to_string(),
    };
    assert_eq!(
        set_cookie_header("n", "v".to_string(), &policy, -5),
        "n=v; SameSite=Strict; Secure; Path=/; Max-Age=-5"
    );
    let policy = CookiePolicy {
        http_only: true,
        secure: true,
        same_site: SameSitePolicy::CrossSite,
        path: String::new(),
    };
    assert_eq!(
        set_cookie_header("", String::new(), &policy, i64::MAX),
        "=; HttpOnly; SameSite=None; Secure; Path=; Max-Age=9223372036854775807"
    );
    let policy = CookiePolicy {
        http_only: false,
        secure: false,
        same_site: SameSitePolicy::CrossSite,
        path: "/x".to_string(),
    };
    assert_eq!(
        set_cookie_header("a", "b c".to_string(), &policy, i64::MIN),
        "a=b c; SameSite=None; Path=/x; Max-Age=-9223372036854775808"
    );
}

#[test]
fn session_cookies_follow_the_session_policy() {
    assert_eq!(
        build_auth_cookie("k", "v".to_string(), 60),
        "k=v; HttpOnly; SameSite=Lax; Path=/api; Max-Age=60"
    );
    assert_eq!(
        build_refresh_cookie("rrr".to_string(), 604800),
        "refresh_token=rrr; HttpOnly; SameSite=Lax; Path=/api; Max-Age=604800"
    );
    assert_eq!(
        build_access_cookie("aaa".to_string(), 900),
        "access_token=aaa; HttpOnly; SameSite=Lax; Path=/api; Max-Age=900"
    );
    assert_eq!(clear_auth_cookie("k"), "k=; HttpOnly; SameSite=Lax; Path=/api; Max-Age=0");
    assert_eq!(
        clear_refresh_cookie(),
        "refresh_token=; HttpOnly; SameSite=Lax; Path=/api; Max-Age=0"
    );
    assert_eq!(
        clear_access_cookie(),
        "access_token=; HttpOnly; SameSite=Lax; Path=/api; Max-Age=0"
    );
}

#[test]
fn a_session_sets_the_refresh_cookie_first() {
    let config = JwtConfig {
        secret: "s".to_string(),
        access_token_expires_in: 900,
        refresh_token_expires_in: 604800,
    };
    assert_eq!(
        auth_set_cookie_headers(&config, "aaa".to_string(), "rrr".to_string()),
        vec![
            "refresh_token=rrr; HttpOnly; SameSite=Lax; Path=/api; Max-Age=604800".to_string(),
            "access_token=aaa; HttpOnly; SameSite=Lax; Path=/api; Max-Age=900".to_string(),
        ]
    );
    assert_eq!(
        logout_set_cookie_headers(),
        vec![
            "refresh_token=; HttpOnly; SameSite=Lax; Path=/api; Max-Age=0".to_string(),
            "access_token=; HttpOnly; SameSite=Lax; Path=/api; Max-Age=0".to_string(),
        ]
    );
}

// The grammar of a `Cookie` header, written out piece by piece.
fn position_of(text: &[char], mark: char) -> usize {
    text.iter().position(|c| *c == mark).unwrap_or(text.len())
}

fn cookie_of(piece: &[char]) -> CookieEntry {
    let pair = trim(&piece.to_vec());
    let at = position_of(&pair, '=');
    if at >= pair.len() {
        return None;
    }
    let name = trim(&pair[..at].to_vec());
    let value = trim(&pair[at + 1..].to_vec());
    if name.is_empty() {
        None
    } else {
        Some((text_of(&name), text_of(&value)))
    }
}

fn entries_by_the_grammar(header: &str) -> Vec<CookieEntry> {
    let chars: Vec<char> = header.chars().collect();
    let mut entries = Vec::new();
    let mut from = 0;
    while from < chars.len() {
        let end = from + position_of(&chars[from..], ';');
        let piece = &chars[from..end];
        if !piece.iter().all(|c| whitespace(*c)) {
            entries.push(cookie_of(piece));
        }
        from = end + 1;
    }
    entries
}

#[test]
fn every_short_header_reads_as_the_grammar_says() {
    let alphabet = ['a', '=', ';', ' ', '"', '\u{e9}', '\t', '%'];
    let mut header = String::new();
    for length in 0..=6u32 {
        for code in 0..8u32.pow(length) {
            header.clear();
            let mut rest = code;
            for _ in 0..length {
                header.push(alphabet[(rest % 8) as usize]);
                rest /= 8;
            }
            assert_eq!(parse_cookie_header(&header), entries_by_the_grammar(&header), "{:?}", header);
        }
    }
}

#[test]
fn long_headers_read_as_the_grammar_says() {
    let alphabet = [
        'a', 'b', 'Z', '0', '=', '=', ';', ';', ' ', ' ', '\t', '\n', '"', '%', ',', '\u{a0}',
        '\u{3000}', '\u{e9}', '\u{4e2d}', '-',
    ];
    let mut seed: u64 = 0x9e3779b97f4a7c15;
    for round in 0..20_000 {
        let mut header = String::new();
        let length = 1 + round % 40;
        for _ in 0..length {
            seed = seed.wrapping_mul(6364136223846793005).wrapping_add(1442695040888963407);
            header.push(alphabet[((seed >> 33) % alphabet.len() as u64) as usize]);
        }
        assert_eq!(parse_cookie_header(&header), entries_by_the_grammar(&header), "{:?}", header);
    }
    let header = "session=abc; access_token = e.y.J ;; refresh_token=\"r\"; =x; lone ; k=v=w";
    assert_eq!(
        parse_cookie_header(header),
        vec![
            pair("session", "abc"),
            pair("access_token", "e.y.J"),
            pair("refresh_token", "\"r\""),
            None,
            None,
            pair("k", "v=w"),
        ]
    );
    assert_eq!(parse_cookie_header(header), entries_by_the_grammar(header));
}
