//! Parsing a raw source link into an item descriptor.
//!
//! A link is recognized when it holds, anywhere in the string, an `'@'`
//! followed by a non-empty handle free of `'/'`, a `'/'`, a non-empty run of
//! lowercase letters (the kind token), a `'/'`, and a non-empty run of
//! decimal digits (the item id). The leftmost such occurrence wins, and the
//! digit run is taken as long as possible.

use vstd::prelude::*;

verus! {

use vstd::string::StrSliceExecFns;
use crate::types::ParseError;

/// Descriptor of a parsed source link.
#[derive(Debug)]
pub struct VideoInfo {
    pub username: String,
    pub video_id: String,
    pub item_type: String,
}

impl PartialEq for VideoInfo {
    fn eq(&self, other: &VideoInfo) -> (r: bool) {
        self.username == other.username && self.video_id == other.video_id && self.item_type
            == other.item_type
    }
}

impl vstd::std_specs::cmp::PartialEqSpecImpl for VideoInfo {
    open spec fn obeys_eq_spec() -> bool {
        true
    }

    open spec fn eq_spec(&self, other: &VideoInfo) -> bool {
        self.username@ == other.username@ && self.video_id@ == other.video_id@ && self.item_type@
            == other.item_type@
    }
}

/// One decimal digit.
pub open spec fn is_digit(c: char) -> bool {
    '0' <= c && c <= '9'
}

/// One lowercase ASCII letter.
pub open spec fn is_lower_alpha(c: char) -> bool {
    'a' <= c && c <= 'z'
}

/// The link shape, anchored at position `at` of `s`: `s[at]` is `'@'`, the
/// handle runs to the separator at `he`, the kind token to the separator at
/// `ke`, and the digits to `de`, which ends the digit run.
pub open spec fn match_bounds(s: Seq<char>, at: int, he: int, ke: int, de: int) -> bool {
    &&& 0 <= at
    &&& at + 1 < he
    &&& he + 1 < ke
    &&& ke + 1 < de
    &&& de <= s.len()
    &&& s[at] == '@'
    &&& (forall|i: int| at < i < he ==> s[i] != '/')
    &&& s[he] == '/'
    &&& (forall|i: int| he < i < ke ==> is_lower_alpha(s[i]))
    &&& s[ke] == '/'
    &&& (forall|i: int| ke < i < de ==> is_digit(s[i]))
    &&& (de == s.len() || !is_digit(s[de]))
}

/// The link shape occurs at position `at` of `s`.
pub open spec fn match_at(s: Seq<char>, at: int) -> bool {
    exists|he: int, ke: int, de: int| match_bounds(s, at, he, ke, de)
}

/// The segments `username`, `kind` and `id` are exactly those of the
/// leftmost occurrence of the link shape in `s`.
pub open spec fn parse_ok(
    s: Seq<char>,
    at: int,
    he: int,
    ke: int,
    de: int,
    username: Seq<char>,
    kind: Seq<char>,
    id: Seq<char>,
) -> bool {
    &&& match_bounds(s, at, he, ke, de)
    &&& (forall|a: int| 0 <= a < at ==> !match_at(s, a))
    &&& username == s.subrange(at + 1, he)
    &&& kind == s.subrange(he + 1, ke)
    &&& id == s.subrange(ke + 1, de)
}

/// The segments `username`, `kind` and `id` are those of the leftmost
/// occurrence of the link shape in `s`.
pub open spec fn parses_to(s: Seq<char>, username: Seq<char>, kind: Seq<char>, id: Seq<char>) -> bool {
    exists|at: int, he: int, ke: int, de: int| parse_ok(s, at, he, ke, de, username, kind, id)
}

/// At one anchor the shape's boundaries are unique: the handle ends at the
/// first separator, the kind token at the first character that is not a
/// lowercase letter, and the digits at the first non-digit.
pub proof fn lemma_bounds_unique(
    s: Seq<char>,
    at: int,
    he1: int,
    ke1: int,
    de1: int,
    he2: int,
    ke2: int,
    de2: int,
)
    requires
        match_bounds(s, at, he1, ke1, de1),
        match_bounds(s, at, he2, ke2, de2),
    ensures
        he1 == he2,
        ke1 == ke2,
        de1 == de2,
{
    if he1 < he2 {
        assert(s[he1] != '/');
    }
    if he2 < he1 {
        assert(s[he2] != '/');
    }
    if ke1 < ke2 {
        assert(is_lower_alpha(s[ke1]));
    }
    if ke2 < ke1 {
        assert(is_lower_alpha(s[ke2]));
    }
    if de1 < de2 {
        assert(is_digit(s[de1]));
    }
    if de2 < de1 {
        assert(is_digit(s[de2]));
    }
}

/// Attempts the link shape anchored at the `'@'` at position `at`.
fn try_match(s: &str, at: usize, n: usize) -> (r: Option<(usize, usize, usize)>)
    requires
        n == s@.len(),
        at < n,
        s@[at as int] == '@',
    ensures
        match r {
            Some(b) => match_bounds(s@, at as int, b.0 as int, b.1 as int, b.2 as int),
            None => !match_at(s@, at as int),
        },
{
    // The handle ends at the first '/' after the '@'.
    let mut he: usize = at + 1;
    while he < n && s.get_char(he) != '/'
        invariant
            n == s@.len(),
            at < n,
            at + 1 <= he <= n,
            forall|i: int| at < i < he ==> s@[i] != '/',
        decreases n - he,
    {
        he = he + 1;
    }
    if he >= n {
        proof {
            assert forall|he2: int, ke2: int, de2: int| !match_bounds(
                s@,
                at as int,
                he2,
                ke2,
                de2,
            ) by {
                if match_bounds(s@, at as int, he2, ke2, de2) {
                    assert(at < he2 < n);
                    assert(s@[he2] != '/');
                    assert(false);
                }
            }
        }
        return None;
    }
    if he == at + 1 {
        proof {
            assert forall|he2: int, ke2: int, de2: int| !match_bounds(
                s@,
                at as int,
                he2,
                ke2,
                de2,
            ) by {
                if match_bounds(s@, at as int, he2, ke2, de2) {
                    assert(at < at + 1 < he2);
                    assert(s@[at + 1] != '/');
                    assert(false);
                }
            }
        }
        return None;
    }
    // Here `he` is the unique handle separator of any match at `at`.
    assert(forall|he2: int, ke2: int, de2: int|
        match_bounds(s@, at as int, he2, ke2, de2) ==> he2 == he as int) by {
        assert forall|he2: int, ke2: int, de2: int|
            match_bounds(s@, at as int, he2, ke2, de2) implies he2 == he as int by {
            if he2 < he as int {
                assert(s@[he2] != '/');
            }
            if he2 > he as int {
                assert(s@[he as int] != '/');
            }
        }
    }
    // The kind token is the maximal run of lowercase letters after `he`.
    let mut ke: usize = he + 1;
    while ke < n && is_lower_alpha_exec(s.get_char(ke))
        invariant
            n == s@.len(),
            he + 1 <= ke <= n,
            forall|i: int| he < i < ke ==> is_lower_alpha(s@[i]),
        decreases n - ke,
    {
        ke = ke + 1;
    }
    if ke == he + 1 || ke >= n || s.get_char(ke) != '/' {
        proof {
            assert forall|he2: int, ke2: int, de2: int| !match_bounds(
                s@,
                at as int,
                he2,
                ke2,
                de2,
            ) by {
                if match_bounds(s@, at as int, he2, ke2, de2) {
                    assert(he2 == he as int);
                    if ke2 < ke as int {
                        assert(is_lower_alpha(s@[ke2]));
                        assert(false);
                    }
                    if ke2 > ke as int {
                        assert(ke < n);
                        assert(is_lower_alpha(s@[ke as int]));
                        assert(false);
                    }
                    assert(ke2 == ke as int);
                    assert(s@[ke as int] == '/');
                    assert(ke as int > he + 1);
                    assert(false);
                }
            }
        }
        return None;
    }
    // Here `ke` is the unique kind separator of any match at `at`.
    assert(forall|he2: int, ke2: int, de2: int|
        match_bounds(s@, at as int, he2, ke2, de2) ==> ke2 == ke as int) by {
        assert forall|he2: int, ke2: int, de2: int|
            match_bounds(s@, at as int, he2, ke2, de2) implies ke2 == ke as int by {
            assert(he2 == he as int);
            if ke2 < ke as int {
                assert(is_lower_alpha(s@[ke2]));
            }
            if ke2 > ke as int {
                assert(is_lower_alpha(s@[ke as int]));
            }
        }
    }
    // The id is the maximal run of digits after `ke`.
    let mut de: usize = ke + 1;
    while de < n && is_digit_exec(s.get_char(de))
        invariant
            n == s@.len(),
            ke + 1 <= de <= n,
            forall|i: int| ke < i < de ==> is_digit(s@[i]),
        decreases n - de,
    {
        de = de + 1;
    }
    if de == ke + 1 {
        proof {
            assert forall|he2: int, ke2: int, de2: int| !match_bounds(
                s@,
                at as int,
                he2,
                ke2,
                de2,
            ) by {
                if match_bounds(s@, at as int, he2, ke2, de2) {
                    assert(he2 == he as int);
                    assert(ke2 == ke as int);
                    assert(ke + 1 < de2);
                    assert(is_digit(s@[ke + 1]));
                    assert(false);
                }
            }
        }
        return None;
    }
    Some((he, ke, de))
}

fn is_lower_alpha_exec(c: char) -> (r: bool)
    ensures
        r == is_lower_alpha(c),
{
    'a' <= c && c <= 'z'
}

fn is_digit_exec(c: char) -> (r: bool)
    ensures
        r == is_digit(c),
{
    '0' <= c && c <= '9'
}

/// Parses a raw link. On success the returned descriptor carries the handle,
/// kind token and item id of the leftmost occurrence of the link shape; a
/// string in which the shape never occurs is rejected as `MalformedUrl`.
pub fn parse_tiktok_url(video_url: &str) -> (r: Result<VideoInfo, ParseError>)
    ensures
        match r {
            Ok(info) => parses_to(video_url@, info.username@, info.item_type@, info.video_id@),
            Err(e) => e == ParseError::MalformedUrl && (forall|a: int|
                !match_at(video_url@, a)),
        },
{
    let n = video_url.unicode_len();
    let mut at: usize = 0;
    while at < n
        invariant
            n == video_url@.len(),
            at <= n,
            forall|a: int| 0 <= a < at ==> !match_at(video_url@, a),
        decreases n - at,
    {
        let c = video_url.get_char(at);
        if c == '@' {
            match try_match(video_url, at, n) {
                Some((he, ke, de)) => {
                    let username = video_url.substring_char(at + 1, he).to_owned();
                    let item_type = video_url.substring_char(he + 1, ke).to_owned();
                    let video_id = video_url.substring_char(ke + 1, de).to_owned();
                    let info = VideoInfo { username, video_id, item_type };
                    proof {
                        assert(parse_ok(
                            video_url@,
                            at as int,
                            he as int,
                            ke as int,
                            de as int,
                            info.username@,
                            info.item_type@,
                            info.video_id@,
                        ));
                        assert(parses_to(
                            video_url@,
                            info.username@,
                            info.item_type@,
                            info.video_id@,
                        ));
                    }
                    return Ok(info);
                },
                None => {},
            }
        } else {
            proof {
                assert forall|he2: int, ke2: int, de2: int| !match_bounds(
                    video_url@,
                    at as int,
                    he2,
                    ke2,
                    de2,
                ) by {
                    if match_bounds(video_url@, at as int, he2, ke2, de2) {
                        assert(video_url@[at as int] == '@');
                        assert(false);
                    }
                }
                assert(!match_at(video_url@, at as int));
            }
        }
        at = at + 1;
    }
    proof {
        assert forall|a: int| !match_at(video_url@, a) by {
            if 0 <= a < n {
                assert(!match_at(video_url@, a));
            } else {
                assert forall|he2: int, ke2: int, de2: int| !match_bounds(
                    video_url@,
                    a,
                    he2,
                    ke2,
                    de2,
                ) by {
                    if match_bounds(video_url@, a, he2, ke2, de2) {
                        assert(a + 3 < de2 <= n);
                        assert(0 <= a < n);
                        assert(false);
                    }
                }
            }
        }
    }
    Err(ParseError::MalformedUrl)
}

/// Round-trip law of the parser. A link assembled as
/// `<prefix>@<handle>/<kind>/<digits>`, where the prefix holds no `'@'`, the
/// handle is non-empty and free of `'/'`, the kind token is non-empty
/// lowercase, and the digits are a non-empty run ending the string, matches
/// exactly at the end of the prefix, and any successful parse of it reports
/// exactly `handle`, `kind` and `digits`.
pub proof fn lemma_parse_round_trip(
    prefix: Seq<char>,
    handle: Seq<char>,
    kind: Seq<char>,
    digits: Seq<char>,
)
    requires
        forall|i: int| 0 <= i < prefix.len() ==> prefix[i] != '@',
        handle.len() > 0,
        forall|i: int| 0 <= i < handle.len() ==> handle[i] != '/',
        kind.len() > 0,
        forall|i: int| 0 <= i < kind.len() ==> is_lower_alpha(kind[i]),
        digits.len() > 0,
        forall|i: int| 0 <= i < digits.len() ==> is_digit(digits[i]),
    ensures
        ({
            let s = prefix + seq!['@'] + handle + seq!['/'] + kind + seq!['/'] + digits;
            let at = prefix.len() as int;
            let he = at + 1 + handle.len();
            let ke = he + 1 + kind.len();
            let de = ke + 1 + digits.len();
            &&& match_bounds(s, at, he, ke, de)
            &&& forall|a: int| 0 <= a < at ==> !match_at(s, a)
            &&& forall|at2: int, he2: int, ke2: int, de2: int, u: Seq<char>, k: Seq<char>, d: Seq<char>|
                parse_ok(s, at2, he2, ke2, de2, u, k, d) ==> at2 == at && u == handle && k == kind
                    && d == digits
        }),
{
    let s = prefix + seq!['@'] + handle + seq!['/'] + kind + seq!['/'] + digits;
    let at = prefix.len() as int;
    let he = at + 1 + handle.len();
    let ke = he + 1 + kind.len();
    let de = ke + 1 + digits.len();
    assert(s.len() == de);
    assert(s[at] == '@');
    assert(s[he] == '/');
    assert(s[ke] == '/');
    assert forall|i: int| at < i < he implies s[i] != '/' by {
        assert(s[i] == handle[i - at - 1]);
    }
    assert forall|i: int| he < i < ke implies is_lower_alpha(s[i]) by {
        assert(s[i] == kind[i - he - 1]);
    }
    assert forall|i: int| ke < i < de implies is_digit(s[i]) by {
        assert(s[i] == digits[i - ke - 1]);
    }
    assert(match_bounds(s, at, he, ke, de));
    assert forall|a: int| 0 <= a < at implies !match_at(s, a) by {
        assert forall|he2: int, ke2: int, de2: int| !match_bounds(s, a, he2, ke2, de2) by {
            if match_bounds(s, a, he2, ke2, de2) {
                assert(s[a] == prefix[a]);
                assert(s[a] == '@');
                assert(false);
            }
        }
    }
    assert forall|at2: int, he2: int, ke2: int, de2: int, u: Seq<char>, k: Seq<char>, d: Seq<char>|
        parse_ok(s, at2, he2, ke2, de2, u, k, d) implies at2 == at && u == handle && k == kind
            && d == digits by {
        if at2 < at {
            assert(!match_at(s, at2));
            assert(match_bounds(s, at2, he2, ke2, de2));
            assert(false);
        }
        if at2 > at {
            assert(!match_at(s, at));
            assert(match_bounds(s, at, he, ke, de));
            assert(match_at(s, at));
            assert(false);
        }
        lemma_bounds_unique(s, at, he, ke, de, he2, ke2, de2);
        assert(u =~= handle) by {
            assert(u == s.subrange(at + 1, he));
            assert forall|i: int| 0 <= i < handle.len() implies s.subrange(at + 1, he)[i]
                == handle[i] by {
                assert(s[at + 1 + i] == handle[i]);
            }
        }
        assert(k =~= kind) by {
            assert(k == s.subrange(he + 1, ke));
            assert forall|i: int| 0 <= i < kind.len() implies s.subrange(he + 1, ke)[i]
                == kind[i] by {
                assert(s[he + 1 + i] == kind[i]);
            }
        }
        assert(d =~= digits) by {
            assert(d == s.subrange(ke + 1, de));
            assert forall|i: int| 0 <= i < digits.len() implies s.subrange(ke + 1, de)[i]
                == digits[i] by {
                assert(s[ke + 1 + i] == digits[i]);
            }
        }
    }
}

} // verus!
