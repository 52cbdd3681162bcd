//! Parsing a framed message into a typed HTTP request.
//!
//! A message's first line is its request line.  When that line splits
//! into exactly three whitespace-separated tokens, the first token is
//! matched (case-insensitively) against the known verbs, the third
//! against the known protocol versions, and the second is taken verbatim
//! as the request path.  Any other shape leaves all three fields empty
//! and the request counts as malformed.  Parsing never fails: the raw
//! text is always kept alongside whatever fields were recognized.

use vstd::prelude::*;

verus! {

/// The request verbs this server recognizes.
#[derive(Clone, Copy, PartialEq, Eq, Structural, Debug)]
pub enum HttpVerb {
    Get,
}

/// The protocol versions this server recognizes.
#[derive(Clone, Copy, PartialEq, Eq, Structural, Debug)]
pub enum HttpVersion {
    V1_0,
    V1_1,
}

/// The characters that separate request-line tokens (the Unicode
/// whitespace set used by `str::split_whitespace`).
pub open spec fn is_ws(c: char) -> bool {
    ||| c == ' '
    ||| c == '\u{9}'
    ||| c == '\u{a}'
    ||| c == '\u{b}'
    ||| c == '\u{c}'
    ||| c == '\u{d}'
    ||| c == '\u{85}'
    ||| c == '\u{a0}'
    ||| c == '\u{1680}'
    ||| c == '\u{2000}'
    ||| c == '\u{2001}'
    ||| c == '\u{2002}'
    ||| c == '\u{2003}'
    ||| c == '\u{2004}'
    ||| c == '\u{2005}'
    ||| c == '\u{2006}'
    ||| c == '\u{2007}'
    ||| c == '\u{2008}'
    ||| c == '\u{2009}'
    ||| c == '\u{200a}'
    ||| c == '\u{2028}'
    ||| c == '\u{2029}'
    ||| c == '\u{202f}'
    ||| c == '\u{205f}'
    ||| c == '\u{3000}'
}

/// Whether `c` separates request-line tokens.
pub fn is_ws_char(c: char) -> (r: bool)
    ensures
        r == is_ws(c),
{
    c == ' ' || c == '\u{9}' || c == '\u{a}' || c == '\u{b}' || c == '\u{c}' || c == '\u{d}'
        || c == '\u{85}' || c == '\u{a0}' || c == '\u{1680}' || c == '\u{2000}' || c == '\u{2001}'
        || c == '\u{2002}' || c == '\u{2003}' || c == '\u{2004}' || c == '\u{2005}' || c
        == '\u{2006}' || c == '\u{2007}' || c == '\u{2008}' || c == '\u{2009}' || c == '\u{200a}'
        || c == '\u{2028}' || c == '\u{2029}' || c == '\u{202f}' || c == '\u{205f}' || c
        == '\u{3000}'
}

/// Length of the maximal non-whitespace prefix of `s`.
pub open spec fn tok_len(s: Seq<char>) -> int
    decreases s.len(),
{
    if s.len() == 0 || is_ws(s[0]) {
        0
    } else {
        1 + tok_len(s.skip(1))
    }
}

/// `tok_len` stays within `s`, covers no whitespace, and stops only at
/// whitespace or at the end.
pub proof fn lemma_tok_len(s: Seq<char>)
    ensures
        0 <= tok_len(s) <= s.len(),
        forall|j: int| 0 <= j < tok_len(s) ==> !is_ws(s[j]),
        tok_len(s) < s.len() ==> is_ws(s[tok_len(s)]),
    decreases s.len(),
{
    if s.len() == 0 || is_ws(s[0]) {
    } else {
        lemma_tok_len(s.skip(1));
        assert forall|j: int| 0 <= j < tok_len(s) implies !is_ws(s[j]) by {
            if j > 0 {
                assert(s.skip(1)[j - 1] == s[j]);
            }
        }
        if tok_len(s) < s.len() {
            assert(s.skip(1)[tok_len(s) - 1] == s[tok_len(s)]);
        }
    }
}

/// A maximal run of `k` non-whitespace characters at the front pins
/// `tok_len(s)` to `k`.
pub proof fn lemma_tok_len_is(s: Seq<char>, k: int)
    requires
        0 <= k <= s.len(),
        forall|j: int| 0 <= j < k ==> !is_ws(s[j]),
        k < s.len() ==> is_ws(s[k]),
    ensures
        tok_len(s) == k,
    decreases s.len(),
{
    if k == 0 {
    } else {
        assert(!is_ws(s[0]));
        assert forall|j: int| 0 <= j < k - 1 implies !is_ws(s.skip(1)[j]) by {
            assert(s.skip(1)[j] == s[j + 1]);
        }
        if k - 1 < s.skip(1).len() {
            assert(s.skip(1)[k - 1] == s[k]);
        }
        lemma_tok_len_is(s.skip(1), k - 1);
    }
}

/// The whitespace-separated tokens of `s`, in order.
pub open spec fn spec_tokens(s: Seq<char>) -> Seq<Seq<char>>
    decreases s.len(),
    via spec_tokens_decreases
{
    if s.len() == 0 {
        Seq::empty()
    } else if is_ws(s[0]) {
        spec_tokens(s.skip(1))
    } else {
        seq![s.take(tok_len(s))] + spec_tokens(s.skip(tok_len(s)))
    }
}

#[via_fn]
proof fn spec_tokens_decreases(s: Seq<char>) {
    if s.len() > 0 && !is_ws(s[0]) {
        lemma_tok_len(s.skip(1));
    }
}

/// Position of the first line feed of `s`, or `s.len()` when none occurs.
pub open spec fn first_nl(s: Seq<char>) -> int
    decreases s.len(),
{
    if s.len() == 0 {
        0
    } else if s[0] == '\n' {
        0
    } else {
        1 + first_nl(s.skip(1))
    }
}

/// A line feed at `k` with none before it pins `first_nl(s)` to `k`;
/// `k == s.len()` with no line feed at all does the same.
pub proof fn lemma_first_nl_is(s: Seq<char>, k: int)
    requires
        0 <= k <= s.len(),
        forall|j: int| 0 <= j < k ==> s[j] != '\n',
        k < s.len() ==> s[k] == '\n',
    ensures
        first_nl(s) == k,
    decreases s.len(),
{
    if k == 0 && s.len() == 0 {
    } else if k == 0 {
    } else {
        assert forall|j: int| 0 <= j < k - 1 implies s.skip(1)[j] != '\n' by {
            assert(s.skip(1)[j] == s[j + 1]);
        }
        if k - 1 < s.skip(1).len() {
            assert(s.skip(1)[k - 1] == s[k]);
        }
        lemma_first_nl_is(s.skip(1), k - 1);
    }
}

/// The request line of a message: the text before the first line feed,
/// with a carriage return dropped from its end when the line feed was
/// present (mirroring how `str::lines` delimits lines).
pub open spec fn request_line(m: Seq<char>) -> Seq<char> {
    let e = first_nl(m);
    if e == m.len() {
        m
    } else if e > 0 && m[e - 1] == '\r' {
        m.take(e - 1)
    } else {
        m.take(e)
    }
}

/// The request-line tokens of a message.
pub open spec fn msg_tokens(m: Seq<char>) -> Seq<Seq<char>> {
    spec_tokens(request_line(m))
}

/// The token `GET`, compared without regard to ASCII case.
pub open spec fn is_get_token(t: Seq<char>) -> bool {
    &&& t.len() == 3
    &&& (t[0] == 'G' || t[0] == 'g')
    &&& (t[1] == 'E' || t[1] == 'e')
    &&& (t[2] == 'T' || t[2] == 't')
}

/// The token `HTTP/1.`x, compared without regard to ASCII case; the
/// final character picks the version.
pub open spec fn is_version_token(t: Seq<char>, last: char) -> bool {
    &&& t.len() == 8
    &&& (t[0] == 'H' || t[0] == 'h')
    &&& (t[1] == 'T' || t[1] == 't')
    &&& (t[2] == 'T' || t[2] == 't')
    &&& (t[3] == 'P' || t[3] == 'p')
    &&& t[4] == '/'
    &&& t[5] == '1'
    &&& t[6] == '.'
    &&& t[7] == last
}

/// The verb a single token names, if any.
pub open spec fn spec_verb_token(t: Seq<char>) -> Option<HttpVerb> {
    if is_get_token(t) {
        Some(HttpVerb::Get)
    } else {
        None
    }
}

/// The protocol version a single token names, if any.
pub open spec fn spec_version_token(t: Seq<char>) -> Option<HttpVersion> {
    if is_version_token(t, '0') {
        Some(HttpVersion::V1_0)
    } else if is_version_token(t, '1') {
        Some(HttpVersion::V1_1)
    } else {
        None
    }
}

/// The verb field a message parses to.
pub open spec fn spec_verb_of(m: Seq<char>) -> Option<HttpVerb> {
    if msg_tokens(m).len() == 3 {
        spec_verb_token(msg_tokens(m)[0])
    } else {
        None
    }
}

/// The version field a message parses to.
pub open spec fn spec_version_of(m: Seq<char>) -> Option<HttpVersion> {
    if msg_tokens(m).len() == 3 {
        spec_version_token(msg_tokens(m)[2])
    } else {
        None
    }
}

/// The path field a message parses to: the second token, verbatim.
pub open spec fn spec_path_of(m: Seq<char>) -> Option<Seq<char>> {
    if msg_tokens(m).len() == 3 {
        Some(msg_tokens(m)[1])
    } else {
        None
    }
}

/// One framed request message together with whatever its request line
/// parsed to.  The three optional fields are all present exactly when
/// the request line had three tokens; `http_verb` and `http_version`
/// are present only when their token was also recognized.
pub struct HttpMessage {
    pub http_verb: Option<HttpVerb>,
    pub http_version: Option<HttpVersion>,
    pub request_path: Option<String>,
    pub raw_message: String,
}

/// `r` is exactly what the message text `m` parses to.
pub open spec fn is_parse_of(r: HttpMessage, m: Seq<char>) -> bool {
    &&& r.raw_message@ == m
    &&& r.http_verb == spec_verb_of(m)
    &&& r.http_version == spec_version_of(m)
    &&& (match r.request_path {
        Some(p) => spec_path_of(m) == Some(p@),
        None => spec_path_of(m) is None,
    })
}

impl HttpMessage {
    /// The verb named by `s`, compared without regard to ASCII case:
    /// only `GET` is recognized.
    pub fn http_verb_from_str(s: &str) -> (r: Option<HttpVerb>)
        ensures
            r == spec_verb_token(s@),
    {
        let n = s.unicode_len();
        if n == 3 {
            let c0 = s.get_char(0);
            let c1 = s.get_char(1);
            let c2 = s.get_char(2);
            if (c0 == 'G' || c0 == 'g') && (c1 == 'E' || c1 == 'e') && (c2 == 'T' || c2 == 't') {
                Some(HttpVerb::Get)
            } else {
                None
            }
        } else {
            None
        }
    }

    /// The protocol version named by `s`, compared without regard to
    /// ASCII case: only `HTTP/1.0` and `HTTP/1.1` are recognized.
    pub fn http_version_from_str(s: &str) -> (r: Option<HttpVersion>)
        ensures
            r == spec_version_token(s@),
    {
        let n = s.unicode_len();
        if n == 8 {
            let c0 = s.get_char(0);
            let c1 = s.get_char(1);
            let c2 = s.get_char(2);
            let c3 = s.get_char(3);
            let c4 = s.get_char(4);
            let c5 = s.get_char(5);
            let c6 = s.get_char(6);
            let c7 = s.get_char(7);
            if (c0 == 'H' || c0 == 'h') && (c1 == 'T' || c1 == 't') && (c2 == 'T' || c2 == 't')
                && (c3 == 'P' || c3 == 'p') && c4 == '/' && c5 == '1' && c6 == '.' {
                if c7 == '0' {
                    Some(HttpVersion::V1_0)
                } else if c7 == '1' {
                    Some(HttpVersion::V1_1)
                } else {
                    None
                }
            } else {
                None
            }
        } else {
            None
        }
    }

    /// Parse a framed message.  Never fails: an ill-shaped request line
    /// leaves the optional fields empty, and the raw text is kept whole
    /// either way.
    #[verifier::loop_isolation(false)]
    pub fn create_from_str(s: &str) -> (r: HttpMessage)
        ensures
            is_parse_of(r, s@),
    {
        let n = s.unicode_len();
        // find the end of the request line
        let mut j: usize = 0;
        while j < n && s.get_char(j) != '\n'
            invariant
                0 <= j <= n,
                forall|k: int| 0 <= k < j ==> s@[k] != '\n',
            decreases n - j,
        {
            j += 1;
        }
        proof {
            lemma_first_nl_is(s@, j as int);
        }
        let mut line_end: usize = j;
        if j < n && line_end > 0 {
            if s.get_char(line_end - 1) == '\r' {
                line_end -= 1;
            }
        }
        let line = s.substring_char(0, line_end);
        proof {
            assert(line@ =~= request_line(s@));
        }
        let toks = tokenize(line);
        if toks.len() == 3 {
            let verb = Self::http_verb_from_str(toks[0].as_str());
            let version = Self::http_version_from_str(toks[2].as_str());
            let path = toks[1].clone();
            proof {
                assert(toks.deep_view()[0] == toks@[0]@);
                assert(toks.deep_view()[1] == toks@[1]@);
                assert(toks.deep_view()[2] == toks@[2]@);
            }
            HttpMessage {
                http_verb: verb,
                http_version: version,
                request_path: Some(path),
                raw_message: s.to_owned(),
            }
        } else {
            HttpMessage {
                http_verb: None,
                http_version: None,
                request_path: None,
                raw_message: s.to_owned(),
            }
        }
    }
}

/// The whitespace-separated tokens of `line`, in order.
#[verifier::loop_isolation(false)]
pub fn tokenize(line: &str) -> (toks: Vec<String>)
    ensures
        toks.deep_view() =~~= spec_tokens(line@),
{
    let n = line.unicode_len();
    let mut toks: Vec<String> = Vec::new();
    let mut i: usize = 0;
    proof {
        assert(line@.skip(0) =~= line@);
        assert(toks.deep_view() =~~= Seq::<Seq<char>>::empty());
    }
    while i < n
        invariant
            0 <= i <= n,
            spec_tokens(line@) =~~= toks.deep_view() + spec_tokens(line@.skip(i as int)),
        decreases n - i,
    {
        if is_ws_char(line.get_char(i)) {
            proof {
                assert(line@.skip(i as int).skip(1) =~= line@.skip(i as int + 1));
            }
            i += 1;
        } else {
            let start = i;
            i += 1;
            while i < n && !is_ws_char(line.get_char(i))
                invariant
                    start < i <= n,
                    forall|k: int| start <= k < i ==> !is_ws(line@[k]),
                decreases n - i,
            {
                i += 1;
            }
            let t = line.substring_char(start, i).to_owned();
            proof {
                let rest = line@.skip(start as int);
                let k = i - start;
                assert forall|j: int| 0 <= j < k implies !is_ws(rest[j]) by {
                    assert(rest[j] == line@[start + j]);
                }
                if k < rest.len() {
                    assert(rest[k] == line@[i as int]);
                }
                lemma_tok_len_is(rest, k as int);
                assert(rest.take(k as int) =~= t@);
                assert(rest.skip(k as int) =~= line@.skip(i as int));
                assert(spec_tokens(rest) =~~= seq![t@] + spec_tokens(line@.skip(i as int)));
            }
            toks.push(t);
            proof {
                assert(toks.deep_view() =~~= toks.deep_view().drop_last().push(t@));
            }
        }
    }
    proof {
        assert(line@.skip(n as int) =~= Seq::<char>::empty());
    }
    toks
}

} // verus!
