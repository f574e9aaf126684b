//! Byte patterns: a textual description is tokenized into literal bytes and
//! wildcards, and a byte range is scanned for the first position the pattern
//! matches.

use vstd::prelude::*;

use crate::ResolveError;

verus! {

/// One matcher token: a literal byte that must match exactly, or a wildcard
/// that matches any byte.
#[derive(Clone, Copy, Debug, PartialEq, Eq, Structural)]
pub enum PatToken {
    Byte(u8),
    Any,
}

/// A parsed byte pattern. Invariant: non-empty (see [`Pattern::wf`]).
#[derive(Debug)]
pub struct Pattern {
    pub tokens: Vec<PatToken>,
}

impl Pattern {
    /// A pattern is well-formed when it holds at least one token.
    pub open spec fn wf(&self) -> bool {
        self.tokens@.len() > 0
    }
}

/// Whether one token accepts one byte.
pub open spec fn token_matches(t: PatToken, b: u8) -> bool {
    match t {
        PatToken::Byte(x) => x == b,
        PatToken::Any => true,
    }
}

/// Whether the pattern matches the haystack at offset `k`: the window fits,
/// every literal token equals the corresponding byte, and every wildcard
/// accepts unconditionally.
pub open spec fn matches_at(hay: Seq<u8>, pat: Seq<PatToken>, k: int) -> bool {
    &&& 0 <= k
    &&& k + pat.len() <= hay.len()
    &&& forall|i: int| 0 <= i < pat.len() ==> token_matches(pat[i], hay[k + i])
}

/// The pattern matches at `k` and at no earlier offset.
pub open spec fn is_first_match(hay: Seq<u8>, pat: Seq<PatToken>, k: int) -> bool {
    &&& matches_at(hay, pat, k)
    &&& forall|j: int| 0 <= j < k ==> !matches_at(hay, pat, j)
}

/// The first matching offset at or after `k`, if any.
pub open spec fn scan_offset_from(hay: Seq<u8>, pat: Seq<PatToken>, k: int) -> Option<int>
    decreases hay.len() - k + 1,
{
    if k < 0 || k + pat.len() > hay.len() {
        None
    } else if matches_at(hay, pat, k) {
        Some(k)
    } else {
        scan_offset_from(hay, pat, k + 1)
    }
}

/// The offset of the first match of the pattern in the haystack, if any.
pub open spec fn scan_offset(hay: Seq<u8>, pat: Seq<PatToken>) -> Option<int> {
    scan_offset_from(hay, pat, 0)
}

/// ASCII hexadecimal digit.
pub open spec fn is_hex_digit(b: u8) -> bool {
    ||| 48 <= b <= 57  // '0'..='9'
    ||| 65 <= b <= 70  // 'A'..='F'
    ||| 97 <= b <= 102  // 'a'..='f'
}

/// Value of an ASCII hexadecimal digit.
pub open spec fn hex_val(b: u8) -> int {
    if 48 <= b <= 57 {
        b - 48
    } else if 65 <= b <= 70 {
        b - 55
    } else {
        b - 87
    }
}

/// Whether a valid token stands at the head of `s`: `?` or `??` (wildcard),
/// or two hexadecimal digits (literal byte).
pub open spec fn head_token_valid(s: Seq<u8>) -> bool {
    if s.len() >= 1 && s[0] == 63 {
        true
    } else {
        s.len() >= 2 && is_hex_digit(s[0]) && is_hex_digit(s[1])
    }
}

/// Length in bytes of the token at the head of `s` (meaningful only when
/// `head_token_valid(s)` holds).
pub open spec fn head_token_len(s: Seq<u8>) -> int {
    if s.len() >= 1 && s[0] == 63 {
        if s.len() >= 2 && s[1] == 63 {
            2
        } else {
            1
        }
    } else {
        2
    }
}

/// The token at the head of `s` (meaningful only when `head_token_valid(s)`
/// holds).
pub open spec fn head_token(s: Seq<u8>) -> PatToken {
    if s.len() >= 1 && s[0] == 63 {
        PatToken::Any
    } else {
        PatToken::Byte((16 * hex_val(s[0]) + hex_val(s[1])) as u8)
    }
}

/// The grammar of a textual pattern: one token (`?`, `??`, or a hexadecimal
/// byte), then zero or more further tokens, each preceded by a single space.
/// `None` when the text cannot be tokenized (the empty text included).
pub open spec fn parse_tokens(s: Seq<u8>) -> Option<Seq<PatToken>>
    decreases s.len(),
{
    if !head_token_valid(s) {
        None
    } else {
        let l = head_token_len(s);
        let t = head_token(s);
        if s.len() == l {
            Some(seq![t])
        } else if s[l] == 32 {
            match parse_tokens(s.skip(l + 1)) {
                Some(rest) => Some(seq![t] + rest),
                None => None,
            }
        } else {
            None
        }
    }
}

/// Every successful parse yields at least one token.
pub proof fn lemma_parse_nonempty(s: Seq<u8>)
    requires
        parse_tokens(s) is Some,
    ensures
        parse_tokens(s)->Some_0.len() >= 1,
    decreases s.len(),
{
}

/// Parses the tail of `text` from byte offset `i` on, following
/// [`parse_tokens`] exactly.
fn parse_from(text: &[u8], i: usize) -> (r: Option<Vec<PatToken>>)
    requires
        i <= text@.len(),
    ensures
        match r {
            Some(v) => parse_tokens(text@.skip(i as int)) == Some(v@),
            None => parse_tokens(text@.skip(i as int)) is None,
        },
    decreases text@.len() - i,
{
    let ghost s = text@.skip(i as int);
    let n = text.len();
    if i >= n {
        return None;
    }
    assert(s[0] == text@[i as int]);
    let (tok, tok_len): (PatToken, usize) = if text[i] == 63 {
        if i + 1 < n && text[i + 1] == 63 {
            (PatToken::Any, 2)
        } else {
            (PatToken::Any, 1)
        }
    } else {
        if i + 1 < n && hex_digit(text[i]).is_some() && hex_digit(text[i + 1]).is_some() {
            let hi = hex_digit(text[i]).unwrap();
            let lo = hex_digit(text[i + 1]).unwrap();
            (PatToken::Byte(16 * hi + lo), 2)
        } else {
            return None;
        }
    };
    assert(head_token_valid(s));
    assert(head_token_len(s) == tok_len as int);
    assert(head_token(s) == tok);
    if i + tok_len == n {
        let mut v: Vec<PatToken> = Vec::new();
        v.push(tok);
        assert(v@ =~= seq![tok]);
        return Some(v);
    }
    assert(s.len() > tok_len as int);
    if text[i + tok_len] != 32 {
        return None;
    }
    assert(s[tok_len as int] == 32);
    let rest = parse_from(text, i + tok_len + 1);
    assert(text@.skip(i + tok_len + 1) =~= s.skip(tok_len + 1));
    match rest {
        Some(mut v) => {
            v.insert(0, tok);
            assert(v@ =~= seq![tok] + parse_tokens(s.skip(tok_len + 1))->Some_0);
            Some(v)
        },
        None => None,
    }
}

/// Value of an ASCII hexadecimal digit, or `None`.
fn hex_digit(b: u8) -> (r: Option<u8>)
    ensures
        r is Some <==> is_hex_digit(b),
        r is Some ==> r->Some_0 == hex_val(b) && r->Some_0 <= 15,
{
    if 48 <= b && b <= 57 {
        Some(b - 48)
    } else if 65 <= b && b <= 70 {
        Some(b - 55)
    } else if 97 <= b && b <= 102 {
        Some(b - 87)
    } else {
        None
    }
}

/// Tokenizes a textual pattern description. Returns `MalformedPattern`
/// exactly when the text does not follow the grammar of [`parse_tokens`].
pub fn parse_pattern(text: &[u8]) -> (r: Result<Pattern, ResolveError>)
    ensures
        match r {
            Ok(p) => parse_tokens(text@) == Some(p.tokens@) && p.wf(),
            Err(e) => e == ResolveError::MalformedPattern && parse_tokens(text@) is None,
        },
{
    assert(text@.skip(0) =~= text@);
    match parse_from(text, 0) {
        Some(v) => {
            proof {
                lemma_parse_nonempty(text@);
            }
            Ok(Pattern { tokens: v })
        },
        None => Err(ResolveError::MalformedPattern),
    }
}

/// Searches `hay` for the first offset where the pattern matches; fails with
/// `PatternNotFound` exactly when no offset matches.
pub fn scan(hay: &[u8], pat: &Pattern) -> (r: Result<usize, ResolveError>)
    requires
        pat.wf(),
    ensures
        match r {
            Ok(k) => is_first_match(hay@, pat.tokens@, k as int) && scan_offset(
                hay@,
                pat.tokens@,
            ) == Some(k as int),
            Err(e) => e == ResolveError::PatternNotFound && scan_offset(hay@, pat.tokens@) is None
                && forall|k: int| !matches_at(hay@, pat.tokens@, k),
        },
{
    let hlen = hay.len();
    let plen = pat.tokens.len();
    if plen > hlen {
        return Err(ResolveError::PatternNotFound);
    }
    let mut k: usize = 0;
    while k <= hlen - plen
        invariant
            plen == pat.tokens@.len(),
            hlen == hay@.len(),
            plen <= hlen,
            k <= hlen - plen + 1,
            scan_offset(hay@, pat.tokens@) == scan_offset_from(hay@, pat.tokens@, k as int),
            forall|j: int| 0 <= j < k ==> !matches_at(hay@, pat.tokens@, j),
        decreases hlen - plen - k + 1,
    {
        let mut i: usize = 0;
        let mut ok = true;
        while i < plen
            invariant
                plen == pat.tokens@.len(),
                hlen == hay@.len(),
                k + plen <= hlen,
                i <= plen,
                ok <==> forall|j: int| 0 <= j < i ==> token_matches(
                    pat.tokens@[j],
                    hay@[k + j],
                ),
            decreases plen - i,
        {
            let matched = match pat.tokens[i] {
                PatToken::Byte(x) => x == hay[k + i],
                PatToken::Any => true,
            };
            if !matched {
                ok = false;
                i = plen;
            } else {
                i = i + 1;
            }
        }
        if ok {
            assert(matches_at(hay@, pat.tokens@, k as int));
            return Ok(k);
        }
        assert(!matches_at(hay@, pat.tokens@, k as int));
        k = k + 1;
    }
    assert(forall|j: int| matches_at(hay@, pat.tokens@, j) ==> 0 <= j <= hlen - plen);
    Err(ResolveError::PatternNotFound)
}

} // verus!
