use vstd::prelude::*;

use crate::text::{chars_of, same_chars, sub_chars};
use crate::url::{decode_chars, is_encoded_char, law_decode_encode_ascii, law_encoded_chars, url_decoded, url_encoded};
use vstd::utf8::is_ascii_chars;

verus! {

/// Unicode white space, as `char::is_whitespace` tells it.
pub open spec fn is_ws(c: char) -> bool {
    ||| '\u{9}' <= c <= '\u{d}'
    ||| c == ' '
    ||| c == '\u{85}'
    ||| c == '\u{a0}'
    ||| c == '\u{1680}'
    ||| '\u{2000}' <= c <= '\u{200a}'
    ||| c == '\u{2028}'
    ||| c == '\u{2029}'
    ||| c == '\u{202f}'
    ||| c == '\u{205f}'
    ||| c == '\u{3000}'
}

fn is_ws_exec(c: char) -> (r: bool)
    ensures
        r == is_ws(c),
{
    ('\u{9}' <= c && c <= '\u{d}') || c == ' ' || c == '\u{85}' || c == '\u{a0}' || c
        == '\u{1680}' || ('\u{2000}' <= c && c <= '\u{200a}') || c == '\u{2028}' || c
        == '\u{2029}' || c == '\u{202f}' || c == '\u{205f}' || c == '\u{3000}'
}

/// The words of a text: its maximal runs of characters that are not white
/// space, in order (what `str::split_whitespace` yields).
pub open spec fn words(s: Seq<char>) -> Seq<Seq<char>>
    decreases s.len(),
{
    if s.len() == 0 {
        seq![]
    } else {
        let w = words(s.drop_last());
        let c = s.last();
        if is_ws(c) {
            w
        } else if s.len() >= 2 && !is_ws(s[s.len() - 2]) {
            w.update(w.len() - 1, w.last().push(c))
        } else {
            w.push(seq![c])
        }
    }
}

proof fn lemma_words_nonempty(s: Seq<char>)
    requires
        s.len() > 0,
        !is_ws(s.last()),
    ensures
        words(s).len() > 0,
    decreases s.len(),
{
    if s.len() >= 2 && !is_ws(s[s.len() - 2]) {
        assert(s.drop_last().last() == s[s.len() - 2]);
        lemma_words_nonempty(s.drop_last());
    }
}

/// The second word of a text, if it has two.
fn second_word(cs: &Vec<char>) -> (r: Option<Vec<char>>)
    ensures
        match r {
            Some(w) => words(cs@).len() >= 2 && w@ == words(cs@)[1],
            None => words(cs@).len() < 2,
        },
{
    let mut count: usize = 0;
    let mut second: Vec<char> = Vec::new();
    let mut i: usize = 0;
    while i < cs.len()
        invariant
            i <= cs@.len(),
            count <= i,
            count == words(cs@.take(i as int)).len(),
            count >= 2 ==> second@ == words(cs@.take(i as int))[1],
        decreases cs@.len() - i,
    {
        let c = cs[i];
        let ghost pre = cs@.take(i as int);
        let ghost next = cs@.take(i + 1);
        assert(next.drop_last() =~= pre);
        assert(next.last() == c);
        if !is_ws_exec(c) {
            if i > 0 && !is_ws_exec(cs[i - 1]) {
                assert(next[next.len() - 2] == cs@[i - 1]);
                assert(pre.last() == cs@[i - 1]);
                proof {
                    lemma_words_nonempty(pre);
                }
                if count == 2 {
                    second.push(c);
                }
            } else {
                count += 1;
                if count == 2 {
                    second = Vec::new();
                    second.push(c);
                    assert(second@ =~= seq![c]);
                }
            }
        }
        i += 1;
    }
    assert(cs@.take(cs@.len() as int) =~= cs@);
    if count >= 2 {
        Some(second)
    } else {
        None
    }
}

/// The pieces of a text between the occurrences of `sep`, in order (what
/// `str::split` yields for one character): one more piece than separators.
pub open spec fn split_on(s: Seq<char>, sep: char) -> Seq<Seq<char>>
    decreases s.len(),
{
    if s.len() == 0 {
        seq![seq![]]
    } else {
        let p = split_on(s.drop_last(), sep);
        if s.last() == sep {
            p.push(seq![])
        } else {
            p.update(p.len() - 1, p.last().push(s.last()))
        }
    }
}

proof fn lemma_split_nonempty(s: Seq<char>, sep: char)
    ensures
        split_on(s, sep).len() >= 1,
    decreases s.len(),
{
    if s.len() > 0 {
        lemma_split_nonempty(s.drop_last(), sep);
    }
}

/// The characters of each vector.
pub open spec fn chars_view(v: Seq<Vec<char>>) -> Seq<Seq<char>> {
    v.map_values(|x: Vec<char>| x@)
}

/// Splits characters at each `sep` (see `split_on`).
fn split_chars(cs: &Vec<char>, sep: char) -> (r: Vec<Vec<char>>)
    ensures
        chars_view(r@) == split_on(cs@, sep),
{
    let mut done: Vec<Vec<char>> = Vec::new();
    let mut cur: Vec<char> = Vec::new();
    let mut i: usize = 0;
    assert(cs@.take(0) =~= Seq::<char>::empty());
    assert(chars_view(done@).push(cur@) =~= seq![Seq::<char>::empty()]);
    while i < cs.len()
        invariant
            i <= cs@.len(),
            chars_view(done@).push(cur@) == split_on(cs@.take(i as int), sep),
        decreases cs@.len() - i,
    {
        let c = cs[i];
        let ghost pre = cs@.take(i as int);
        let ghost next = cs@.take(i + 1);
        assert(next.drop_last() =~= pre);
        assert(next.last() == c);
        let ghost old_done = chars_view(done@);
        let ghost old_cur = cur@;
        if c == sep {
            done.push(cur);
            cur = Vec::new();
            assert(chars_view(done@) =~= old_done.push(old_cur));
            assert(chars_view(done@).push(cur@) =~= old_done.push(old_cur).push(seq![]));
        } else {
            cur.push(c);
            assert(chars_view(done@).push(cur@) =~= old_done.push(old_cur).update(
                old_done.len() as int,
                old_cur.push(c),
            ));
        }
        i += 1;
    }
    assert(cs@.take(cs@.len() as int) =~= cs@);
    let ghost old_done = chars_view(done@);
    let ghost old_cur = cur@;
    done.push(cur);
    assert(chars_view(done@) =~= old_done.push(old_cur));
    done
}

/// Whether `i` is the first position of `=` in `pair`.
pub open spec fn first_eq_at(pair: Seq<char>, i: int) -> bool {
    0 <= i < pair.len() && pair[i] == '=' && forall|j: int| 0 <= j < i ==> pair[j] != '='
}

/// A `key=value` pair split at its first `=`; no pair without a `=`.
pub open spec fn key_value(pair: Seq<char>) -> Option<(Seq<char>, Seq<char>)> {
    if exists|i: int| first_eq_at(pair, i) {
        let i = choose|i: int| first_eq_at(pair, i);
        Some((pair.take(i), pair.skip(i + 1)))
    } else {
        None
    }
}

fn split_pair(p: &Vec<char>) -> (r: Option<(Vec<char>, Vec<char>)>)
    ensures
        match r {
            Some((k, v)) => key_value(p@) == Some((k@, v@)),
            None => key_value(p@) is None,
        },
{
    let mut i: usize = 0;
    while i < p.len()
        invariant
            i <= p@.len(),
            forall|j: int| 0 <= j < i ==> p@[j] != '=',
        decreases p@.len() - i,
    {
        if p[i] == '=' {
            assert(first_eq_at(p@, i as int));
            let k = sub_chars(p, 0, i);
            let v = sub_chars(p, i + 1, p.len());
            proof {
                let c = choose|c: int| first_eq_at(p@, c);
                assert(c == i);
                assert(k@ =~= p@.take(i as int));
                assert(v@ =~= p@.skip(i + 1));
            }
            return Some((k, v));
        }
        i += 1;
    }
    assert(!exists|c: int| first_eq_at(p@, c));
    None
}

/// The `code` (decoded) and `state` of the last pairs that carry them.
pub open spec fn callback_params(pairs: Seq<Seq<char>>) -> (Option<Seq<char>>, Option<Seq<char>>)
    decreases pairs.len(),
{
    if pairs.len() == 0 {
        (None, None)
    } else {
        let before = callback_params(pairs.drop_last());
        match key_value(pairs.last()) {
            Some((k, v)) => if k == "code"@ {
                (Some(url_decoded(v)), before.1)
            } else if k == "state"@ {
                (before.0, Some(v))
            } else {
                before
            },
            None => before,
        }
    }
}

/// Why an OAuth callback is refused.
#[derive(Debug, Clone, Copy, PartialEq, Eq, Structural)]
pub enum CallbackError {
    /// The request line has no second word (the path).
    InvalidRequest,
    /// The `state` is missing or differs from the one sent.
    StateMismatch,
    /// There is no `code`.
    MissingCode,
}

impl CallbackError {
    /// The message that tells the user what went wrong.
    pub fn message(&self) -> (r: String)
        ensures
            r@ == (match self {
                CallbackError::InvalidRequest => "Invalid HTTP request"@,
                CallbackError::StateMismatch => "State mismatch \u{2014} possible CSRF attack"@,
                CallbackError::MissingCode => "No code in callback"@,
            }),
    {
        match self {
            CallbackError::InvalidRequest => String::from_str("Invalid HTTP request"),
            CallbackError::StateMismatch => String::from_str(
                "State mismatch \u{2014} possible CSRF attack",
            ),
            CallbackError::MissingCode => String::from_str("No code in callback"),
        }
    }
}

/// The query of a request line: the text after the first `?` of its second
/// word, up to a second `?`; empty without a `?`.
pub open spec fn callback_query(path: Seq<char>) -> Seq<char> {
    let parts = split_on(path, '?');
    if parts.len() > 1 {
        parts[1]
    } else {
        seq![]
    }
}

/// What the callback's request line gives: the authorization code when the
/// line has a path, the state matches and a code is there.
pub open spec fn callback_result(line: Seq<char>, expected_state: Seq<char>) -> Result<Seq<char>, CallbackError> {
    let w = words(line);
    if w.len() < 2 {
        Err(CallbackError::InvalidRequest)
    } else {
        let params = callback_params(split_on(callback_query(w[1]), '&'));
        if params.1 != Some(expected_state) {
            Err(CallbackError::StateMismatch)
        } else {
            match params.0 {
                Some(code) => Ok(code),
                None => Err(CallbackError::MissingCode),
            }
        }
    }
}

/// Parses the request line of the OAuth callback, `GET /callback?code=..&state=.. HTTP/1.1`
/// (see `callback_result`).
pub fn parse_callback(request_line: &str, expected_state: &str) -> (r: Result<String, CallbackError>)
    ensures
        match r {
            Ok(code) => callback_result(request_line@, expected_state@) == Ok::<Seq<char>, CallbackError>(code@),
            Err(e) => callback_result(request_line@, expected_state@) == Err::<Seq<char>, CallbackError>(e),
        },
{
    let line = chars_of(request_line);
    let path = match second_word(&line) {
        Some(p) => p,
        None => return Err(CallbackError::InvalidRequest),
    };
    let parts = split_chars(&path, '?');
    proof {
        lemma_split_nonempty(path@, '?');
    }
    let query = if parts.len() > 1 {
        sub_chars(&parts[1], 0, parts[1].len())
    } else {
        Vec::new()
    };
    assert(query@ =~= callback_query(path@));
    let pairs = split_chars(&query, '&');
    let code_key = chars_of("code");
    let state_key = chars_of("state");
    let mut code: Option<String> = None;
    let mut state: Option<Vec<char>> = None;
    let mut i: usize = 0;
    while i < pairs.len()
        invariant
            i <= pairs@.len(),
            code_key@ == "code"@,
            state_key@ == "state"@,
            chars_view(pairs@) == split_on(query@, '&'),
            callback_params(chars_view(pairs@).take(i as int)) == (
                match code {
                    Some(c) => Some(c@),
                    None => None,
                },
                match state {
                    Some(s) => Some(s@),
                    None => None::<Seq<char>>,
                },
            ),
        decreases pairs@.len() - i,
    {
        let ghost all = chars_view(pairs@);
        assert(all.take(i + 1).drop_last() =~= all.take(i as int));
        assert(all.take(i + 1).last() == pairs@[i as int]@);
        match split_pair(&pairs[i]) {
            Some((k, v)) => {
                if same_chars(&k, &code_key) {
                    code = Some(decode_chars(&v));
                } else if same_chars(&k, &state_key) {
                    state = Some(v);
                }
            },
            None => {},
        }
        i += 1;
    }
    assert(chars_view(pairs@).take(pairs@.len() as int) =~= chars_view(pairs@));
    let expected = chars_of(expected_state);
    let state_ok = match &state {
        Some(s) => same_chars(s, &expected),
        None => false,
    };
    if !state_ok {
        return Err(CallbackError::StateMismatch);
    }
    match code {
        Some(c) => Ok(c),
        None => Err(CallbackError::MissingCode),
    }
}

/// No character of `s` is white space, `?` or `&`.
pub open spec fn plain_field(s: Seq<char>) -> bool {
    forall|i: int| 0 <= i < s.len() ==> !is_ws(#[trigger] s[i]) && s[i] != '?' && s[i] != '&'
}

proof fn lemma_words_single(a: Seq<char>)
    requires
        a.len() > 0,
        forall|i: int| 0 <= i < a.len() ==> !is_ws(#[trigger] a[i]),
    ensures
        words(a) == seq![a],
    decreases a.len(),
{
    if a.len() == 1 {
        assert(a.drop_last() =~= Seq::<char>::empty());
        assert(words(a.drop_last()) =~= Seq::<Seq<char>>::empty());
        assert(seq![a[0]] =~= a);
        assert(words(a) =~= seq![a]);
    } else {
        lemma_words_single(a.drop_last());
        assert(a.drop_last().push(a.last()) =~= a);
        assert(a[a.len() - 2] == a.drop_last().last());
        assert(words(a) =~= seq![a]);
    }
}

proof fn lemma_words_concat(x: Seq<char>, c: char, y: Seq<char>)
    requires
        is_ws(c),
    ensures
        words(x + seq![c] + y) == words(x) + words(y),
    decreases y.len(),
{
    let s = x + seq![c] + y;
    if y.len() == 0 {
        assert(s.drop_last() =~= x);
        assert(s.last() == c);
        assert(words(x) + words(y) =~= words(x));
    } else {
        let y1 = y.drop_last();
        let d = y.last();
        lemma_words_concat(x, c, y1);
        assert(s.drop_last() =~= x + seq![c] + y1);
        assert(s.last() == d);
        if is_ws(d) {
        } else if y1.len() > 0 && !is_ws(y1.last()) {
            lemma_words_nonempty(y1);
            assert(s[s.len() - 2] == y1.last());
            assert(y[y.len() - 2] == y1.last());
            assert(words(s) =~= words(x) + words(y));
        } else {
            if y1.len() > 0 {
                assert(s[s.len() - 2] == y1.last());
                assert(y[y.len() - 2] == y1.last());
            } else {
                assert(s[s.len() - 2] == c);
                assert(y1 =~= Seq::<char>::empty());
            }
            assert(words(s) =~= words(x) + words(y));
        }
    }
}

proof fn lemma_split_single(a: Seq<char>, sep: char)
    requires
        forall|i: int| 0 <= i < a.len() ==> #[trigger] a[i] != sep,
    ensures
        split_on(a, sep) == seq![a],
    decreases a.len(),
{
    if a.len() > 0 {
        lemma_split_single(a.drop_last(), sep);
        assert(a.drop_last().push(a.last()) =~= a);
        assert(split_on(a, sep) =~= seq![a]);
    } else {
        assert(a =~= Seq::<char>::empty());
    }
}

proof fn lemma_split_concat(x: Seq<char>, sep: char, y: Seq<char>)
    ensures
        split_on(x + seq![sep] + y, sep) == split_on(x, sep) + split_on(y, sep),
    decreases y.len(),
{
    let s = x + seq![sep] + y;
    if y.len() == 0 {
        assert(s.drop_last() =~= x);
        assert(split_on(x, sep).push(seq![]) =~= split_on(x, sep) + seq![seq![]]);
    } else {
        lemma_split_concat(x, sep, y.drop_last());
        assert(s.drop_last() =~= x + seq![sep] + y.drop_last());
        lemma_split_nonempty(y.drop_last(), sep);
        assert(split_on(s, sep) =~= split_on(x, sep) + split_on(y, sep));
    }
}

proof fn lemma_key_value_at(key: Seq<char>, value: Seq<char>)
    requires
        forall|i: int| 0 <= i < key.len() ==> #[trigger] key[i] != '=',
    ensures
        key_value(key + seq!['='] + value) == Some((key, value)),
{
    let p = key + seq!['='] + value;
    assert(first_eq_at(p, key.len() as int));
    let i = choose|i: int| first_eq_at(p, i);
    assert(i == key.len());
    assert(p.take(i) =~= key);
    assert(p.skip(i + 1) =~= value);
}

/// A callback request line whose path carries `code` and then `state`
/// gives the decoded code when the state is the expected one: the method,
/// the path before `?`, the code and the state hold no white space, `?` or
/// `&`, and whatever follows the path after a space is ignored.
pub proof fn law_callback_gives_code(
    method: Seq<char>,
    route: Seq<char>,
    code: Seq<char>,
    state: Seq<char>,
    rest: Seq<char>,
)
    requires
        method.len() > 0,
        plain_field(method),
        plain_field(route),
        plain_field(code),
        plain_field(state),
    ensures
        callback_result(
            method + seq![' '] + route + seq!['?'] + "code="@ + code + seq!['&'] + "state="@ + state
                + seq![' '] + rest,
            state,
        ) == Ok::<Seq<char>, CallbackError>(url_decoded(code)),
{
    reveal_strlit("code=");
    reveal_strlit("state=");
    reveal_strlit("code");
    reveal_strlit("state");
    let code_pair = "code"@ + seq!['='] + code;
    let state_pair = "state"@ + seq!['='] + state;
    let query = code_pair + seq!['&'] + state_pair;
    let path = route + seq!['?'] + query;
    let line = method + seq![' '] + path + seq![' '] + rest;
    assert(line =~= method + seq![' '] + route + seq!['?'] + "code="@ + code + seq!['&']
        + "state="@ + state + seq![' '] + rest);
    // The path is the second word.
    assert forall|i: int| 0 <= i < path.len() implies !is_ws(#[trigger] path[i]) by {
        if i < route.len() {
            assert(path[i] == route[i]);
        } else if i == route.len() {
        } else if i < route.len() + 1 + 5 {
        } else if i < route.len() + 1 + 5 + code.len() {
            assert(path[i] == code[i - route.len() - 6]);
        } else if i < route.len() + 1 + 5 + code.len() + 1 + 6 {
        } else {
            assert(path[i] == state[i - route.len() - 6 - code.len() - 7]);
        }
    }
    lemma_words_single(method);
    lemma_words_single(path);
    lemma_words_concat(method + seq![' '] + path, ' ', rest);
    lemma_words_concat(method, ' ', path);
    assert(line =~= (method + seq![' '] + path) + seq![' '] + rest);
    assert(words(line)[1] == path);
    // The query lies between the first `?` and the end.
    assert forall|i: int| 0 <= i < route.len() implies #[trigger] route[i] != '?' by {}
    assert forall|i: int| 0 <= i < query.len() implies #[trigger] query[i] != '?' by {
        if i >= 5 && i < 5 + code.len() {
            assert(query[i] == code[i - 5]);
        } else if i >= 5 + code.len() + 7 {
            assert(query[i] == state[i - 5 - code.len() - 7]);
        }
    }
    lemma_split_single(route, '?');
    lemma_split_single(query, '?');
    lemma_split_concat(route, '?', query);
    assert(callback_query(path) == query);
    // The query holds the two pairs.
    assert forall|i: int| 0 <= i < code_pair.len() implies #[trigger] code_pair[i] != '&' by {
        if i >= 5 {
            assert(code_pair[i] == code[i - 5]);
        }
    }
    assert forall|i: int| 0 <= i < state_pair.len() implies #[trigger] state_pair[i] != '&' by {
        if i >= 6 {
            assert(state_pair[i] == state[i - 6]);
        }
    }
    lemma_split_single(code_pair, '&');
    lemma_split_single(state_pair, '&');
    lemma_split_concat(code_pair, '&', state_pair);
    let pairs = split_on(query, '&');
    assert(pairs =~= seq![code_pair, state_pair]);
    lemma_key_value_at("code"@, code);
    lemma_key_value_at("state"@, state);
    assert(pairs.drop_last() =~= seq![code_pair]);
    assert(seq![code_pair].drop_last() =~= Seq::<Seq<char>>::empty());
    assert("state"@ != "code"@) by {
        assert("state"@.len() != "code"@.len());
    }
    assert(callback_params(Seq::<Seq<char>>::empty()) == (None::<Seq<char>>, None::<Seq<char>>));
    assert(callback_params(seq![code_pair]) == (Some(url_decoded(code)), None::<Seq<char>>));
    assert(callback_params(pairs) == (Some(url_decoded(code)), Some(state)));
}

/// An ASCII authorization code that the server percent-encodes into the
/// callback comes out of the parser as it was, when the state matches.
pub proof fn law_callback_gives_encoded_code(
    method: Seq<char>,
    route: Seq<char>,
    code: Seq<char>,
    state: Seq<char>,
    rest: Seq<char>,
)
    requires
        method.len() > 0,
        plain_field(method),
        plain_field(route),
        is_ascii_chars(code),
        plain_field(state),
    ensures
        callback_result(
            method + seq![' '] + route + seq!['?'] + "code="@ + url_encoded(code) + seq!['&']
                + "state="@ + state + seq![' '] + rest,
            state,
        ) == Ok::<Seq<char>, CallbackError>(code),
{
    law_encoded_chars(code);
    let e = url_encoded(code);
    assert forall|i: int| 0 <= i < e.len() implies !is_ws(#[trigger] e[i]) && e[i] != '?' && e[i] != '&' by {
        assert(is_encoded_char(e[i]));
    }
    law_callback_gives_code(method, route, e, state, rest);
    law_decode_encode_ascii(code);
}

} // verus!
