//! The loopback OAuth callback: which HTTP requests carry the authorization code.

use vstd::prelude::*;

use crate::text::{
    ascii_fold, chars_of, decimal, digit_char, eq_ignore_ascii_case, fold_ascii, is_unicode_whitespace,
    is_whitespace, push_decimal, string_from_chars,
};
use crate::urls::{decode_query, form_urlencoded_pairs, pairs_view, parse_url, url_parse, UrlPartsView};

verus! {

/// The first index at or after `i` that holds `c`, or `s.len()`.
pub open spec fn next_char(s: Seq<char>, i: int, c: char) -> int
    decreases s.len() - i,
{
    if i < 0 || i >= s.len() {
        s.len() as int
    } else if s[i] == c {
        i
    } else {
        next_char(s, i + 1, c)
    }
}

/// The first index at or after `i` that holds no whitespace, or `s.len()`.
pub open spec fn skip_whitespace(s: Seq<char>, i: int) -> int
    decreases s.len() - i,
{
    if i < 0 || i >= s.len() {
        s.len() as int
    } else if is_unicode_whitespace(s[i]) {
        skip_whitespace(s, i + 1)
    } else {
        i
    }
}

/// The first index at or after `i` that holds whitespace, or `s.len()`.
pub open spec fn next_whitespace(s: Seq<char>, i: int) -> int
    decreases s.len() - i,
{
    if i < 0 || i >= s.len() {
        s.len() as int
    } else if is_unicode_whitespace(s[i]) {
        i
    } else {
        next_whitespace(s, i + 1)
    }
}

/// `skip_whitespace` stays within `s` and stops at a character that is not whitespace.
pub proof fn lemma_skip_whitespace_bounds(s: Seq<char>, i: int)
    requires
        0 <= i <= s.len(),
    ensures
        i <= skip_whitespace(s, i) <= s.len(),
        skip_whitespace(s, i) < s.len() ==> !is_unicode_whitespace(s[skip_whitespace(s, i)]),
    decreases s.len() - i,
{
    if i < s.len() && is_unicode_whitespace(s[i]) {
        lemma_skip_whitespace_bounds(s, i + 1);
    }
}

/// `next_whitespace` stays within `s` and moves past a character that is not whitespace.
pub proof fn lemma_next_whitespace_bounds(s: Seq<char>, i: int)
    requires
        0 <= i <= s.len(),
    ensures
        i <= next_whitespace(s, i) <= s.len(),
        i < s.len() && !is_unicode_whitespace(s[i]) ==> i < next_whitespace(s, i),
    decreases s.len() - i,
{
    if i < s.len() && !is_unicode_whitespace(s[i]) {
        lemma_next_whitespace_bounds(s, i + 1);
    }
}

/// The whitespace-separated words of `s` from index `i` on (`str::split_whitespace`).
pub open spec fn words_from(s: Seq<char>, i: int) -> Seq<Seq<char>>
    decreases s.len() - i,
{
    if i < 0 || i > s.len() {
        Seq::empty()
    } else {
        let j = skip_whitespace(s, i);
        if j >= s.len() {
            Seq::empty()
        } else {
            let k = next_whitespace(s, j);
            proof {
                lemma_skip_whitespace_bounds(s, i);
                lemma_next_whitespace_bounds(s, j);
            }
            seq![s.subrange(j, k)] + words_from(s, k)
        }
    }
}

/// The whitespace-separated words of `s`.
pub open spec fn words(s: Seq<char>) -> Seq<Seq<char>> {
    words_from(s, 0)
}

/// The first line of `s` (`str::lines().next()`): up to the first `\n`, without a `\r` that
/// ends it; `None` for an empty text.
pub open spec fn first_line(s: Seq<char>) -> Option<Seq<char>> {
    if s.len() == 0 {
        None
    } else {
        Some(s.subrange(0, line_end(s, 0)))
    }
}

/// Whether a line of `s` starts at `p`.
pub open spec fn is_line_start(s: Seq<char>, p: int) -> bool {
    0 <= p < s.len() && (p == 0 || s[p - 1] == '\n')
}

/// Where the line that starts at `p` ends: at the next `\n`, before a `\r` that precedes it;
/// a last line without `\n` keeps all its characters.
pub open spec fn line_end(s: Seq<char>, p: int) -> int {
    let e = next_char(s, p, '\n');
    if e < s.len() && e > p && s[e - 1] == '\r' {
        e - 1
    } else {
        e
    }
}

/// The line of `s` that starts at `p`.
pub open spec fn line_at(s: Seq<char>, p: int) -> Seq<char> {
    s.subrange(p, line_end(s, p))
}

/// Whether the line at `p` starts with `host:`, ignoring ASCII case.
pub open spec fn is_host_line(s: Seq<char>, p: int) -> bool {
    line_at(s, p).len() >= 5 && eq_ignore_ascii_case(line_at(s, p).take(5), "host:"@)
}

/// How many lines of `s` that start before `n` are `Host` header lines.
pub open spec fn host_line_count(s: Seq<char>, n: int) -> nat
    decreases n,
{
    if n <= 0 {
        0
    } else {
        host_line_count(s, n - 1) + if is_line_start(s, n - 1) && is_host_line(s, n - 1) {
            1nat
        } else {
            0nat
        }
    }
}

/// Whether some line of `s` equals `line`, ignoring ASCII case.
pub open spec fn has_line(s: Seq<char>, line: Seq<char>) -> bool {
    exists|p: int| is_line_start(s, p) && eq_ignore_ascii_case(line_at(s, p), line)
}

/// The first index where `\r\n\r\n` starts at or after `i`, which ends the header section.
pub open spec fn blank_line_from(s: Seq<char>, i: int) -> Option<int>
    decreases s.len() - i,
{
    if i < 0 || i + 4 > s.len() {
        None
    } else if s[i] == '\r' && s[i + 1] == '\n' && s[i + 2] == '\r' && s[i + 3] == '\n' {
        Some(i)
    } else {
        blank_line_from(s, i + 1)
    }
}

/// The parameters of a callback query.
pub struct CallbackParams {
    pub state: Option<Seq<char>>,
    pub code: Option<Seq<char>>,
    pub error: Option<Seq<char>>,
}

/// The parameters after one more query pair; `None` for an unknown or repeated key.
/// `error_description` is allowed and ignored.
pub open spec fn add_param(p: CallbackParams, key: Seq<char>, value: Seq<char>) -> Option<
    CallbackParams,
> {
    if key == "state"@ {
        if p.state is Some {
            None
        } else {
            Some(CallbackParams { state: Some(value), ..p })
        }
    } else if key == "code"@ {
        if p.code is Some {
            None
        } else {
            Some(CallbackParams { code: Some(value), ..p })
        }
    } else if key == "error"@ {
        if p.error is Some {
            None
        } else {
            Some(CallbackParams { error: Some(value), ..p })
        }
    } else if key == "error_description"@ {
        Some(p)
    } else {
        None
    }
}

/// The parameters of a whole query, or `None` where one pair is refused.
pub open spec fn collect_params(pairs: Seq<(Seq<char>, Seq<char>)>) -> Option<CallbackParams>
    decreases pairs.len(),
{
    if pairs.len() == 0 {
        Some(CallbackParams { state: None, code: None, error: None })
    } else {
        match collect_params(pairs.drop_last()) {
            None => None,
            Some(p) => add_param(p, pairs.last().0, pairs.last().1),
        }
    }
}

/// What a callback request means.
pub enum CallbackOutcome {
    Code(Seq<char>),
    Denied,
    Ignore,
}

/// What a callback URL means once parsed, with `pairs` the decoded pairs of its query: the
/// path must be `/callback` and there must be no fragment; the query may hold only `state`,
/// `code`, `error` and `error_description`, the first three at most once; the state must be
/// `state` exactly. Then an `error` denies the sign-in, and a non-empty `code` is the
/// authorization code. Everything else is ignored.
pub open spec fn callback_from_url(
    u: UrlPartsView,
    pairs: Seq<(Seq<char>, Seq<char>)>,
    state: Seq<char>,
) -> CallbackOutcome {
    if u.path != "/callback"@ || u.fragment is Some {
        CallbackOutcome::Ignore
    } else {
        match collect_params(pairs) {
            None => CallbackOutcome::Ignore,
            Some(p) => if p.state != Some(state) {
                CallbackOutcome::Ignore
            } else if p.error is Some {
                CallbackOutcome::Denied
            } else {
                match p.code {
                    Some(c) => if c.len() > 0 {
                        CallbackOutcome::Code(c)
                    } else {
                        CallbackOutcome::Ignore
                    },
                    None => CallbackOutcome::Ignore,
                }
            },
        }
    }
}

/// What a request on the callback listener at `port` means for a sign-in with state `state`.
/// Only `GET <target> HTTP/1.1`, with a target starting with `/` and exactly one `Host` header,
/// equal to `127.0.0.1:<port>` up to ASCII case, counts; the target, resolved on
/// `http://127.0.0.1:<port>`, then means what `callback_from_url` says. Everything else is
/// ignored.
pub open spec fn callback_outcome(request: Seq<char>, port: u16, state: Seq<char>) -> CallbackOutcome {
    match first_line(request) {
        None => CallbackOutcome::Ignore,
        Some(line) => {
            let w = words(line);
            if !(w.len() == 3 && w[0] == "GET"@ && w[2] == "HTTP/1.1"@ && w[1].len() > 0 && w[1][0]
                == '/') {
                CallbackOutcome::Ignore
            } else {
                match blank_line_from(request, 0) {
                    None => CallbackOutcome::Ignore,
                    Some(b) => {
                        let headers = request.take(b);
                        if host_line_count(headers, headers.len() as int) != 1 || !has_line(
                            headers,
                            "host: 127.0.0.1:"@ + decimal(port as nat),
                        ) {
                            CallbackOutcome::Ignore
                        } else {
                            match url_parse("http://127.0.0.1:"@ + decimal(port as nat) + w[1]) {
                                None => CallbackOutcome::Ignore,
                                Some(u) => callback_from_url(
                                    u,
                                    form_urlencoded_pairs(
                                        match u.query {
                                            Some(q) => q,
                                            None => ""@,
                                        },
                                    ),
                                    state,
                                ),
                            }
                        }
                    },
                }
            }
        },
    }
}

} // verus!

verus! {

fn find_char_from(v: &Vec<char>, i: usize, c: char) -> (k: usize)
    requires
        i <= v@.len(),
    ensures
        k == next_char(v@, i as int, c),
        i <= k <= v@.len(),
{
    let mut k = i;
    while k < v.len() && v[k] != c
        invariant
            i <= k <= v@.len(),
            next_char(v@, i as int, c) == next_char(v@, k as int, c),
        decreases v@.len() - k,
    {
        k = k + 1;
    }
    k
}

fn skip_whitespace_from(v: &Vec<char>, i: usize) -> (k: usize)
    requires
        i <= v@.len(),
    ensures
        k == skip_whitespace(v@, i as int),
        i <= k <= v@.len(),
{
    let mut k = i;
    while k < v.len() && is_whitespace(v[k])
        invariant
            i <= k <= v@.len(),
            skip_whitespace(v@, i as int) == skip_whitespace(v@, k as int),
        decreases v@.len() - k,
    {
        k = k + 1;
    }
    k
}

fn next_whitespace_from(v: &Vec<char>, i: usize) -> (k: usize)
    requires
        i <= v@.len(),
    ensures
        k == next_whitespace(v@, i as int),
        i <= k <= v@.len(),
{
    let mut k = i;
    while k < v.len() && !is_whitespace(v[k])
        invariant
            i <= k <= v@.len(),
            next_whitespace(v@, i as int) == next_whitespace(v@, k as int),
        decreases v@.len() - k,
    {
        k = k + 1;
    }
    k
}

/// The words that the index ranges in `t` mark in `s`.
pub open spec fn ranges_view(s: Seq<char>, t: Seq<(usize, usize)>) -> Seq<Seq<char>> {
    Seq::new(t.len(), |m: int| s.subrange(t[m].0 as int, t[m].1 as int))
}

/// The index ranges of the whitespace-separated words of `v`.
fn word_ranges(v: &Vec<char>) -> (r: Vec<(usize, usize)>)
    ensures
        ranges_view(v@, r@) == words(v@),
        forall|m: int| 0 <= m < r@.len() ==> #[trigger] r@[m].0 <= r@[m].1 <= v@.len(),
{
    let n = v.len();
    let mut r: Vec<(usize, usize)> = Vec::new();
    let mut i: usize = 0;
    proof {
        assert(ranges_view(v@, r@) =~= Seq::<Seq<char>>::empty());
        assert(words_from(v@, 0) =~= Seq::<Seq<char>>::empty() + words_from(v@, 0));
    }
    while i < n
        invariant
            i <= n == v@.len(),
            words(v@) == ranges_view(v@, r@) + words_from(v@, i as int),
            forall|m: int| 0 <= m < r@.len() ==> #[trigger] r@[m].0 <= r@[m].1 <= v@.len(),
        decreases n - i,
    {
        let j = skip_whitespace_from(v, i);
        if j >= n {
            proof {
                assert(words_from(v@, i as int) =~= Seq::<Seq<char>>::empty());
                assert(words_from(v@, n as int) =~= Seq::<Seq<char>>::empty());
            }
            i = n;
        } else {
            let k = next_whitespace_from(v, j);
            proof {
                lemma_skip_whitespace_bounds(v@, i as int);
                lemma_next_whitespace_bounds(v@, j as int);
            }
            let ghost before = r@;
            r.push((j, k));
            proof {
                assert(words_from(v@, i as int) == seq![v@.subrange(j as int, k as int)]
                    + words_from(v@, k as int));
                assert(ranges_view(v@, r@) =~= ranges_view(v@, before) + seq![
                    v@.subrange(j as int, k as int),
                ]);
            }
            i = k;
        }
    }
    proof {
        assert(words_from(v@, n as int) =~= Seq::<Seq<char>>::empty());
        assert(ranges_view(v@, r@) + Seq::<Seq<char>>::empty() =~= ranges_view(v@, r@));
    }
    r
}

/// The characters `v[lo..hi]`.
fn copy_range(v: &Vec<char>, lo: usize, hi: usize) -> (r: Vec<char>)
    requires
        lo <= hi <= v@.len(),
    ensures
        r@ == v@.subrange(lo as int, hi as int),
{
    let mut r: Vec<char> = Vec::new();
    let mut k = lo;
    while k < hi
        invariant
            lo <= k <= hi <= v@.len(),
            r@ == v@.subrange(lo as int, k as int),
        decreases hi - k,
    {
        r.push(v[k]);
        proof {
            assert(r@ =~= v@.subrange(lo as int, k + 1));
        }
        k = k + 1;
    }
    r
}

/// Whether `v[lo..hi]` equals `w`.
fn range_eq(v: &Vec<char>, lo: usize, hi: usize, w: &Vec<char>) -> (r: bool)
    requires
        lo <= hi <= v@.len(),
    ensures
        r == (v@.subrange(lo as int, hi as int) == w@),
{
    if hi - lo != w.len() {
        return false;
    }
    let mut k: usize = 0;
    while k < w.len()
        invariant
            lo <= hi <= v@.len(),
            hi - lo == w@.len(),
            k <= w@.len(),
            forall|m: int| 0 <= m < k ==> v@[lo + m] == w@[m],
        decreases w@.len() - k,
    {
        if v[lo + k] != w[k] {
            return false;
        }
        k = k + 1;
    }
    proof {
        assert(v@.subrange(lo as int, hi as int) =~= w@);
    }
    true
}

/// Whether `v[lo..hi]` equals `w` up to ASCII case.
fn range_eq_ignore_case(v: &Vec<char>, lo: usize, hi: usize, w: &Vec<char>) -> (r: bool)
    requires
        lo <= hi <= v@.len(),
    ensures
        r == eq_ignore_ascii_case(v@.subrange(lo as int, hi as int), w@),
{
    if hi - lo != w.len() {
        return false;
    }
    let mut k: usize = 0;
    while k < w.len()
        invariant
            lo <= hi <= v@.len(),
            hi - lo == w@.len(),
            k <= w@.len(),
            forall|m: int| 0 <= m < k ==> ascii_fold(v@[lo + m]) == ascii_fold(w@[m]),
        decreases w@.len() - k,
    {
        if fold_ascii(v[lo + k]) != fold_ascii(w[k]) {
            return false;
        }
        k = k + 1;
    }
    proof {
        let s = v@.subrange(lo as int, hi as int);
        assert forall|m: int| 0 <= m < s.len() implies ascii_fold(s[m]) == ascii_fold(w@[m]) by {
            assert(s[m] == v@[lo + m]);
        }
    }
    true
}

fn find_blank_line(v: &Vec<char>) -> (r: Option<usize>)
    ensures
        match r {
            Some(b) => blank_line_from(v@, 0) == Some(b as int) && b + 4 <= v@.len(),
            None => blank_line_from(v@, 0) is None,
        },
{
    let n = v.len();
    let mut i: usize = 0;
    while i < n && n - i >= 4
        invariant
            n == v@.len(),
            i <= n,
            blank_line_from(v@, 0) == blank_line_from(v@, i as int),
        decreases n - i,
    {
        if v[i] == '\r' && v[i + 1] == '\n' && v[i + 2] == '\r' && v[i + 3] == '\n' {
            return Some(i);
        }
        i = i + 1;
    }
    None
}

/// How the `Host` header lines of the header section `h` look: how many there are, and
/// whether one equals `expected` up to ASCII case.
fn scan_host_lines(h: &Vec<char>, expected: &Vec<char>) -> (r: (usize, bool))
    ensures
        r.0 == host_line_count(h@, h@.len() as int),
        r.1 == has_line(h@, expected@),
{
    let prefix = chars_of("host:");
    let n = h.len();
    let mut count: usize = 0;
    let mut found = false;
    let mut p: usize = 0;
    while p < n
        invariant
            p <= n == h@.len(),
            prefix@ == "host:"@,
            count == host_line_count(h@, p as int),
            count <= p,
            found == exists|q: int|
                0 <= q < p && is_line_start(h@, q) && eq_ignore_ascii_case(
                    #[trigger] line_at(h@, q),
                    expected@,
                ),
        decreases n - p,
    {
        let starts = p == 0 || h[p - 1] == '\n';
        assert(starts == is_line_start(h@, p as int));
        if starts {
            let e = find_char_from(h, p, '\n');
            let hi = if e < n && e > p && h[e - 1] == '\r' {
                e - 1
            } else {
                e
            };
            assert(hi == line_end(h@, p as int));
            let host = hi - p >= 5 && range_eq_ignore_case(h, p, p + 5, &prefix);
            proof {
                if hi - p >= 5 {
                    assert(line_at(h@, p as int).take(5) =~= h@.subrange(p as int, p + 5));
                }
            }
            assert(host == is_host_line(h@, p as int));
            if host {
                count = count + 1;
            }
            if range_eq_ignore_case(h, p, hi, expected) {
                found = true;
            }
        }
        p = p + 1;
    }
    proof {
        if has_line(h@, expected@) {
            let q = choose|q: int|
                is_line_start(h@, q) && eq_ignore_ascii_case(line_at(h@, q), expected@);
            assert(0 <= q < n);
        }
    }
    (count, found)
}

} // verus!

verus! {

/// What a callback request means, as the listener acts on it.
pub enum CallbackResult {
    Code(String),
    Denied,
    Ignore,
}

impl View for CallbackResult {
    type V = CallbackOutcome;

    open spec fn view(&self) -> CallbackOutcome {
        match self {
            CallbackResult::Code(c) => CallbackOutcome::Code(c@),
            CallbackResult::Denied => CallbackOutcome::Denied,
            CallbackResult::Ignore => CallbackOutcome::Ignore,
        }
    }
}

proof fn lemma_collect_none_stays(pairs: Seq<(Seq<char>, Seq<char>)>, k: int)
    requires
        0 <= k <= pairs.len(),
        collect_params(pairs.take(k)) is None,
    ensures
        collect_params(pairs) is None,
    decreases pairs.len() - k,
{
    if k < pairs.len() {
        assert(pairs.drop_last().take(k) =~= pairs.take(k));
        lemma_collect_none_stays(pairs.drop_last(), k);
    } else {
        assert(pairs.take(k) =~= pairs);
    }
}

/// The parameters of the decoded query pairs, or `None` where one pair is refused.
fn collect_query_params(pairs: &Vec<crate::urls::QueryPair>) -> (r: Option<
    (Option<String>, Option<String>, Option<String>),
>)
    ensures
        match r {
            Some((state, code, error)) => collect_params(pairs_view(pairs@)) == Some(
                CallbackParams {
                    state: crate::urls::opt_str_view(state),
                    code: crate::urls::opt_str_view(code),
                    error: crate::urls::opt_str_view(error),
                },
            ),
            None => collect_params(pairs_view(pairs@)) is None,
        },
{
    let ghost all = pairs_view(pairs@);
    let mut state: Option<String> = None;
    let mut code: Option<String> = None;
    let mut error: Option<String> = None;
    let n = pairs.len();
    let mut i: usize = 0;
    proof {
        assert(all.take(0) =~= Seq::<(Seq<char>, Seq<char>)>::empty());
    }
    while i < n
        invariant
            i <= n == pairs@.len() == all.len(),
            all == pairs_view(pairs@),
            collect_params(all.take(i as int)) == Some(
                CallbackParams {
                    state: crate::urls::opt_str_view(state),
                    code: crate::urls::opt_str_view(code),
                    error: crate::urls::opt_str_view(error),
                },
            ),
        decreases n - i,
    {
        let key = pairs[i].key.as_str();
        let value = &pairs[i].value;
        proof {
            assert(all.take(i + 1).drop_last() =~= all.take(i as int));
            assert(all.take(i + 1).last() == all[i as int]);
            assert(all[i as int] == (pairs@[i as int].key@, pairs@[i as int].value@));
        }
        let accepted = if crate::text::str_eq(key, "state") {
            if state.is_some() {
                false
            } else {
                state = Some(value.clone());
                true
            }
        } else if crate::text::str_eq(key, "code") {
            if code.is_some() {
                false
            } else {
                code = Some(value.clone());
                true
            }
        } else if crate::text::str_eq(key, "error") {
            if error.is_some() {
                false
            } else {
                error = Some(value.clone());
                true
            }
        } else {
            crate::text::str_eq(key, "error_description")
        };
        if !accepted {
            proof {
                lemma_collect_none_stays(all, i + 1);
            }
            return None;
        }
        i = i + 1;
    }
    proof {
        assert(all.take(n as int) =~= all);
    }
    Some((state, code, error))
}

/// What a request on the callback listener means (see `callback_outcome`).
pub fn parse_callback(request: &str, port: u16, expected_state: &str) -> (r: CallbackResult)
    ensures
        r@ == callback_outcome(request@, port, expected_state@),
{
    let v = chars_of(request);
    if v.len() == 0 {
        return CallbackResult::Ignore;
    }
    let nl = find_char_from(&v, 0, '\n');
    let end = if nl < v.len() && nl > 0 && v[nl - 1] == '\r' {
        nl - 1
    } else {
        nl
    };
    assert(end == line_end(v@, 0));
    let line = copy_range(&v, 0, end);
    let ranges = word_ranges(&line);
    proof {
        assert(first_line(request@) == Some(line@));
    }
    let ghost w = words(line@);
    if ranges.len() != 3 {
        return CallbackResult::Ignore;
    }
    let (m0, m1) = ranges[0];
    let (t0, t1) = ranges[1];
    let (v0, v1) = ranges[2];
    proof {
        assert(ranges_view(line@, ranges@)[0] == w[0]);
        assert(ranges_view(line@, ranges@)[1] == w[1]);
        assert(ranges_view(line@, ranges@)[2] == w[2]);
    }
    let get = chars_of("GET");
    let http11 = chars_of("HTTP/1.1");
    if !range_eq(&line, m0, m1, &get) || !range_eq(&line, v0, v1, &http11) || t1 <= t0
        || line[t0] != '/' {
        return CallbackResult::Ignore;
    }
    let target = copy_range(&line, t0, t1);
    assert(target@ == w[1]);
    let blank = match find_blank_line(&v) {
        Some(b) => b,
        None => return CallbackResult::Ignore,
    };
    let headers = copy_range(&v, 0, blank);
    assert(headers@ =~= request@.take(blank as int));
    let mut expected_host = chars_of("host: 127.0.0.1:");
    push_decimal(port as u64, &mut expected_host);
    let (host_count, host_found) = scan_host_lines(&headers, &expected_host);
    if host_count != 1 || !host_found {
        return CallbackResult::Ignore;
    }
    let mut url_text = chars_of("http://127.0.0.1:");
    push_decimal(port as u64, &mut url_text);
    let mut k: usize = 0;
    let ghost base = url_text@;
    while k < target.len()
        invariant
            k <= target@.len(),
            url_text@ == base + target@.take(k as int),
        decreases target@.len() - k,
    {
        url_text.push(target[k]);
        proof {
            assert(target@.take(k + 1) =~= target@.take(k as int).push(target@[k as int]));
        }
        k = k + 1;
    }
    proof {
        assert(target@.take(target@.len() as int) =~= target@);
    }
    let url_string = string_from_chars(&url_text);
    let url = match parse_url(url_string.as_str()) {
        Some(u) => u,
        None => return CallbackResult::Ignore,
    };
    let pairs = match &url.query {
        Some(q) => decode_query(q.as_str()),
        None => decode_query(""),
    };
    callback_from_parts(&url, &pairs, expected_state)
}

/// What a parsed callback URL means (see `callback_from_url`); `pairs` are the decoded pairs of
/// its query.
pub fn callback_from_parts(
    u: &crate::urls::UrlParts,
    pairs: &Vec<crate::urls::QueryPair>,
    expected_state: &str,
) -> (r: CallbackResult)
    ensures
        r@ == callback_from_url(u@, pairs_view(pairs@), expected_state@),
{
    if !crate::text::str_eq(u.path.as_str(), "/callback") || u.fragment.is_some() {
        return CallbackResult::Ignore;
    }
    let (state, code, error) = match collect_query_params(pairs) {
        Some(p) => p,
        None => return CallbackResult::Ignore,
    };
    let state_matches = match &state {
        Some(s) => crate::text::str_eq(s.as_str(), expected_state),
        None => false,
    };
    if !state_matches {
        return CallbackResult::Ignore;
    }
    if error.is_some() {
        return CallbackResult::Denied;
    }
    match code {
        Some(c) => {
            if c.as_str().is_empty() {
                CallbackResult::Ignore
            } else {
                CallbackResult::Code(c)
            }
        },
        None => CallbackResult::Ignore,
    }
}

} // verus!

verus! {

/// The largest callback request, in bytes, that the listener reads.
pub const MAX_CALLBACK_BYTES: usize = 8192;

/// The body of the answer to a callback request.
pub open spec fn callback_body(success: bool) -> Seq<char> {
    if success {
        "Authorization received. Return to the terminal to confirm D6E CLI sign-in."@
    } else {
        "D6E CLI could not accept this callback."@
    }
}

/// The status line part of the answer to a callback request.
pub open spec fn callback_status(success: bool) -> Seq<char> {
    if success {
        "200 OK"@
    } else {
        "400 Bad Request"@
    }
}

/// The whole HTTP answer to a callback request: plain text, not cached, no active content,
/// with its exact length, and the connection closed.
pub open spec fn callback_response_text(success: bool) -> Seq<char> {
    "HTTP/1.1 "@ + callback_status(success)
        + "\r\ncontent-type: text/plain; charset=utf-8\r\ncache-control: no-store\r\ncontent-security-policy: default-src 'none'\r\ncontent-length: "@
        + decimal(vstd::utf8::encode_utf8(callback_body(success)).len())
        + "\r\nconnection: close\r\n\r\n"@ + callback_body(success)
}

/// The HTTP answer to a callback request (see `callback_response_text`).
pub fn callback_response(success: bool) -> (r: String)
    ensures
        r@ == callback_response_text(success),
{
    let (status, body) = if success {
        ("200 OK", "Authorization received. Return to the terminal to confirm D6E CLI sign-in.")
    } else {
        ("400 Bad Request", "D6E CLI could not accept this callback.")
    };
    let mut length: Vec<char> = Vec::new();
    push_decimal(body.as_bytes().len() as u64, &mut length);
    let mut r = String::from_str("HTTP/1.1 ");
    r.append(status);
    r.append(
        "\r\ncontent-type: text/plain; charset=utf-8\r\ncache-control: no-store\r\ncontent-security-policy: default-src 'none'\r\ncontent-length: ",
    );
    r.append(string_from_chars(&length).as_str());
    r.append("\r\nconnection: close\r\n\r\n");
    r.append(body);
    r
}

/// The text of the redirect URI of the listener on `port`: `http://127.0.0.1:<port>/callback`.
pub open spec fn callback_redirect_text(port: u16) -> Seq<char> {
    "http://127.0.0.1:"@ + decimal(port as nat) + "/callback"@
}

/// The redirect URI of the loopback listener on `port`, as the URL parser serializes it; the
/// sign-in URL and the code exchange both name exactly this URI.
pub fn callback_redirect_uri(port: u16) -> (r: Result<String, crate::error::CliError>)
    ensures
        match r {
            Ok(u) => url_parse(callback_redirect_text(port)) matches Some(p) && u@
                == p.serialization,
            Err(e) => e matches crate::error::CliError::Authentication { message } && message@
                == "could not create callback URL"@ && url_parse(callback_redirect_text(port))
                is None,
        },
{
    let mut digits: Vec<char> = Vec::new();
    push_decimal(port as u64, &mut digits);
    let mut text = String::from_str("http://127.0.0.1:");
    text.append(string_from_chars(&digits).as_str());
    text.append("/callback");
    match parse_url(text.as_str()) {
        Some(u) => Ok(u.serialization),
        None => Err(
            crate::error::CliError::Authentication {
                message: String::from_str("could not create callback URL"),
            },
        ),
    }
}

/// Decodes UTF-8 with `String::from_utf8`, which refuses invalid UTF-8.
#[verifier::external_body]
fn utf8_string(bytes: Vec<u8>) -> (r: Option<String>)
    ensures
        r is Some <==> vstd::utf8::valid_utf8(bytes@),
        r matches Some(s) ==> s@ == vstd::utf8::decode_utf8(bytes@),
{
    String::from_utf8(bytes).ok()
}

/// Whether `b` holds the bytes `\r\n\r\n` somewhere.
pub open spec fn has_blank_line(b: Seq<u8>) -> bool {
    exists|i: int|
        0 <= i && i + 4 <= b.len() && #[trigger] b[i] == 13 && b[i + 1] == 10 && b[i + 2] == 13
            && b[i + 3] == 10
}

/// How far reading a callback request has come.
pub enum CallbackRead {
    /// The header section has not ended yet.
    NeedMore,
    /// The request is too large; it is not parsed.
    TooLarge,
    /// The header section has ended; the request as text, or `None` if it is not UTF-8.
    Complete(Option<String>),
}

/// Decides, after each chunk, whether the bytes read so far make a callback request.
pub fn callback_read_progress(bytes: Vec<u8>) -> (r: CallbackRead)
    ensures
        bytes@.len() > MAX_CALLBACK_BYTES ==> r is TooLarge,
        bytes@.len() <= MAX_CALLBACK_BYTES && !has_blank_line(bytes@) ==> r is NeedMore,
        bytes@.len() <= MAX_CALLBACK_BYTES && has_blank_line(bytes@) ==> match r {
            CallbackRead::Complete(text) => match text {
                Some(s) => vstd::utf8::valid_utf8(bytes@) && s@ == vstd::utf8::decode_utf8(
                    bytes@,
                ),
                None => !vstd::utf8::valid_utf8(bytes@),
            },
            _ => false,
        },
{
    if bytes.len() > MAX_CALLBACK_BYTES {
        return CallbackRead::TooLarge;
    }
    let n = bytes.len();
    let mut i: usize = 0;
    while i < n && n - i >= 4
        invariant
            i <= n == bytes@.len(),
            n <= MAX_CALLBACK_BYTES,
            forall|j: int|
                0 <= j < i && j + 4 <= n ==> !(#[trigger] bytes@[j] == 13 && bytes@[j + 1] == 10
                    && bytes@[j + 2] == 13 && bytes@[j + 3] == 10),
        decreases n - i,
    {
        if bytes[i] == 13 && bytes[i + 1] == 10 && bytes[i + 2] == 13 && bytes[i + 3] == 10 {
            return CallbackRead::Complete(utf8_string(bytes));
        }
        i = i + 1;
    }
    CallbackRead::NeedMore
}

/// What the listener does after answering a callback request.
pub enum CallbackStep {
    /// Sign-in ends: with the authorization code, or with an error.
    Finish(Result<String, crate::error::CliError>),
    /// Keep waiting for the browser.
    Wait,
}

/// Whether the answer to a request with this meaning is a success (`200`), not `400`.
pub open spec fn step_reply(o: CallbackOutcome) -> bool {
    o is Code
}

/// Whether a request with this meaning ends the wait for the browser.
pub open spec fn step_finishes(o: CallbackOutcome) -> bool {
    !(o is Ignore)
}

/// The answers that the requests `outcomes` get, in order, and the meaning that ends the wait,
/// when each request is answered as `callback_step` answers it and the listener stops at the
/// first request that finishes; `None` while no request has.
pub open spec fn callback_session(outcomes: Seq<CallbackOutcome>) -> (Seq<bool>, Option<
    CallbackOutcome,
>)
    decreases outcomes.len(),
{
    if outcomes.len() == 0 {
        (Seq::empty(), None)
    } else if step_finishes(outcomes[0]) {
        (seq![step_reply(outcomes[0])], Some(outcomes[0]))
    } else {
        let rest = callback_session(outcomes.drop_first());
        (seq![step_reply(outcomes[0])] + rest.0, rest.1)
    }
}

/// The answer to send (`true` for success) and the next step for a callback request: only a
/// code succeeds; an OAuth error ends the sign-in as denied; anything else is ignored.
pub fn callback_step(result: CallbackResult) -> (r: (bool, CallbackStep))
    ensures
        r.0 == result is Code,
        r.0 == step_reply(result@),
        (r.1 is Finish) == step_finishes(result@),
        match result {
            CallbackResult::Code(c) => r.1 == CallbackStep::Finish(Ok(c)),
            CallbackResult::Denied => r.1 matches CallbackStep::Finish(Err(e))
                && e matches crate::error::CliError::Authentication { message } && message@
                == "sign-in was denied"@,
            CallbackResult::Ignore => r.1 is Wait,
        },
{
    match result {
        CallbackResult::Code(c) => (true, CallbackStep::Finish(Ok(c))),
        CallbackResult::Denied => (
            false,
            CallbackStep::Finish(
                Err(crate::error::CliError::Authentication { message: String::from_str("sign-in was denied") }),
            ),
        ),
        CallbackResult::Ignore => (false, CallbackStep::Wait),
    }
}

} // verus!

verus! {

/// A callback request settles at most one sign-in: if it yields a code or a denial for the
/// states `s1` and `s2`, the two states are the same.
pub proof fn callback_answers_one_state(request: Seq<char>, port: u16, s1: Seq<char>, s2: Seq<char>)
    requires
        !(callback_outcome(request, port, s1) is Ignore),
        !(callback_outcome(request, port, s2) is Ignore),
    ensures
        s1 == s2,
{
}

proof fn lemma_digit_char_injective(a: nat, b: nat)
    requires
        a < 10,
        b < 10,
        digit_char(a) == digit_char(b),
    ensures
        a == b,
{
}

proof fn lemma_decimal_digits(n: nat)
    ensures
        decimal(n).len() >= 1,
        n < 10 <==> decimal(n).len() == 1,
        forall|k: int| 0 <= k < decimal(n).len() ==> '0' <= #[trigger] decimal(n)[k] <= '9',
    decreases n,
{
    if n >= 10 {
        lemma_decimal_digits(n / 10);
        let p = decimal(n / 10);
        assert forall|k: int| 0 <= k < decimal(n).len() implies '0' <= #[trigger] decimal(n)[k]
            <= '9' by {
            if k < p.len() {
                assert(decimal(n)[k] == p[k]);
            }
        }
    }
}

proof fn lemma_decimal_injective(a: nat, b: nat)
    requires
        decimal(a) == decimal(b),
    ensures
        a == b,
    decreases a,
{
    lemma_decimal_digits(a);
    lemma_decimal_digits(b);
    if a < 10 {
        assert(b < 10);
        assert(decimal(a) == seq![digit_char(a)]);
        assert(decimal(b) == seq![digit_char(b)]);
        assert(decimal(a)[0] == decimal(b)[0]);
        assert(seq![digit_char(a)][0] == digit_char(a));
        assert(seq![digit_char(b)][0] == digit_char(b));
        lemma_digit_char_injective(a, b);
    } else {
        assert(b >= 10);
        assert(decimal(a) == decimal(a / 10) + seq![digit_char(a % 10)]);
        assert(decimal(b) == decimal(b / 10) + seq![digit_char(b % 10)]);
        assert(decimal(a).drop_last() =~= decimal(a / 10));
        assert(decimal(b).drop_last() =~= decimal(b / 10));
        lemma_decimal_injective(a / 10, b / 10);
        assert(decimal(a).last() == digit_char(a % 10));
        assert(decimal(b).last() == digit_char(b % 10));
        lemma_digit_char_injective(a % 10, b % 10);
    }
}

proof fn lemma_host_count_monotone(s: Seq<char>, a: int, b: int)
    requires
        0 <= a <= b,
    ensures
        host_line_count(s, a) <= host_line_count(s, b),
    decreases b - a,
{
    if a < b {
        lemma_host_count_monotone(s, a, b - 1);
    }
}

proof fn lemma_two_host_lines(s: Seq<char>, q1: int, q2: int)
    requires
        0 <= q1 < q2 < s.len(),
        is_line_start(s, q1) && is_host_line(s, q1),
        is_line_start(s, q2) && is_host_line(s, q2),
    ensures
        host_line_count(s, s.len() as int) >= 2,
{
    lemma_host_count_monotone(s, 0, q1);
    lemma_host_count_monotone(s, q1 + 1, q2);
    lemma_host_count_monotone(s, q2 + 1, s.len() as int);
}

proof fn lemma_expected_host_line(s: Seq<char>, q: int, port: u16)
    requires
        is_line_start(s, q),
        eq_ignore_ascii_case(line_at(s, q), "host: 127.0.0.1:"@ + decimal(port as nat)),
    ensures
        is_host_line(s, q),
{
    reveal_strlit("host: 127.0.0.1:");
    reveal_strlit("host:");
    let e = "host: 127.0.0.1:"@ + decimal(port as nat);
    let l = line_at(s, q);
    assert forall|k: int| 0 <= k < 5 implies ascii_fold(#[trigger] l.take(5)[k]) == ascii_fold(
        "host:"@[k],
    ) by {
        assert(l.take(5)[k] == l[k]);
        assert(e[k] == "host: 127.0.0.1:"@[k]);
    }
}

/// A callback request is bound to the listener's port: one request cannot be accepted by
/// listeners on two different ports, since its only `Host` header names exactly one.
pub proof fn callback_bound_to_one_port(request: Seq<char>, p1: u16, p2: u16, state: Seq<char>)
    requires
        !(callback_outcome(request, p1, state) is Ignore),
        !(callback_outcome(request, p2, state) is Ignore),
    ensures
        p1 == p2,
{
    let b = blank_line_from(request, 0)->Some_0;
    let h = request.take(b);
    let e1 = "host: 127.0.0.1:"@ + decimal(p1 as nat);
    let e2 = "host: 127.0.0.1:"@ + decimal(p2 as nat);
    assert(has_line(h, e1));
    assert(has_line(h, e2));
    let q1 = choose|q: int| is_line_start(h, q) && eq_ignore_ascii_case(line_at(h, q), e1);
    let q2 = choose|q: int| is_line_start(h, q) && eq_ignore_ascii_case(line_at(h, q), e2);
    lemma_expected_host_line(h, q1, p1);
    lemma_expected_host_line(h, q2, p2);
    assert(host_line_count(h, h.len() as int) == 1);
    if q1 < q2 {
        lemma_two_host_lines(h, q1, q2);
    } else if q2 < q1 {
        lemma_two_host_lines(h, q2, q1);
    }
    assert(q1 == q2);
    let l = line_at(h, q1);
    let d1 = decimal(p1 as nat);
    let d2 = decimal(p2 as nat);
    reveal_strlit("host: 127.0.0.1:");
    lemma_decimal_digits(p1 as nat);
    lemma_decimal_digits(p2 as nat);
    assert(d1.len() == d2.len());
    assert forall|k: int| 0 <= k < d1.len() implies d1[k] == d2[k] by {
        assert(e1[16 + k] == d1[k]);
        assert(e2[16 + k] == d2[k]);
        assert(ascii_fold(e1[16 + k]) == ascii_fold(l[16 + k]));
        assert(ascii_fold(e2[16 + k]) == ascii_fold(l[16 + k]));
    }
    assert(d1 =~= d2);
    lemma_decimal_injective(p1 as nat, p2 as nat);
}

/// Waiting for the browser ends at the first request that carries a code or an OAuth error for
/// this sign-in: every request before it is answered `400` and ignored; that request is answered
/// `200` exactly when it carries the code, and its meaning (the code, or the denial) ends the
/// wait.
pub proof fn callback_wait_ends_at_first_answer(outcomes: Seq<CallbackOutcome>, k: int)
    requires
        0 <= k < outcomes.len(),
        !(outcomes[k] is Ignore),
        forall|i: int| 0 <= i < k ==> #[trigger] outcomes[i] is Ignore,
    ensures
        callback_session(outcomes).0.len() == k + 1,
        forall|i: int| 0 <= i < k ==> !#[trigger] callback_session(outcomes).0[i],
        callback_session(outcomes).0[k] == outcomes[k] is Code,
        callback_session(outcomes).1 == Some(outcomes[k]),
    decreases k,
{
    if k > 0 {
        let rest = outcomes.drop_first();
        assert forall|i: int| 0 <= i < k - 1 implies #[trigger] rest[i] is Ignore by {
            assert(rest[i] == outcomes[i + 1]);
        }
        assert(outcomes[0] is Ignore);
        callback_wait_ends_at_first_answer(rest, k - 1);
        let s = callback_session(outcomes).0;
        assert forall|i: int| 0 <= i < k implies !#[trigger] s[i] by {
            if i > 0 {
                assert(s[i] == callback_session(rest).0[i - 1]);
            }
        }
    }
}

/// Requests that all fail to carry a code or an OAuth error for this sign-in are each answered
/// `400`, and the wait goes on.
pub proof fn callback_wait_goes_on_while_ignored(outcomes: Seq<CallbackOutcome>)
    requires
        forall|i: int| 0 <= i < outcomes.len() ==> #[trigger] outcomes[i] is Ignore,
    ensures
        callback_session(outcomes).0.len() == outcomes.len(),
        forall|i: int| 0 <= i < outcomes.len() ==> !#[trigger] callback_session(outcomes).0[i],
        callback_session(outcomes).1 is None,
    decreases outcomes.len(),
{
    if outcomes.len() > 0 {
        let rest = outcomes.drop_first();
        assert forall|i: int| 0 <= i < rest.len() implies #[trigger] rest[i] is Ignore by {
            assert(rest[i] == outcomes[i + 1]);
        }
        assert(outcomes[0] is Ignore);
        callback_wait_goes_on_while_ignored(rest);
        let s = callback_session(outcomes).0;
        assert forall|i: int| 0 <= i < outcomes.len() implies !#[trigger] s[i] by {
            if i > 0 {
                assert(s[i] == callback_session(rest).0[i - 1]);
            }
        }
    }
}

} // verus!
