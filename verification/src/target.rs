//! The request target as text: what the URL of a configuration reads.

use crate::currency::{is_upper_letter, lemma_code_letters, Currency};
use crate::uri::{is_absolute_form, splits_as};
use vstd::prelude::*;

verus! {

/// A request configuration as plain values.
pub struct ConfigView {
    /// The currency that all rates are relative to.
    pub base: Currency,
    /// The currencies to quote, in the order given; `None` asks for all.
    pub symbols: Option<Seq<Currency>>,
    /// The day to quote; `None` asks for the latest rates.
    pub date: Option<Seq<char>>,
}

/// Scheme, host and the slash that starts the path.
pub open spec fn origin() -> Seq<char> {
    "http://api.fixer.io/"@
}

/// The codes of `cs` in order, with a comma between neighbours.
pub open spec fn join_codes(cs: Seq<Currency>) -> Seq<char>
    decreases cs.len(),
{
    if cs.len() == 0 {
        Seq::empty()
    } else if cs.len() == 1 {
        cs[0].code()
    } else {
        join_codes(cs.drop_last()) + ","@ + cs.last().code()
    }
}

impl ConfigView {
    /// The one path segment: the date as given, or `latest` without one.
    pub open spec fn path_segment(self) -> Seq<char> {
        match self.date {
            Some(d) => d,
            None => "latest"@,
        }
    }

    /// The value of the `symbols` parameter: the codes of the symbols, joined.
    /// `None` when no symbols were set; a list that was set but is empty
    /// gives the empty value.
    pub open spec fn symbols_value(self) -> Option<Seq<char>> {
        match self.symbols {
            Some(cs) => Some(join_codes(cs)),
            None => None,
        }
    }

    /// The `symbols` parameter with its leading `&`, or nothing when no
    /// symbols were set. A list that was set but is empty still gives
    /// `&symbols=`.
    pub open spec fn symbols_param(self) -> Seq<char> {
        match self.symbols_value() {
            Some(value) => "&symbols="@ + value,
            None => Seq::empty(),
        }
    }

    /// The query: the `base` parameter, then the `symbols` parameter if any.
    pub open spec fn query(self) -> Seq<char> {
        "base="@ + self.base.code() + self.symbols_param()
    }

    /// The whole URL.
    pub open spec fn url(self) -> Seq<char> {
        origin() + self.path_segment() + "?"@ + self.query()
    }
}

/// The index of the first character of `s` that is one of `stops`, or the
/// length of `s` if none is.
pub open spec fn first_of(s: Seq<char>, stops: Set<char>) -> int
    decreases s.len(),
{
    if s.len() == 0 || stops.contains(s[0]) {
        0
    } else {
        1 + first_of(s.skip(1), stops)
    }
}

/// `s` holds no `?` and no `#`: read as one path segment, it is not cut short.
pub open spec fn is_plain(s: Seq<char>) -> bool {
    forall|i: int| 0 <= i < s.len() ==> s[i] != '?' && s[i] != '#'
}

/// The path segment that a reader of `url` finds: what stands between the
/// origin and the first `?` or `#`.
pub open spec fn segment_of(url: Seq<char>) -> Seq<char>
    recommends
        origin().is_prefix_of(url),
{
    let path = url.skip(origin().len() as int);
    path.take(first_of(path, set!['?', '#']))
}

/// The query that a reader of `url` finds: what stands between the `?` that
/// ends the path and the first `#` after it. `None` where the path ends
/// otherwise.
pub open spec fn query_of(url: Seq<char>) -> Option<Seq<char>>
    recommends
        origin().is_prefix_of(url),
{
    let path = url.skip(origin().len() as int);
    let end: int = first_of(path, set!['?', '#']);
    if end < path.len() && path[end] == '?' {
        let tail = path.skip(end + 1);
        Some(tail.take(first_of(tail, set!['#'])))
    } else {
        None
    }
}

/// The value of the first `key=value` pair of `query` with this key, the pairs
/// being separated by `&`. `None` where no pair has the key.
pub open spec fn param_of(query: Seq<char>, key: Seq<char>) -> Option<Seq<char>>
    decreases query.len(),
{
    let end: int = first_of(query, set!['&']);
    let pair = query.take(end);
    let eq: int = first_of(pair, set!['=']);
    if eq < pair.len() && pair.take(eq) == key {
        Some(pair.skip(eq + 1))
    } else if 0 <= end < query.len() {
        param_of(query.skip(end + 1), key)
    } else {
        None
    }
}

/// `first_of` is `k` when no character before `k` is a stop and `k` is one, or
/// the end.
pub proof fn lemma_first_of_is(s: Seq<char>, stops: Set<char>, k: int)
    requires
        0 <= k <= s.len(),
        forall|i: int| 0 <= i < k ==> !stops.contains(s[i]),
        k < s.len() ==> stops.contains(s[k]),
    ensures
        first_of(s, stops) == k,
    decreases k,
{
    if k > 0 {
        let t = s.skip(1);
        assert forall|i: int| 0 <= i < k - 1 implies !stops.contains(t[i]) by {
            assert(t[i] == s[i + 1]);
        }
        if k < s.len() {
            assert(t[k - 1] == s[k]);
        }
        lemma_first_of_is(t, stops, k - 1);
    }
}

/// `first_of` never passes a stop, nor the end.
pub proof fn lemma_first_of_at_most(s: Seq<char>, stops: Set<char>, k: int)
    requires
        0 <= k <= s.len(),
        k < s.len() ==> stops.contains(s[k]),
    ensures
        0 <= first_of(s, stops) <= k,
    decreases k,
{
    if k > 0 && !stops.contains(s[0]) {
        let t = s.skip(1);
        if k < s.len() {
            assert(t[k - 1] == s[k]);
        }
        lemma_first_of_at_most(t, stops, k - 1);
    }
}

/// The joined codes, place by place: a comma at every fourth place, and
/// between the commas the three letters of each currency, in the order in
/// which the currencies were given.
pub proof fn law_join_keeps_order(cs: Seq<Currency>)
    ensures
        cs.len() == 0 ==> join_codes(cs).len() == 0,
        cs.len() > 0 ==> join_codes(cs).len() == 4 * cs.len() - 1,
        forall|j: int|
            0 <= j < join_codes(cs).len() && j % 4 == 3 ==> #[trigger] join_codes(cs)[j] == ',',
        forall|j: int|
            0 <= j < join_codes(cs).len() && j % 4 != 3 ==> #[trigger] join_codes(cs)[j]
                == cs[j / 4].code()[j % 4],
    decreases cs.len(),
{
    reveal_strlit(",");
    if cs.len() == 0 {
    } else if cs.len() == 1 {
        lemma_code_letters(cs[0]);
    } else {
        let front = cs.drop_last();
        law_join_keeps_order(front);
        lemma_code_letters(cs.last());
        let joined = join_codes(cs);
        assert(joined == join_codes(front) + ","@ + cs.last().code());
        let n: int = front.len() as int;
        assert forall|j: int| 0 <= j < joined.len() && j % 4 == 3 implies #[trigger] joined[j]
            == ',' by {
            if j < 4 * n - 1 {
                assert(joined[j] == join_codes(front)[j]);
            }
        }
        assert forall|j: int| 0 <= j < joined.len() && j % 4 != 3 implies #[trigger] joined[j]
            == cs[j / 4].code()[j % 4] by {
            if j < 4 * n - 1 {
                assert(joined[j] == join_codes(front)[j]);
                assert(front[j / 4] == cs[j / 4]);
            } else {
                assert(j / 4 == n);
                assert(joined[j] == cs.last().code()[j - 4 * n]);
            }
        }
    }
}

/// Whether `c` is a comma or a capital letter.
pub open spec fn is_comma_or_letter(c: char) -> bool {
    c == ',' || is_upper_letter(c)
}

/// The joined codes hold capital letters and commas only.
pub proof fn lemma_join_codes_chars(cs: Seq<Currency>)
    ensures
        forall|j: int|
            0 <= j < join_codes(cs).len() ==> is_comma_or_letter(#[trigger] join_codes(cs)[j]),
{
    law_join_keeps_order(cs);
    assert forall|j: int| 0 <= j < join_codes(cs).len() implies is_comma_or_letter(
        #[trigger] join_codes(cs)[j],
    ) by {
        if j % 4 != 3 {
            lemma_code_letters(cs[j / 4]);
        }
    }
}

/// Without a date the path segment is `latest`, in the URL as it is put
/// together and as a reader of the URL finds it.
pub proof fn law_segment_without_date(c: ConfigView)
    requires
        c.date is None,
    ensures
        c.url() == origin() + "latest"@ + "?"@ + c.query(),
        segment_of(c.url()) == "latest"@,
{
    reveal_strlit("latest");
    assert(is_plain("latest"@));
    law_url_reads_back(c);
}

/// With a date the path segment is the date as it was given, nothing escaped
/// and nothing checked. A reader of the URL finds that same segment exactly
/// when the date holds no `?` and no `#`.
pub proof fn law_segment_with_date(c: ConfigView, d: Seq<char>)
    requires
        c.date == Some(d),
    ensures
        c.url() == origin() + d + "?"@ + c.query(),
        segment_of(c.url()) == d <==> is_plain(d),
{
    if is_plain(d) {
        law_url_reads_back(c);
    } else {
        reveal_strlit("http://api.fixer.io/");
        reveal_strlit("?");
        let path = c.url().skip(origin().len() as int);
        assert(path =~= d + "?"@ + c.query());
        let i: int = choose|i: int| 0 <= i < d.len() && (d[i] == '?' || d[i] == '#');
        assert(path[i] == d[i]);
        lemma_first_of_at_most(path, set!['?', '#'], i);
        assert(segment_of(c.url()).len() < d.len());
    }
}

/// Where the path segment holds no `?` and no `#` (as it does without a
/// date), a reader of the URL finds in it what the configuration holds: the
/// segment, the query, and in the query the two parameters.
pub proof fn law_url_reads_back(c: ConfigView)
    requires
        is_plain(c.path_segment()),
    ensures
        segment_of(c.url()) == c.path_segment(),
        query_of(c.url()) == Some(c.query()),
        param_of(query_of(c.url())->0, "base"@) == Some(c.base.code()),
        param_of(query_of(c.url())->0, "symbols"@) == c.symbols_value(),
{
    law_base_param(c);
    law_symbols_param(c);
    reveal_strlit("http://api.fixer.io/");
    reveal_strlit("?");
    let seg = c.path_segment();
    let query = c.query();
    let path = c.url().skip(origin().len() as int);
    assert(path =~= seg + "?"@ + query);
    assert forall|i: int| 0 <= i < seg.len() implies !set!['?', '#'].contains(path[i]) by {
        assert(path[i] == seg[i]);
    }
    assert(path[seg.len() as int] == '?');
    lemma_first_of_is(path, set!['?', '#'], seg.len() as int);
    assert(path.take(seg.len() as int) =~= seg);
    let tail = path.skip(seg.len() as int + 1);
    assert(tail =~= query);
    lemma_query_is_plain(c);
    lemma_first_of_is(query, set!['#'], query.len() as int);
    assert(query.take(query.len() as int) =~= query);
}

/// The query holds neither `?` nor `#`.
pub proof fn lemma_query_is_plain(c: ConfigView)
    ensures
        is_plain(c.query()),
{
    reveal_strlit("base=");
    reveal_strlit("&symbols=");
    lemma_code_letters(c.base);
    let query = c.query();
    match c.symbols {
        Some(cs) => {
            lemma_join_codes_chars(cs);
            let joined = join_codes(cs);
            assert forall|j: int| 0 <= j < query.len() implies query[j] != '?' && query[j]
                != '#' by {
                if j >= 17 {
                    assert(is_comma_or_letter(joined[j - 17]));
                    assert(query[j] == joined[j - 17]);
                }
            }
        },
        None => {},
    }
}

/// The `base` parameter of the query is the code of the base currency,
/// whatever else the configuration holds.
pub proof fn law_base_param(c: ConfigView)
    ensures
        param_of(c.query(), "base"@) == Some(c.base.code()),
        c.base.code().len() == 3,
{
    reveal_strlit("base=");
    reveal_strlit("base");
    reveal_strlit("&symbols=");
    lemma_code_letters(c.base);
    let query = c.query();
    let code = c.base.code();
    if c.symbols is Some {
        assert(query[8] == '&');
    }
    lemma_first_of_is(query, set!['&'], 8);
    let pair = query.take(8);
    assert(pair =~= "base="@ + code);
    lemma_first_of_is(pair, set!['='], 4);
    assert(pair.take(4) =~= "base"@);
    assert(pair.skip(5) =~= code);
}

/// The `symbols` parameter of the query is the codes of the symbols, joined
/// with commas in the order given; for an empty list it is there and empty.
/// Without symbols the query has no such parameter.
pub proof fn law_symbols_param(c: ConfigView)
    ensures
        param_of(c.query(), "symbols"@) == c.symbols_value(),
{
    reveal_strlit("base=");
    reveal_strlit("symbols");
    reveal_strlit("&symbols=");
    lemma_code_letters(c.base);
    let key = "symbols"@;
    let query = c.query();
    if c.symbols is Some {
        assert(query[8] == '&');
    }
    lemma_first_of_is(query, set!['&'], 8);
    let pair = query.take(8);
    assert(pair =~= "base="@ + c.base.code());
    lemma_first_of_is(pair, set!['='], 4);
    assert(pair.take(4).len() != key.len());
    match c.symbols {
        Some(cs) => {
            let joined = join_codes(cs);
            lemma_join_codes_chars(cs);
            let rest = query.skip(9);
            assert(rest =~= seq!['s', 'y', 'm', 'b', 'o', 'l', 's', '='] + joined);
            assert forall|i: int| 0 <= i < rest.len() implies !set!['&'].contains(rest[i]) by {
                if i >= 8 {
                    assert(is_comma_or_letter(joined[i - 8]));
                    assert(rest[i] == joined[i - 8]);
                }
            }
            lemma_first_of_is(rest, set!['&'], rest.len() as int);
            assert(rest.take(rest.len() as int) =~= rest);
            lemma_first_of_is(rest, set!['='], 7);
            assert(rest.take(7) =~= key);
            assert(rest.skip(8) =~= joined);
            assert(param_of(rest, key) == Some(joined));
        },
        None => {},
    }
}

/// Every URL is in absolute form with a path: scheme `http`, authority
/// `api.fixer.io`, and whatever the configuration gives after the slash.
pub proof fn lemma_url_is_absolute(c: ConfigView)
    ensures
        is_absolute_form(c.url()),
{
    reveal_strlit("http://api.fixer.io/");
    let scheme = seq!['h', 't', 't', 'p'];
    let authority = seq!['a', 'p', 'i', '.', 'f', 'i', 'x', 'e', 'r', '.', 'i', 'o'];
    let rest = c.path_segment() + "?"@ + c.query();
    assert(origin() =~= scheme + seq![':', '/', '/'] + authority + seq!['/']);
    assert(c.url() =~= scheme + seq![':', '/', '/'] + authority + seq!['/'] + rest);
    assert(splits_as(c.url(), scheme, authority, rest));
}

} // verus!
