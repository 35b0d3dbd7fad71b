//! Message headers written as one string, `k1:v1,k2:v2,...`.
//!
//! The string is cut at every comma. A segment that holds a colon is a header:
//! its key is what stands before the first colon, its value what stands after
//! it. A segment without a colon is dropped, and nothing reports it.

use vstd::prelude::*;

verus! {

/// The position of the first `c` in `s`, or `s.len()` where `s` holds none.
pub open spec fn first_index(s: Seq<char>, c: char) -> int
    decreases s.len(),
{
    if s.len() == 0 || s[0] == c {
        0
    } else {
        1 + first_index(s.drop_first(), c)
    }
}

/// The segments of `s` between its commas, in order. A string without a comma
/// is one segment, the empty string too.
pub open spec fn segments(s: Seq<char>) -> Seq<Seq<char>>
    decreases s.len(),
{
    let i = first_index(s, ',');
    if 0 <= i < s.len() {
        seq![s.take(i)] + segments(s.skip(i + 1))
    } else {
        seq![s]
    }
}

/// The header that one segment stands for, if it holds a colon.
pub open spec fn header_of(segment: Seq<char>) -> Option<(Seq<char>, Seq<char>)> {
    let i = first_index(segment, ':');
    if 0 <= i < segment.len() {
        Some((segment.take(i), segment.skip(i + 1)))
    } else {
        None
    }
}

/// The headers of the segments that hold a colon, in the order of the segments.
pub open spec fn headers_of(segments: Seq<Seq<char>>) -> Seq<(Seq<char>, Seq<char>)>
    decreases segments.len(),
{
    if segments.len() == 0 {
        Seq::empty()
    } else {
        match header_of(segments[0]) {
            Some(header) => seq![header] + headers_of(segments.drop_first()),
            None => headers_of(segments.drop_first()),
        }
    }
}

/// The headers that a header string stands for.
pub open spec fn parse_headers_spec(s: Seq<char>) -> Seq<(Seq<char>, Seq<char>)> {
    headers_of(segments(s))
}

/// `first_index` is the least position that holds `c`, and `s.len()` where
/// there is none.
pub proof fn lemma_first_index(s: Seq<char>, c: char)
    ensures
        0 <= first_index(s, c) <= s.len(),
        forall|j: int| 0 <= j < first_index(s, c) ==> s[j] != c,
        first_index(s, c) < s.len() ==> s[first_index(s, c)] == c,
    decreases s.len(),
{
    if s.len() == 0 || s[0] == c {
    } else {
        let rest = s.drop_first();
        lemma_first_index(rest, c);
        assert forall|j: int| 0 <= j < first_index(s, c) implies s[j] != c by {
            if j > 0 {
                assert(s[j] == rest[j - 1]);
            }
        }
        if first_index(rest, c) < rest.len() {
            assert(rest[first_index(rest, c)] == s[first_index(rest, c) + 1]);
        }
    }
}

/// A position `k` before which `s` holds no `c`, and which holds `c` or is the
/// end of `s`, is `first_index(s, c)`.
pub proof fn lemma_first_index_is(s: Seq<char>, c: char, k: int)
    requires
        0 <= k <= s.len(),
        forall|j: int| 0 <= j < k ==> s[j] != c,
        k < s.len() ==> s[k] == c,
    ensures
        first_index(s, c) == k,
{
    lemma_first_index(s, c);
    let f = first_index(s, c);
    if f < k {
        assert(s[f] == c);
    } else if k < f {
        assert(s[k] == c);
    }
}

/// A comma-free segment in front of a comma contributes its header, if it has
/// one, and the rest of the string is read on its own.
pub proof fn lemma_parse_headers_step(s: Seq<char>, k: int)
    requires
        0 <= k < s.len(),
        s[k] == ',',
        forall|j: int| 0 <= j < k ==> s[j] != ',',
    ensures
        parse_headers_spec(s) == match header_of(s.take(k)) {
            Some(header) => seq![header] + parse_headers_spec(s.skip(k + 1)),
            None => parse_headers_spec(s.skip(k + 1)),
        },
{
    lemma_first_index_is(s, ',', k);
    let rest = segments(s.skip(k + 1));
    let all = seq![s.take(k)] + rest;
    assert(segments(s) == all);
    assert(all[0] == s.take(k));
    assert(all.drop_first() =~= rest);
}

/// A string without a comma is a single segment.
pub proof fn lemma_parse_headers_last(s: Seq<char>)
    requires
        forall|j: int| 0 <= j < s.len() ==> s[j] != ',',
    ensures
        parse_headers_spec(s) == match header_of(s) {
            Some(header) => seq![header],
            None => Seq::empty(),
        },
{
    lemma_first_index_is(s, ',', s.len() as int);
    let all = seq![s];
    assert(segments(s) == all);
    assert(all.drop_first() =~= Seq::<Seq<char>>::empty());
    assert(headers_of(all.drop_first()) =~= Seq::empty());
    match header_of(s) {
        Some(header) => {
            assert(seq![header] + Seq::<(Seq<char>, Seq<char>)>::empty() =~= seq![header]);
        },
        None => {},
    }
}

/// The segments with a comma between each two of them.
pub open spec fn join(segments: Seq<Seq<char>>) -> Seq<char>
    decreases segments.len(),
{
    if segments.len() == 0 {
        Seq::empty()
    } else if segments.len() == 1 {
        segments[0]
    } else {
        segments[0] + seq![','] + join(segments.drop_first())
    }
}

/// Cutting a string at its commas loses nothing: there is at least one
/// segment, no segment holds a comma, and the segments with a comma between
/// each two of them are the string.
pub proof fn lemma_segments(s: Seq<char>)
    ensures
        segments(s).len() >= 1,
        forall|i: int, j: int|
            0 <= i < segments(s).len() && 0 <= j < segments(s)[i].len() ==> segments(s)[i][j]
                != ',',
        join(segments(s)) == s,
    decreases s.len(),
{
    lemma_first_index(s, ',');
    let k = first_index(s, ',');
    if k < s.len() {
        let rest = segments(s.skip(k + 1));
        let all = seq![s.take(k)] + rest;
        lemma_segments(s.skip(k + 1));
        assert(all.drop_first() =~= rest);
        assert(join(all) == s.take(k) + seq![','] + join(rest));
        assert(s.take(k) + seq![','] + s.skip(k + 1) =~= s);
        assert forall|i: int, j: int| 0 <= i < all.len() && 0 <= j < all[i].len() implies all[i][j]
            != ',' by {
            if i > 0 {
                assert(all[i] == rest[i - 1]);
            }
        }
    }
}

/// A segment without a colon in front of a comma is dropped: the headers are
/// those of what follows the comma.
pub proof fn lemma_malformed_segment_is_dropped(segment: Seq<char>, rest: Seq<char>)
    requires
        !segment.contains(','),
        !segment.contains(':'),
    ensures
        parse_headers_spec(segment + seq![','] + rest) == parse_headers_spec(rest),
{
    let s = segment + seq![','] + rest;
    let k = segment.len() as int;
    lemma_parse_headers_step(s, k);
    assert(s.take(k) =~= segment);
    assert(s.skip(k + 1) =~= rest);
    lemma_first_index_is(segment, ':', k);
}

/// A key and a value with a colon between them, in front of a comma, are the
/// first header, and the others are those of what follows the comma. Only the
/// first colon divides: the value may hold colons of its own.
pub proof fn lemma_well_formed_segment_is_kept(key: Seq<char>, value: Seq<char>, rest: Seq<char>)
    requires
        !key.contains(','),
        !key.contains(':'),
        !value.contains(','),
    ensures
        parse_headers_spec(key + seq![':'] + value + seq![','] + rest) == seq![(key, value)]
            + parse_headers_spec(rest),
{
    let segment = key + seq![':'] + value;
    let s = segment + seq![','] + rest;
    let k = segment.len() as int;
    assert forall|j: int| 0 <= j < k implies s[j] != ',' by {
        if j < key.len() {
            assert(key[j] == s[j]);
        } else if j > key.len() {
            assert(value[j - key.len() - 1] == s[j]);
        }
    }
    lemma_parse_headers_step(s, k);
    assert(s.take(k) =~= segment);
    assert(s.skip(k + 1) =~= rest);
    lemma_first_index_is(segment, ':', key.len() as int);
    assert(segment.take(key.len() as int) =~= key);
    assert(segment.skip(key.len() as int + 1) =~= value);
}

/// A key and a value with a colon between them, and no comma, are one header.
pub proof fn lemma_single_header(key: Seq<char>, value: Seq<char>)
    requires
        !key.contains(','),
        !key.contains(':'),
        !value.contains(','),
    ensures
        parse_headers_spec(key + seq![':'] + value) == seq![(key, value)],
{
    let segment = key + seq![':'] + value;
    assert forall|j: int| 0 <= j < segment.len() implies segment[j] != ',' by {
        if j < key.len() {
            assert(key[j] == segment[j]);
        } else if j > key.len() {
            assert(value[j - key.len() - 1] == segment[j]);
        }
    }
    lemma_parse_headers_last(segment);
    lemma_first_index_is(segment, ':', key.len() as int);
    assert(segment.take(key.len() as int) =~= key);
    assert(segment.skip(key.len() as int + 1) =~= value);
}

/// A string without a colon holds no header.
pub proof fn lemma_no_colon_no_header(s: Seq<char>)
    requires
        !s.contains(':'),
    ensures
        parse_headers_spec(s) == (Seq::<(Seq<char>, Seq<char>)>::empty()),
    decreases s.len(),
{
    lemma_first_index(s, ',');
    let k = first_index(s, ',');
    if k < s.len() {
        lemma_parse_headers_step(s, k);
        let segment = s.take(k);
        let rest = s.skip(k + 1);
        assert forall|j: int| 0 <= j < segment.len() implies segment[j] != ':' by {
            assert(segment[j] == s[j]);
        }
        assert forall|j: int| 0 <= j < rest.len() implies rest[j] != ':' by {
            assert(rest[j] == s[j + k + 1]);
        }
        lemma_first_index_is(segment, ':', k);
        lemma_no_colon_no_header(rest);
    } else {
        lemma_parse_headers_last(s);
        lemma_first_index_is(s, ':', s.len() as int);
    }
}

/// No key holds a comma or a colon, and no value holds a comma.
pub proof fn lemma_headers_hold_no_separator(s: Seq<char>)
    ensures
        forall|i: int|
            0 <= i < parse_headers_spec(s).len() ==> {
                let header = #[trigger] parse_headers_spec(s)[i];
                !header.0.contains(',') && !header.0.contains(':') && !header.1.contains(',')
            },
    decreases s.len(),
{
    lemma_first_index(s, ',');
    let k = first_index(s, ',');
    let segment = s.take(k);
    lemma_first_index(segment, ':');
    let c = first_index(segment, ':');
    let key = segment.take(c);
    let value = segment.skip(c + 1);
    assert forall|j: int| 0 <= j < key.len() implies key[j] != ',' && key[j] != ':' by {
        assert(key[j] == segment[j] && segment[j] == s[j]);
    }
    if c < segment.len() {
        assert forall|j: int| 0 <= j < value.len() implies value[j] != ',' by {
            assert(value[j] == segment[j + c + 1] && segment[j + c + 1] == s[j + c + 1]);
        }
    }
    if k < s.len() {
        lemma_parse_headers_step(s, k);
        lemma_headers_hold_no_separator(s.skip(k + 1));
        let rest = parse_headers_spec(s.skip(k + 1));
        assert forall|i: int| 0 <= i < parse_headers_spec(s).len() implies {
            let header = #[trigger] parse_headers_spec(s)[i];
            !header.0.contains(',') && !header.0.contains(':') && !header.1.contains(',')
        } by {
            if header_of(segment) is Some && i > 0 {
                assert(parse_headers_spec(s)[i] == rest[i - 1]);
            }
        }
    } else {
        assert(segment =~= s);
        lemma_parse_headers_last(s);
    }
}

/// The characters of `s` from `from` up to `to`, as a string of their own.
fn piece(s: &str, from: usize, to: usize) -> (r: String)
    requires
        from <= to <= s@.len(),
    ensures
        r@ == s@.subrange(from as int, to as int),
{
    s.substring_char(from, to).to_owned()
}

/// Appends to `parsed` the header of the segment of `s` that runs from `start`
/// up to `end`, whose first colon, if it has one, is at `colon`.
fn close_segment(
    s: &str,
    start: usize,
    end: usize,
    colon: Option<usize>,
    parsed: &mut Vec<(String, String)>,
)
    requires
        start <= end <= s@.len(),
        match colon {
            Some(k) => start <= k < end && s@[k as int] == ':' && forall|j: int|
                start <= j < k ==> s@[j] != ':',
            None => forall|j: int| start <= j < end ==> s@[j] != ':',
        },
    ensures
        final(parsed).deep_view() == match header_of(s@.subrange(start as int, end as int)) {
            Some(header) => old(parsed).deep_view() + seq![header],
            None => old(parsed).deep_view(),
        },
{
    let ghost segment = s@.subrange(start as int, end as int);
    match colon {
        Some(k) => {
            let key = piece(s, start, k);
            let value = piece(s, k + 1, end);
            proof {
                lemma_first_index_is(segment, ':', k - start);
                assert(segment.take(k - start) =~= key@);
                assert(segment.skip(k - start + 1) =~= value@);
            }
            let ghost before = parsed.deep_view();
            parsed.push((key, value));
            assert(parsed.deep_view() =~= before + seq![(key@, value@)]);
        },
        None => {
            proof {
                lemma_first_index_is(segment, ':', segment.len() as int);
            }
        },
    }
}

/// Reads a header string.
///
/// Every segment between two commas that holds a colon gives one header, in
/// the order of the string; a segment without a colon gives none.
pub fn parse_headers(headers: &str) -> (parsed: Vec<(String, String)>)
    ensures
        parsed.deep_view() == parse_headers_spec(headers@),
{
    let n = headers.unicode_len();
    let mut parsed: Vec<(String, String)> = Vec::new();
    let mut start: usize = 0;
    let mut colon: Option<usize> = None;
    let mut i: usize = 0;
    assert(parsed.deep_view() =~= Seq::empty());
    assert(headers@.skip(0) =~= headers@);
    for c in it: headers.chars()
        invariant
            n == headers@.len(),
            i == it.index(),
            it.seq() == headers@,
            start <= i <= n,
            forall|j: int| start <= j < i ==> headers@[j] != ',',
            match colon {
                Some(k) => start <= k < i && headers@[k as int] == ':' && forall|j: int|
                    start <= j < k ==> headers@[j] != ':',
                None => forall|j: int| start <= j < i ==> headers@[j] != ':',
            },
            parse_headers_spec(headers@) == parsed.deep_view() + parse_headers_spec(
                headers@.skip(start as int),
            ),
    {
        if c == ',' {
            let ghost before = parsed.deep_view();
            close_segment(headers, start, i, colon, &mut parsed);
            proof {
                let tail = headers@.skip(start as int);
                lemma_parse_headers_step(tail, i - start);
                assert(tail.take(i - start) =~= headers@.subrange(start as int, i as int));
                assert(tail.skip(i - start + 1) =~= headers@.skip(i + 1));
                let after = parse_headers_spec(headers@.skip(i + 1));
                match header_of(headers@.subrange(start as int, i as int)) {
                    Some(header) => {
                        assert(before + (seq![header] + after) =~= (before + seq![header]) + after);
                    },
                    None => {},
                }
            }
            start = i + 1;
            colon = None;
        } else if c == ':' && colon.is_none() {
            colon = Some(i);
        }
        i += 1;
    }
    let ghost before = parsed.deep_view();
    close_segment(headers, start, n, colon, &mut parsed);
    proof {
        let tail = headers@.skip(start as int);
        lemma_parse_headers_last(tail);
        assert(tail =~= headers@.subrange(start as int, n as int));
        match header_of(tail) {
            Some(header) => {},
            None => {
                assert(before + Seq::<(Seq<char>, Seq<char>)>::empty() =~= before);
            },
        }
    }
    parsed
}

} // verus!
