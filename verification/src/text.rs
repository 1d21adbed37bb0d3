//! Text helpers: decimal rendering and parsing of integers, the comma-separated lists of
//! identifiers built from them, and the search of a text in another.
use vstd::prelude::*;

verus! {

/// The character of decimal digit `d` (`0 <= d < 10`).
pub open spec fn digit_char(d: int) -> char {
    if d == 0 {
        '0'
    } else if d == 1 {
        '1'
    } else if d == 2 {
        '2'
    } else if d == 3 {
        '3'
    } else if d == 4 {
        '4'
    } else if d == 5 {
        '5'
    } else if d == 6 {
        '6'
    } else if d == 7 {
        '7'
    } else if d == 8 {
        '8'
    } else {
        '9'
    }
}

/// The decimal writing of `n`, without sign nor leading zero (as `{}` prints it).
pub open spec fn decimal(n: nat) -> Seq<char>
    decreases n,
{
    if n < 10 {
        seq![digit_char(n as int)]
    } else {
        decimal(n / 10).push(digit_char((n % 10) as int))
    }
}

/// `String::push`, which std documents as appending `c` at the end of `s`.
#[verifier::external_body]
pub(crate) fn push_char(s: &mut String, c: char)
    ensures
        final(s)@ == old(s)@.push(c),
{
    s.push(c);
}

/// The character of the decimal digit `d`.
pub fn digit(d: u64) -> (c: char)
    requires
        d < 10,
    ensures
        c == digit_char(d as int),
{
    match d {
        0 => '0',
        1 => '1',
        2 => '2',
        3 => '3',
        4 => '4',
        5 => '5',
        6 => '6',
        7 => '7',
        8 => '8',
        _ => '9',
    }
}

/// The characters of `chars`, in order, as a `String`.
pub fn string_of_chars(chars: &Vec<char>) -> (s: String)
    ensures
        s@ == chars@,
{
    let mut s = String::new();
    for i in 0..chars.len()
        invariant
            s@ == chars@.take(i as int),
    {
        push_char(&mut s, chars[i]);
        assert(chars@.take(i + 1) == chars@.take(i as int).push(chars@[i as int]));
    }
    assert(chars@.take(chars@.len() as int) == chars@);
    s
}

/// The digits of `n` in decimal, most significant first.
pub fn decimal_chars(n: u64) -> (v: Vec<char>)
    ensures
        v@ == decimal(n as nat),
{
    let mut rest = n;
    let mut tail: Vec<char> = Vec::new();
    while rest >= 10
        invariant
            decimal(n as nat) == decimal(rest as nat) + tail@,
        decreases rest,
    {
        let c = digit(rest % 10);
        let ghost old_tail = tail@;
        tail.insert(0, c);
        proof {
            assert(decimal(rest as nat) == decimal((rest / 10) as nat).push(c));
            assert(tail@ == seq![c] + old_tail);
            assert(decimal((rest / 10) as nat).push(c) + old_tail == decimal((rest / 10) as nat)
                + tail@);
        }
        rest = rest / 10;
    }
    let c = digit(rest);
    let ghost old_tail = tail@;
    tail.insert(0, c);
    assert(decimal(rest as nat) == seq![c]);
    assert(tail@ == seq![c] + old_tail);
    tail
}

/// `n` written in decimal, as `format!("{n}")` writes it.
pub fn decimal_string(n: u64) -> (s: String)
    ensures
        s@ == decimal(n as nat),
{
    string_of_chars(&decimal_chars(n))
}

/// `c` is one of `0` to `9`.
pub open spec fn is_digit(c: char) -> bool {
    48 <= (c as u32) && (c as u32) <= 57
}

pub open spec fn all_digits(s: Seq<char>) -> bool {
    forall|i: int| 0 <= i < s.len() ==> is_digit(#[trigger] s[i])
}

/// The number that the digits `s` write in decimal.
pub open spec fn digits_value(s: Seq<char>) -> int
    decreases s.len(),
{
    if s.len() == 0 {
        0
    } else {
        digits_value(s.drop_last()) * 10 + ((s.last() as u32) - 48)
    }
}

/// `str::parse::<i32>`: an optional `+` or `-`, then at least one digit and nothing else, of
/// a value that fits in an `i32`.
pub open spec fn parse_i32(s: Seq<char>) -> Option<i32> {
    if s.len() == 0 {
        None
    } else if s[0] == '+' || s[0] == '-' {
        let body = s.skip(1);
        if body.len() == 0 || !all_digits(body) {
            None
        } else {
            let v = if s[0] == '-' {
                -digits_value(body)
            } else {
                digits_value(body)
            };
            if i32::MIN <= v && v <= i32::MAX {
                Some(v as i32)
            } else {
                None
            }
        }
    } else if !all_digits(s) {
        None
    } else if digits_value(s) <= i32::MAX {
        Some(digits_value(s) as i32)
    } else {
        None
    }
}

/// The pieces of `s` between its commas, as `str::split(',')` yields them (one empty piece for
/// the empty text).
pub open spec fn split_commas(s: Seq<char>) -> Seq<Seq<char>>
    decreases s.len(),
{
    if s.len() == 0 {
        seq![Seq::empty()]
    } else {
        let prev = split_commas(s.drop_last());
        if s.last() == ',' {
            prev.push(Seq::empty())
        } else {
            prev.update(prev.len() - 1, prev.last().push(s.last()))
        }
    }
}

/// The pieces that parse as an `i32`, parsed, in order (`filter_map(|s| s.parse().ok())`).
pub open spec fn parse_pieces(pieces: Seq<Seq<char>>) -> Seq<i32>
    decreases pieces.len(),
{
    if pieces.len() == 0 {
        Seq::empty()
    } else {
        let prev = parse_pieces(pieces.drop_last());
        match parse_i32(pieces.last()) {
            Some(v) => prev.push(v),
            None => prev,
        }
    }
}

/// `ids` written in decimal and joined by commas: `1,22,333`.
pub open spec fn id_list(ids: Seq<u64>) -> Seq<char>
    decreases ids.len(),
{
    if ids.len() == 0 {
        Seq::empty()
    } else if ids.len() == 1 {
        decimal(ids[0] as nat)
    } else {
        id_list(ids.drop_last()) + seq![','] + decimal(ids.last() as nat)
    }
}

/// The identifiers read back from a comma-separated list: none from the empty text, else each
/// piece that parses as an `i32`.
pub open spec fn ids_of_list(s: Seq<char>) -> Seq<i32> {
    if s.len() == 0 {
        Seq::empty()
    } else {
        parse_pieces(split_commas(s))
    }
}

pub proof fn lemma_split_commas_nonempty(s: Seq<char>)
    ensures
        split_commas(s).len() >= 1,
    decreases s.len(),
{
    if s.len() > 0 {
        lemma_split_commas_nonempty(s.drop_last());
    }
}

proof fn lemma_digit_char(d: int)
    requires
        0 <= d < 10,
    ensures
        is_digit(digit_char(d)),
        (digit_char(d) as u32) - 48 == d,
        digit_char(d) != ',',
{
}

/// The decimal writing of `n` is digits only, not empty, and reads back as `n`.
pub proof fn lemma_decimal(n: nat)
    ensures
        decimal(n).len() >= 1,
        all_digits(decimal(n)),
        digits_value(decimal(n)) == n,
    decreases n,
{
    if n < 10 {
        lemma_digit_char(n as int);
        assert(decimal(n).drop_last() =~= Seq::<char>::empty());
        assert(decimal(n).last() == digit_char(n as int));
        assert(digits_value(Seq::<char>::empty()) == 0);
    } else {
        lemma_decimal(n / 10);
        lemma_digit_char((n % 10) as int);
        let d = decimal(n);
        assert(d.drop_last() =~= decimal(n / 10));
        assert(d.last() == digit_char((n % 10) as int));
        assert(digits_value(d) == digits_value(decimal(n / 10)) * 10 + (n % 10));
        assert((n / 10) * 10 + (n % 10) == n);
        assert forall|i: int| 0 <= i < d.len() implies is_digit(#[trigger] d[i]) by {
            if i < d.len() - 1 {
                assert(d[i] == decimal(n / 10)[i]);
            }
        }
    }
}

/// A decimal writing parses back as the number it writes, when that fits in an `i32`.
pub proof fn lemma_parse_decimal(n: nat)
    requires
        n <= i32::MAX,
    ensures
        parse_i32(decimal(n)) == Some(n as i32),
{
    lemma_decimal(n);
    let d = decimal(n);
    assert(is_digit(d[0]));
}

/// Appending a text without comma extends the last piece.
proof fn lemma_split_append(t: Seq<char>, s: Seq<char>)
    requires
        forall|i: int| 0 <= i < s.len() ==> #[trigger] s[i] != ',',
    ensures
        split_commas(t + s) == split_commas(t).update(
            split_commas(t).len() - 1,
            split_commas(t).last() + s,
        ),
    decreases s.len(),
{
    lemma_split_commas_nonempty(t);
    if s.len() == 0 {
        assert(t + s =~= t);
        assert(split_commas(t).last() + s =~= split_commas(t).last());
        assert(split_commas(t).update(split_commas(t).len() - 1, split_commas(t).last())
            =~= split_commas(t));
    } else {
        let s0 = s.drop_last();
        lemma_split_append(t, s0);
        assert((t + s).drop_last() =~= t + s0);
        assert((t + s).last() == s.last());
        let prev = split_commas(t + s0);
        lemma_split_commas_nonempty(t + s0);
        assert(prev.last() == split_commas(t).last() + s0);
        assert(prev.last().push(s.last()) =~= split_commas(t).last() + s);
        assert(split_commas(t + s) =~= split_commas(t).update(
            split_commas(t).len() - 1,
            split_commas(t).last() + s,
        ));
    }
}

/// The pieces of a list of identifiers are their decimal writings.
pub proof fn lemma_split_id_list(ids: Seq<u64>)
    requires
        ids.len() >= 1,
    ensures
        split_commas(id_list(ids)) == ids.map_values(|x: u64| decimal(x as nat)),
    decreases ids.len(),
{
    let last = decimal(ids.last() as nat);
    lemma_decimal(ids.last() as nat);
    assert forall|i: int| 0 <= i < last.len() implies #[trigger] last[i] != ',' by {
        assert(is_digit(last[i]));
    }
    if ids.len() == 1 {
        let e = Seq::<char>::empty();
        lemma_split_append(e, last);
        assert(e + last =~= last);
        assert(split_commas(e) == seq![e]);
        assert(split_commas(id_list(ids)) =~= ids.map_values(|x: u64| decimal(x as nat)));
    } else {
        let prev = ids.drop_last();
        lemma_split_id_list(prev);
        let t = id_list(prev) + seq![','];
        lemma_split_append(t, last);
        assert(t.drop_last() =~= id_list(prev));
        assert(split_commas(t) == split_commas(id_list(prev)).push(Seq::empty()));
        assert(Seq::<char>::empty() + last =~= last);
        assert(split_commas(id_list(ids)) =~= ids.map_values(|x: u64| decimal(x as nat)));
    }
}

proof fn lemma_parse_decimals(ids: Seq<u64>)
    requires
        forall|i: int| 0 <= i < ids.len() ==> #[trigger] ids[i] <= i32::MAX,
    ensures
        parse_pieces(ids.map_values(|x: u64| decimal(x as nat))) == ids.map_values(
            |x: u64| x as i32,
        ),
    decreases ids.len(),
{
    if ids.len() > 0 {
        let prev = ids.drop_last();
        lemma_parse_decimals(prev);
        let pieces = ids.map_values(|x: u64| decimal(x as nat));
        assert(pieces.drop_last() =~= prev.map_values(|x: u64| decimal(x as nat)));
        lemma_parse_decimal(ids.last() as nat);
        assert(ids.map_values(|x: u64| x as i32) =~= prev.map_values(|x: u64| x as i32).push(
            ids.last() as i32,
        ));
    } else {
        assert(ids.map_values(|x: u64| x as i32) =~= Seq::<i32>::empty());
    }
}

/// A list of identifiers reads back as the identifiers it was made of, when each fits in an
/// `i32`; it is empty exactly when there is no identifier.
pub proof fn id_list_round_trip(ids: Seq<u64>)
    requires
        forall|i: int| 0 <= i < ids.len() ==> #[trigger] ids[i] <= i32::MAX,
    ensures
        ids_of_list(id_list(ids)) == ids.map_values(|x: u64| x as i32),
        (id_list(ids).len() == 0) == (ids.len() == 0),
{
    if ids.len() == 0 {
        assert(ids.map_values(|x: u64| x as i32) =~= Seq::<i32>::empty());
    } else {
        lemma_id_list_nonempty(ids);
        lemma_split_id_list(ids);
        lemma_parse_decimals(ids);
    }
}

pub proof fn lemma_id_list_nonempty(ids: Seq<u64>)
    requires
        ids.len() >= 1,
    ensures
        id_list(ids).len() >= 1,
{
    lemma_decimal(ids.last() as nat);
    if ids.len() == 1 {
        lemma_decimal(ids[0] as nat);
    }
}

/// A copy of a list of ids, in the same order.
pub fn copy_ids(ids: &[u64]) -> (r: Vec<u64>)
    ensures
        r@ == ids@,
{
    let mut r: Vec<u64> = Vec::new();
    for i in 0..ids.len()
        invariant
            r@ == ids@.take(i as int),
    {
        r.push(ids[i]);
        assert(ids@.take(i + 1) == ids@.take(i as int).push(ids@[i as int]));
    }
    assert(ids@.take(ids@.len() as int) == ids@);
    r
}

/// `ids` written in decimal and joined by commas.
pub fn id_list_string(ids: &Vec<u64>) -> (s: String)
    ensures
        s@ == id_list(ids@),
{
    let mut s = String::new();
    for i in 0..ids.len()
        invariant
            s@ == id_list(ids@.take(i as int)),
    {
        assert(ids@.take(i + 1).drop_last() =~= ids@.take(i as int));
        if i > 0 {
            push_char(&mut s, ',');
        } else {
            assert(ids@.take(i as int) =~= Seq::<u64>::empty());
            assert(s@ =~= Seq::<char>::empty());
        }
        let d = decimal_string(ids[i]);
        s.append(d.as_str());
        assert(s@ =~= id_list(ids@.take(i + 1)));
    }
    assert(ids@.take(ids@.len() as int) =~= ids@);
    s
}


/// Appending digits never lowers the value that the digits write.
proof fn lemma_digits_value_prefix(s: Seq<char>, j: int)
    requires
        all_digits(s),
        0 <= j <= s.len(),
    ensures
        0 <= digits_value(s.take(j)) <= digits_value(s),
    decreases s.len() - j,
{
    lemma_digits_value_nonneg(s);
    if j < s.len() {
        lemma_digits_value_prefix(s, j + 1);
        let t = s.take(j + 1);
        assert(t.drop_last() =~= s.take(j));
        assert(is_digit(t.last()));
        assert forall|i: int| 0 <= i < j implies is_digit(#[trigger] s.take(j)[i]) by {
            assert(s.take(j)[i] == s[i]);
        }
        lemma_digits_value_nonneg(s.take(j));
    } else {
        assert(s.take(j) =~= s);
    }
}

proof fn lemma_digits_value_nonneg(s: Seq<char>)
    requires
        all_digits(s),
    ensures
        digits_value(s) >= 0,
    decreases s.len(),
{
    if s.len() > 0 {
        assert forall|i: int| 0 <= i < s.drop_last().len() implies is_digit(
            #[trigger] s.drop_last()[i],
        ) by {
            assert(s.drop_last()[i] == s[i]);
        }
        lemma_digits_value_nonneg(s.drop_last());
        assert(is_digit(s.last()));
    }
}

fn is_digit_char(c: char) -> (r: bool)
    ensures
        r == is_digit(c),
{
    let v = c as u32;
    48 <= v && v <= 57
}

/// `piece` parsed as an `i32` the way `str::parse` does.
pub fn parse_i32_chars(piece: &Vec<char>) -> (r: Option<i32>)
    ensures
        r == parse_i32(piece@),
{
    let n = piece.len();
    if n == 0 {
        return None;
    }
    let first = piece[0];
    let signed = first == '+' || first == '-';
    let start: usize = if signed {
        1
    } else {
        0
    };
    if start == n {
        return None;
    }
    let ghost body = piece@.skip(start as int);
    let mut acc: i64 = 0;
    let mut i: usize = start;
    while i < n
        invariant
            start <= i <= n,
            n == piece@.len(),
            n > 0,
            first == piece@[0],
            signed == (first == '+' || first == '-'),
            start == (if signed {
                1usize
            } else {
                0usize
            }),
            body == piece@.skip(start as int),
            0 <= acc <= 2147483648,
            all_digits(piece@.subrange(start as int, i as int)),
            acc == digits_value(piece@.subrange(start as int, i as int)),
        decreases n - i,
    {
        let c = piece[i];
        let ghost pre = piece@.subrange(start as int, i as int);
        let ghost next = piece@.subrange(start as int, i + 1);
        assert(next.drop_last() =~= pre);
        assert(next.last() == c);
        if !is_digit_char(c) {
            proof {
                if signed {
                    assert(body[i - start] == c);
                    assert(!is_digit(body[i - start]));
                } else {
                    assert(piece@[i as int] == c);
                    assert(!is_digit(piece@[i as int]));
                }
            }
            return None;
        }
        assert forall|k: int| 0 <= k < next.len() implies is_digit(#[trigger] next[k]) by {
            if k < pre.len() {
                assert(next[k] == pre[k]);
            }
        }
        let d = (c as u32 - 48) as i64;
        let v = acc * 10 + d;
        if v > 2147483648 {
            proof {
                if signed {
                    if all_digits(body) {
                        assert(body.take(i + 1 - start) =~= next);
                        lemma_digits_value_prefix(body, i + 1 - start);
                    }
                } else {
                    assert(piece@.skip(0) =~= piece@);
                    if all_digits(piece@) {
                        assert(piece@.take(i + 1) =~= next);
                        lemma_digits_value_prefix(piece@, i + 1);
                    }
                }
            }
            return None;
        }
        acc = v;
        i = i + 1;
    }
    assert(piece@.subrange(start as int, n as int) =~= body);
    assert(piece@.skip(0) =~= piece@);
    if first == '-' {
        Some((0 - acc) as i32)
    } else if acc <= 2147483647 {
        Some(acc as i32)
    } else {
        None
    }
}

/// The identifiers of the comma-separated list `list`: none when it is empty, else each piece
/// that parses as an `i32`, in order.
pub fn ids_of_list_str(list: &str) -> (ids: Vec<i32>)
    ensures
        ids@ == ids_of_list(list@),
{
    let mut out: Vec<i32> = Vec::new();
    let mut cur: Vec<char> = Vec::new();
    if list.unicode_len() == 0 {
        return out;
    }
    for c in it: list.chars()
        invariant
            it.seq() == list@,
            split_commas(list@.take(it.index() as int)).len() >= 1,
            out@ == parse_pieces(split_commas(list@.take(it.index() as int)).drop_last()),
            cur@ == split_commas(list@.take(it.index() as int)).last(),
    {
        let ghost k = it.index();
        let ghost pieces = split_commas(list@.take(k as int));
        let ghost p1 = list@.take(k + 1);
        assert(p1.drop_last() =~= list@.take(k as int));
        assert(p1.last() == c);
        if c == ',' {
            assert(split_commas(p1) == pieces.push(Seq::empty()));
            assert(split_commas(p1).drop_last() =~= pieces);
            match parse_i32_chars(&cur) {
                Some(v) => out.push(v),
                None => {},
            }
            cur = Vec::new();
        } else {
            assert(split_commas(p1) == pieces.update(pieces.len() - 1, pieces.last().push(c)));
            assert(split_commas(p1).drop_last() =~= pieces.drop_last());
            cur.push(c);
        }
    }
    assert(list@.take(list@.len() as int) =~= list@);
    match parse_i32_chars(&cur) {
        Some(v) => out.push(v),
        None => {},
    }
    out
}


/// `needle` occurs in `hay`.
pub open spec fn has_infix(hay: Seq<char>, needle: Seq<char>) -> bool {
    exists|i: int|
        0 <= i && i + needle.len() <= hay.len() && #[trigger] hay.subrange(i, i + needle.len())
            == needle
}

/// The characters of `s`, in order.
pub fn chars_of(s: &str) -> (v: Vec<char>)
    ensures
        v@ == s@,
{
    let mut v: Vec<char> = Vec::new();
    for c in it: s.chars()
        invariant
            it.seq() == s@,
            v@ == s@.take(it.index() as int),
    {
        let ghost k = it.index();
        v.push(c);
        assert(s@.take(k + 1) =~= s@.take(k as int).push(c));
    }
    assert(s@.take(s@.len() as int) =~= s@);
    v
}

fn matches_at(hay: &Vec<char>, needle: &Vec<char>, at: usize) -> (r: bool)
    requires
        at + needle@.len() <= hay@.len(),
    ensures
        r == (hay@.subrange(at as int, at + needle@.len()) == needle@),
{
    let mut j: usize = 0;
    let len = hay.len();
    while j < needle.len()
        invariant
            j <= needle@.len(),
            len == hay@.len(),
            at + needle@.len() <= hay@.len(),
            forall|k: int| 0 <= k < j ==> hay@[at + k] == needle@[k],
        decreases needle@.len() - j,
    {
        if hay[at + j] != needle[j] {
            assert(hay@.subrange(at as int, at + needle@.len())[j as int] != needle@[j as int]);
            return false;
        }
        j = j + 1;
    }
    assert(hay@.subrange(at as int, at + needle@.len()) =~= needle@);
    true
}

/// Whether `needle` occurs in `hay` (`str::contains`).
pub fn contains_text(hay: &str, needle: &str) -> (r: bool)
    ensures
        r == has_infix(hay@, needle@),
{
    let h = chars_of(hay);
    let n = chars_of(needle);
    if n.len() > h.len() {
        return false;
    }
    let last = h.len() - n.len();
    let mut at: usize = 0;
    while at < last
        invariant
            at <= last,
            h@ == hay@,
            n@ == needle@,
            last == h@.len() - n@.len(),
            n@.len() <= h@.len(),
            forall|i: int| 0 <= i < at ==> #[trigger] h@.subrange(i, i + n@.len()) != n@,
        decreases last + 1 - at,
    {
        if matches_at(&h, &n, at) {
            return true;
        }
        at = at + 1;
    }
    matches_at(&h, &n, last)
}


/// `v` written in decimal, with a `-` when negative (as `{}` prints a signed integer).
pub open spec fn signed_decimal(v: int) -> Seq<char> {
    if v < 0 {
        seq!['-'] + decimal((-v) as nat)
    } else {
        decimal(v as nat)
    }
}

/// `v` written in decimal, with a `-` when negative.
pub fn signed_decimal_string(v: i64) -> (s: String)
    ensures
        s@ == signed_decimal(v as int),
{
    if v < 0 {
        let magnitude = (0i128 - (v as i128)) as u64;
        let mut s = String::from_str("-");
        let d = decimal_string(magnitude);
        s.append(d.as_str());
        proof {
            reveal_strlit("-");
        }
        s
    } else {
        decimal_string(v as u64)
    }
}

/// The items of `vs` in decimal, separated by `, `.
pub open spec fn joined_decimals(vs: Seq<i32>) -> Seq<char>
    decreases vs.len(),
{
    if vs.len() == 0 {
        Seq::empty()
    } else if vs.len() == 1 {
        signed_decimal(vs[0] as int)
    } else {
        joined_decimals(vs.drop_last()) + ", "@ + signed_decimal(vs.last() as int)
    }
}

/// `vs` as `{:?}` prints a vector of integers: `[1, -2, 3]`.
pub open spec fn debug_list(vs: Seq<i32>) -> Seq<char> {
    "["@ + joined_decimals(vs) + "]"@
}

/// `vs` as `{:?}` prints it.
pub fn debug_list_string(vs: &Vec<i32>) -> (s: String)
    ensures
        s@ == debug_list(vs@),
{
    let mut inner = String::new();
    for i in 0..vs.len()
        invariant
            inner@ == joined_decimals(vs@.take(i as int)),
    {
        assert(vs@.take(i + 1).drop_last() =~= vs@.take(i as int));
        if i > 0 {
            inner.append(", ");
        } else {
            assert(vs@.take(i as int) =~= Seq::<i32>::empty());
            assert(inner@ =~= Seq::<char>::empty());
        }
        let d = signed_decimal_string(vs[i] as i64);
        inner.append(d.as_str());
        assert(inner@ =~= joined_decimals(vs@.take(i + 1)));
    }
    assert(vs@.take(vs@.len() as int) =~= vs@);
    let mut s = String::from_str("[");
    s.append(inner.as_str());
    s.append("]");
    s
}

} // verus!
