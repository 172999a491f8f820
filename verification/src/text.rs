//! Text helpers shared by the statement builders and the error messages:
//! substring search, decimal rendering of counters and joining of items.
use vstd::prelude::*;

verus! {

/// `needle` occurs in `hay` starting at position `i`.
pub open spec fn occurs_at(hay: Seq<char>, needle: Seq<char>, i: int) -> bool {
    &&& 0 <= i
    &&& i + needle.len() <= hay.len()
    &&& hay.subrange(i, i + needle.len()) == needle
}

/// `needle` occurs somewhere in `hay` (the empty text occurs everywhere).
pub open spec fn contains_seq(hay: Seq<char>, needle: Seq<char>) -> bool {
    exists|i: int| occurs_at(hay, needle, i)
}

/// The characters of `s`, in order.
pub fn chars_of(s: &str) -> (v: Vec<char>)
    ensures
        v@ == s@,
{
    let n = s.unicode_len();
    let mut v: Vec<char> = Vec::new();
    let mut i: usize = 0;
    while i < n
        invariant
            n == s@.len(),
            i <= n,
            v@ == s@.subrange(0, i as int),
        decreases n - i,
    {
        let c = s.get_char(i);
        v.push(c);
        i = i + 1;
        assert(v@ =~= s@.subrange(0, i as int));
    }
    assert(v@ =~= s@);
    v
}

/// Whether `needle` occurs in `hay`.
pub fn contains_text(hay: &str, needle: &str) -> (r: bool)
    ensures
        r == contains_seq(hay@, needle@),
{
    let h = chars_of(hay);
    let n = chars_of(needle);
    let hl = h.len();
    let nl = n.len();
    if nl > hl {
        assert forall|i: int| !occurs_at(hay@, needle@, i) by {}
        return false;
    }
    let mut i: usize = 0;
    while i <= hl - nl
        invariant
            h@ == hay@,
            n@ == needle@,
            hl == h@.len(),
            nl == n@.len(),
            nl <= hl,
            i <= hl - nl + 1,
            forall|k: int| 0 <= k < i ==> !occurs_at(hay@, needle@, k),
        decreases hl - nl + 1 - i,
    {
        let mut j: usize = 0;
        let mut same = true;
        while j < nl
            invariant
                h@ == hay@,
                n@ == needle@,
                hl == h@.len(),
                nl == n@.len(),
                i + nl <= hl,
                j <= nl,
                same == (forall|k: int| 0 <= k < j ==> h@[i + k] == n@[k]),
            decreases nl - j,
        {
            if h[i + j] != n[j] {
                same = false;
            }
            j = j + 1;
        }
        if same {
            assert(hay@.subrange(i as int, i + nl) =~= needle@);
            assert(occurs_at(hay@, needle@, i as int));
            return true;
        }
        assert(!occurs_at(hay@, needle@, i as int)) by {
            let k = choose|k: int| 0 <= k < nl && h@[i + k] != n@[k];
            if hay@.subrange(i as int, i + nl) == needle@ {
                assert(hay@.subrange(i as int, i + nl)[k] == h@[i + k]);
            }
        }
        i = i + 1;
    }
    assert forall|k: int| !occurs_at(hay@, needle@, k) by {
        if occurs_at(hay@, needle@, k) {
            assert(k < i);
        }
    }
    false
}

/// The decimal digit character of `d` (for `d < 10`).
pub open spec fn digit_char(d: nat) -> char {
    if d == 0 { '0' }
    else if d == 1 { '1' }
    else if d == 2 { '2' }
    else if d == 3 { '3' }
    else if d == 4 { '4' }
    else if d == 5 { '5' }
    else if d == 6 { '6' }
    else if d == 7 { '7' }
    else if d == 8 { '8' }
    else { '9' }
}

/// The decimal notation of `n`, without sign or leading zeros.
pub open spec fn decimal(n: nat) -> Seq<char>
    decreases n,
{
    if n < 10 {
        seq![digit_char(n)]
    } else {
        decimal(n / 10).push(digit_char(n % 10))
    }
}

fn digit_text(d: usize) -> (s: &'static str)
    requires
        d < 10,
    ensures
        s@ == seq![digit_char(d as nat)],
{
    proof {
        reveal_strlit("0");
        reveal_strlit("1");
        reveal_strlit("2");
        reveal_strlit("3");
        reveal_strlit("4");
        reveal_strlit("5");
        reveal_strlit("6");
        reveal_strlit("7");
        reveal_strlit("8");
        reveal_strlit("9");
    }
    if d == 0 { "0" }
    else if d == 1 { "1" }
    else if d == 2 { "2" }
    else if d == 3 { "3" }
    else if d == 4 { "4" }
    else if d == 5 { "5" }
    else if d == 6 { "6" }
    else if d == 7 { "7" }
    else if d == 8 { "8" }
    else { "9" }
}

/// Appends the decimal notation of `n` to `out`.
pub fn push_decimal(out: &mut String, n: usize)
    ensures
        final(out)@ == old(out)@ + decimal(n as nat),
    decreases n,
{
    if n < 10 {
        out.append(digit_text(n));
        assert(old(out)@ + seq![digit_char(n as nat)] =~= old(out)@ + decimal(n as nat));
    } else {
        push_decimal(out, n / 10);
        out.append(digit_text(n % 10));
        assert(old(out)@ + decimal((n / 10) as nat) + seq![digit_char((n % 10) as nat)]
            =~= old(out)@ + decimal(n as nat));
    }
}

/// The items joined with `sep` between each two neighbours.
pub open spec fn join(items: Seq<Seq<char>>, sep: Seq<char>) -> Seq<char>
    decreases items.len(),
{
    if items.len() == 0 {
        Seq::empty()
    } else if items.len() == 1 {
        items[0]
    } else {
        join(items.drop_last(), sep) + sep + items.last()
    }
}

/// The views of a vector of strings.
pub open spec fn texts(items: Seq<String>) -> Seq<Seq<char>> {
    items.map_values(|s: String| s@)
}

/// Appends `items`, separated by `sep`, to `out`.
pub fn push_joined(out: &mut String, items: &Vec<String>, sep: &str)
    ensures
        final(out)@ == old(out)@ + join(texts(items@), sep@),
{
    let ghost start = out@;
    let n = items.len();
    let mut i: usize = 0;
    while i < n
        invariant
            n == items@.len(),
            i <= n,
            out@ == start + join(texts(items@).take(i as int), sep@),
        decreases n - i,
    {
        let ghost prev = out@;
        if i > 0 {
            out.append(sep);
        }
        out.append(items[i].as_str());
        proof {
            let t = texts(items@);
            assert(t.take(i + 1).drop_last() =~= t.take(i as int));
            assert(t.take(i + 1).last() == items@[i as int]@);
            if i == 0 {
                assert(t.take(1) =~= seq![items@[0]@]);
                assert(t.take(0) =~= Seq::<Seq<char>>::empty());
                assert(out@ =~= start + join(t.take(1), sep@));
            } else {
                assert(out@ =~= start + join(t.take(i + 1), sep@));
            }
        }
        i = i + 1;
    }
    assert(texts(items@).take(n as int) =~= texts(items@));
}

/// The total length of the items.
pub open spec fn total_len(items: Seq<Seq<char>>) -> nat
    decreases items.len(),
{
    if items.len() == 0 {
        0
    } else {
        total_len(items.drop_last()) + items.last().len()
    }
}

/// Where the `i`-th item starts in the items joined by a one-character
/// separator: the lengths of the items before it, plus one separator each.
pub open spec fn item_offset(items: Seq<Seq<char>>, i: int) -> int {
    total_len(items.take(i)) + i
}

/// How many times `c` occurs in `s`.
pub open spec fn count_char(s: Seq<char>, c: char) -> nat
    decreases s.len(),
{
    if s.len() == 0 {
        0
    } else {
        count_char(s.drop_last(), c) + if s.last() == c {
            1nat
        } else {
            0nat
        }
    }
}

/// Counting a character over two texts put together adds up.
pub proof fn lemma_count_char_concat(a: Seq<char>, b: Seq<char>, c: char)
    ensures
        count_char(a + b, c) == count_char(a, c) + count_char(b, c),
    decreases b.len(),
{
    if b.len() == 0 {
        assert(a + b =~= a);
    } else {
        assert((a + b).drop_last() =~= a + b.drop_last());
        lemma_count_char_concat(a, b.drop_last(), c);
    }
}

/// A decimal notation holds only digits.
pub proof fn lemma_decimal_digits_only(n: nat, c: char)
    requires
        !('0' <= c <= '9'),
    ensures
        count_char(decimal(n), c) == 0,
    decreases n,
{
    let d = decimal(n);
    let last = digit_char(n % 10);
    assert('0' <= last <= '9');
    if n >= 10 {
        lemma_decimal_digits_only(n / 10, c);
        assert(d.drop_last() =~= decimal(n / 10));
        assert(d.last() == last);
        assert(count_char(d.drop_last(), c) == 0);
        assert(last != c);
    } else {
        assert(n % 10 == n);
        assert(d.drop_last() =~= Seq::<char>::empty());
        assert(d.last() == last);
        assert(count_char(d.drop_last(), c) == 0);
        assert(last != c);
    }
    assert(count_char(d, c) == count_char(d.drop_last(), c) + (if d.last() == c {
        1nat
    } else {
        0nat
    }));
}

/// Items joined by a one-character separator are as long as the items
/// together, plus one separator between each two.
pub proof fn lemma_join_len(items: Seq<Seq<char>>, sep: char)
    ensures
        items.len() > 0 ==> join(items, seq![sep]).len() == total_len(items) + items.len() - 1,
        items.len() == 0 ==> join(items, seq![sep]).len() == 0,
    decreases items.len(),
{
    if items.len() > 1 {
        lemma_join_len(items.drop_last(), sep);
    } else if items.len() == 1 {
        assert(items.drop_last() =~= Seq::<Seq<char>>::empty());
        assert(total_len(items.drop_last()) == 0);
    }
}

proof fn lemma_offset_before_last(items: Seq<Seq<char>>, i: int)
    requires
        0 <= i < items.len(),
    ensures
        item_offset(items, i) == item_offset(items.drop_last(), i),
{
    assert(items.take(i) =~= items.drop_last().take(i));
}

/// Items joined by a one-character separator hold the `i`-th item at its
/// offset.
pub proof fn lemma_join_item(items: Seq<Seq<char>>, sep: char, i: int)
    requires
        0 <= i < items.len(),
    ensures
        item_offset(items, i) + items[i].len() <= join(items, seq![sep]).len(),
        join(items, seq![sep]).subrange(item_offset(items, i), item_offset(items, i)
            + items[i].len()) == items[i],
    decreases items.len(),
{
    let n = items.len() as int;
    let j = join(items, seq![sep]);
    lemma_join_len(items, sep);
    if n == 1 {
        assert(items.take(0) =~= Seq::<Seq<char>>::empty());
        assert(j.subrange(0, items[0].len() as int) =~= items[0]);
    } else {
        let d = items.drop_last();
        let jd = join(d, seq![sep]);
        lemma_join_len(d, sep);
        assert(j == jd + seq![sep] + items.last());
        lemma_offset_before_last(items, i);
        if i < n - 1 {
            lemma_join_item(d, sep, i);
            assert(j.subrange(item_offset(items, i), item_offset(items, i) + items[i].len())
                =~= jd.subrange(item_offset(d, i), item_offset(d, i) + d[i].len()));
        } else {
            assert(d.take(i) =~= d);
            assert(item_offset(items, i) == jd.len() + 1);
            assert(j.subrange(item_offset(items, i), item_offset(items, i) + items[i].len())
                =~= items.last());
        }
    }
}

/// Items joined by a one-character separator have the separator right after
/// each item but the last.
pub proof fn lemma_join_separator(items: Seq<Seq<char>>, sep: char, i: int)
    requires
        0 <= i < items.len() - 1,
    ensures
        item_offset(items, i) + items[i].len() < join(items, seq![sep]).len(),
        join(items, seq![sep])[item_offset(items, i) + items[i].len()] == sep,
    decreases items.len(),
{
    let n = items.len() as int;
    let j = join(items, seq![sep]);
    let d = items.drop_last();
    let jd = join(d, seq![sep]);
    lemma_join_len(d, sep);
    assert(j == jd + seq![sep] + items.last());
    lemma_offset_before_last(items, i);
    lemma_join_item(d, sep, i);
    if i < n - 2 {
        lemma_join_separator(d, sep, i);
    } else {
        assert(d.take(i + 1) =~= d);
        assert(d.take(i + 1).drop_last() =~= d.take(i));
        assert(item_offset(d, i) + d[i].len() == jd.len());
    }
}

/// The total length of the first `k` items is at most that of them all,
/// with the separators counted between.
pub proof fn lemma_total_len_prefix(items: Seq<Seq<char>>, k: int)
    requires
        1 <= k <= items.len(),
    ensures
        total_len(items.take(k)) + k - 1 <= total_len(items) + items.len() - 1,
    decreases items.len(),
{
    if k < items.len() {
        lemma_total_len_prefix(items.drop_last(), k);
        assert(items.drop_last().take(k) =~= items.take(k));
    } else {
        assert(items.take(k) =~= items);
    }
}

/// A text none of whose characters is `c` holds `c` no times.
pub proof fn lemma_count_char_absent(s: Seq<char>, c: char)
    requires
        forall|k: int| 0 <= k < s.len() ==> s[k] != c,
    ensures
        count_char(s, c) == 0,
    decreases s.len(),
{
    if s.len() > 0 {
        lemma_count_char_absent(s.drop_last(), c);
    }
}

} // verus!
