//! Text building blocks: decimal rendering, digit grouping and string assembly.

use vstd::prelude::*;

verus! {

/// The ASCII character of a decimal digit value (values of ten and above map to '9').
pub open spec fn digit_char(d: nat) -> char {
    if d == 0 {
        '0'
    } else if d == 1 {
        '1'
    } else if d == 2 {
        '2'
    } else if d == 3 {
        '3'
    } else if d == 4 {
        '4'
    } else if d == 5 {
        '5'
    } else if d == 6 {
        '6'
    } else if d == 7 {
        '7'
    } else if d == 8 {
        '8'
    } else {
        '9'
    }
}

/// The decimal representation of `n`, most significant digit first, without leading zeros.
pub open spec fn decimal(n: nat) -> Seq<char>
    decreases n,
{
    if n < 10 {
        seq![digit_char(n)]
    } else {
        decimal(n / 10).push(digit_char(n % 10))
    }
}

/// `String::push`: appends one character to the end of the string.
#[verifier::external_body]
pub(crate) fn push_char(s: &mut String, c: char)
    ensures
        final(s)@ == old(s)@.push(c),
{
    s.push(c);
}

fn digit(d: u8) -> (c: char)
    requires
        d < 10,
    ensures
        c == digit_char(d as nat),
{
    match d {
        0 => '0',
        1 => '1',
        2 => '2',
        3 => '3',
        4 => '4',
        5 => '5',
        6 => '6',
        7 => '7',
        8 => '8',
        _ => '9',
    }
}

/// The decimal digits of `n`.
pub fn decimal_digits(n: u128) -> (v: Vec<char>)
    ensures
        v@ == decimal(n as nat),
    decreases n,
{
    if n < 10 {
        let mut v: Vec<char> = Vec::new();
        v.push(digit(n as u8));
        v
    } else {
        let mut v = decimal_digits(n / 10);
        v.push(digit((n % 10) as u8));
        v
    }
}


/// A string holding exactly the given characters.
pub fn string_from_chars(v: &Vec<char>) -> (s: String)
    ensures
        s@ == v@,
{
    let mut s = String::new();
    let mut i: usize = 0;
    while i < v.len()
        invariant
            i <= v.len(),
            s@ == v@.take(i as int),
        decreases v.len() - i,
    {
        push_char(&mut s, v[i]);
        i = i + 1;
        assert(s@ == v@.take(i as int));
    }
    assert(v@.take(v.len() as int) == v@);
    s
}

/// The decimal representation of `n` as a string.
pub fn decimal_string(n: u128) -> (s: String)
    ensures
        s@ == decimal(n as nat),
{
    string_from_chars(&decimal_digits(n))
}

/// `d` split into groups of three characters from the right, joined by commas.
pub open spec fn group_thousands(d: Seq<char>) -> Seq<char>
    decreases d.len(),
{
    if d.len() <= 3 {
        d
    } else {
        group_thousands(d.take(d.len() - 3)) + seq![','] + d.skip(d.len() - 3)
    }
}

/// `u` with every comma removed.
pub open spec fn without_commas(u: Seq<char>) -> Seq<char>
    decreases u.len(),
{
    if u.len() == 0 {
        u
    } else if u.last() == ',' {
        without_commas(u.drop_last())
    } else {
        without_commas(u.drop_last()).push(u.last())
    }
}

/// The text of an amount: its decimal digits grouped by thousands.
pub open spec fn amount_text(amount: nat) -> Seq<char> {
    group_thousands(decimal(amount))
}

fn grouped(d: &Vec<char>, end: usize) -> (s: String)
    requires
        end <= d.len(),
    ensures
        s@ == group_thousands(d@.take(end as int)),
    decreases end,
{
    if end <= 3 {
        let mut s = String::new();
        let mut i: usize = 0;
        while i < end
            invariant
                i <= end <= d.len(),
                s@ == d@.take(i as int),
            decreases end - i,
        {
            push_char(&mut s, d[i]);
            i = i + 1;
            assert(s@ == d@.take(i as int));
        }
        assert(d@.take(end as int).len() <= 3);
        s
    } else {
        let mut s = grouped(d, end - 3);
        push_char(&mut s, ',');
        push_char(&mut s, d[end - 3]);
        push_char(&mut s, d[end - 2]);
        push_char(&mut s, d[end - 1]);
        let ghost t = d@.take(end as int);
        assert(t.take(t.len() - 3) == d@.take(end - 3));
        assert(t.skip(t.len() - 3) == seq![d@[end - 3], d@[end - 2], d@[end - 1]]);
        s
    }
}

/// Formats an amount with thousands separators, e.g. `1000000` becomes `1,000,000`.
pub fn format_amount(amount: u128) -> (s: String)
    ensures
        s@ == amount_text(amount as nat),
{
    let d = decimal_digits(amount);
    let s = grouped(&d, d.len());
    assert(d@.take(d.len() as int) == d@);
    s
}

proof fn lemma_without_commas_concat(a: Seq<char>, b: Seq<char>)
    ensures
        without_commas(a + b) == without_commas(a) + without_commas(b),
    decreases b.len(),
{
    if b.len() == 0 {
        assert(a + b == a);
    } else {
        lemma_without_commas_concat(a, b.drop_last());
        assert((a + b).drop_last() == a + b.drop_last());
        assert((a + b).last() == b.last());
    }
}

proof fn lemma_digits_have_no_commas(n: nat)
    ensures
        forall|i: int| 0 <= i < decimal(n).len() ==> decimal(n)[i] != ',',
    decreases n,
{
    if n >= 10 {
        lemma_digits_have_no_commas(n / 10);
        let d = decimal(n);
        assert forall|i: int| 0 <= i < d.len() implies d[i] != ',' by {
            if i < d.len() - 1 {
                assert(d[i] == decimal(n / 10)[i]);
            }
        }
    }
}

proof fn lemma_without_commas_free(d: Seq<char>)
    requires
        forall|i: int| 0 <= i < d.len() ==> d[i] != ',',
    ensures
        without_commas(d) == d,
    decreases d.len(),
{
    if d.len() > 0 {
        lemma_without_commas_free(d.drop_last());
    }
}

proof fn lemma_group_thousands_strips(d: Seq<char>)
    requires
        forall|i: int| 0 <= i < d.len() ==> d[i] != ',',
    ensures
        without_commas(group_thousands(d)) == d,
    decreases d.len(),
{
    if d.len() <= 3 {
        lemma_without_commas_free(d);
    } else {
        let head = d.take(d.len() - 3);
        let tail = d.skip(d.len() - 3);
        lemma_group_thousands_strips(head);
        lemma_without_commas_concat(group_thousands(head) + seq![','], tail);
        lemma_without_commas_concat(group_thousands(head), seq![',']);
        lemma_without_commas_free(tail);
        assert(seq![','].drop_last() == Seq::<char>::empty());
        assert(without_commas(Seq::<char>::empty()) == Seq::<char>::empty());
        assert(without_commas(seq![',']) == Seq::<char>::empty());
        assert(head + tail == d);
    }
}

/// The comma-separated groups of a text, in order: one more group than there are
/// commas, each group possibly empty.
pub open spec fn comma_groups(u: Seq<char>) -> Seq<Seq<char>>
    decreases u.len(),
{
    if u.len() == 0 {
        seq![Seq::<char>::empty()]
    } else if u.last() == ',' {
        comma_groups(u.drop_last()).push(Seq::<char>::empty())
    } else {
        let g = comma_groups(u.drop_last());
        g.update(g.len() - 1, g.last().push(u.last()))
    }
}

/// Text without commas is a single group.
proof fn lemma_comma_groups_free(d: Seq<char>)
    requires
        forall|i: int| 0 <= i < d.len() ==> d[i] != ',',
    ensures
        comma_groups(d) == seq![d],
    decreases d.len(),
{
    if d.len() > 0 {
        lemma_comma_groups_free(d.drop_last());
        assert(d.drop_last().push(d.last()) =~= d);
        assert(seq![d.drop_last()].update(0, d) =~= seq![d]);
    } else {
        assert(d =~= Seq::<char>::empty());
    }
}

/// A comma followed by comma-free text starts one more group, holding that text.
proof fn lemma_comma_groups_append(a: Seq<char>, b: Seq<char>)
    requires
        forall|i: int| 0 <= i < b.len() ==> b[i] != ',',
    ensures
        comma_groups(a + seq![','] + b) == comma_groups(a).push(b),
    decreases b.len(),
{
    let u = a + seq![','] + b;
    if b.len() == 0 {
        assert(u.drop_last() =~= a);
        assert(u =~= a + seq![',']);
        assert(Seq::<char>::empty() =~= b);
    } else {
        lemma_comma_groups_append(a, b.drop_last());
        assert(u.drop_last() =~= a + seq![','] + b.drop_last());
        assert(u.last() == b.last());
        assert(b.drop_last().push(b.last()) =~= b);
        assert(comma_groups(a).push(b.drop_last()).update(comma_groups(a).len() as int, b)
            =~= comma_groups(a).push(b));
    }
}

proof fn lemma_group_thousands_groups(d: Seq<char>)
    requires
        d.len() >= 1,
        forall|i: int| 0 <= i < d.len() ==> d[i] != ',',
    ensures
        comma_groups(group_thousands(d)).len() >= 1,
        1 <= comma_groups(group_thousands(d))[0].len() <= 3,
        forall|j: int|
            1 <= j < comma_groups(group_thousands(d)).len() ==> #[trigger] comma_groups(
                group_thousands(d),
            )[j].len() == 3,
    decreases d.len(),
{
    if d.len() <= 3 {
        lemma_comma_groups_free(d);
    } else {
        let head = d.take(d.len() - 3);
        let tail = d.skip(d.len() - 3);
        lemma_group_thousands_groups(head);
        lemma_comma_groups_append(group_thousands(head), tail);
    }
}

/// Amounts are grouped by thousands: split at its commas, the text of an amount has a
/// first group of one to three digits and every further group of exactly three.
pub proof fn law_amount_text_groups(amount: nat)
    ensures
        comma_groups(amount_text(amount)).len() >= 1,
        1 <= comma_groups(amount_text(amount))[0].len() <= 3,
        forall|j: int|
            1 <= j < comma_groups(amount_text(amount)).len() ==> #[trigger] comma_groups(
                amount_text(amount),
            )[j].len() == 3,
{
    lemma_digits_have_no_commas(amount);
    lemma_decimal_nonempty(amount);
    lemma_group_thousands_groups(decimal(amount));
}

proof fn lemma_decimal_nonempty(n: nat)
    ensures
        decimal(n).len() >= 1,
    decreases n,
{
    if n >= 10 {
        lemma_decimal_nonempty(n / 10);
    }
}

/// The value of a decimal digit character.
pub open spec fn digit_value(c: char) -> nat {
    if c == '1' {
        1
    } else if c == '2' {
        2
    } else if c == '3' {
        3
    } else if c == '4' {
        4
    } else if c == '5' {
        5
    } else if c == '6' {
        6
    } else if c == '7' {
        7
    } else if c == '8' {
        8
    } else if c == '9' {
        9
    } else {
        0
    }
}

/// The number that a sequence of decimal digits denotes.
pub open spec fn decimal_value(d: Seq<char>) -> nat
    decreases d.len(),
{
    if d.len() == 0 {
        0
    } else {
        decimal_value(d.drop_last()) * 10 + digit_value(d.last())
    }
}

proof fn lemma_digit_value(d: nat)
    requires
        d < 10,
    ensures
        digit_value(digit_char(d)) == d,
{
}

/// Law: the decimal representation denotes the number it was made from.
pub proof fn law_decimal_round_trip(n: nat)
    ensures
        decimal_value(decimal(n)) == n,
    decreases n,
{
    if n >= 10 {
        law_decimal_round_trip(n / 10);
        lemma_digit_value(n % 10);
        assert(decimal(n).drop_last() == decimal(n / 10));
        assert(decimal(n).last() == digit_char(n % 10));
        assert(n == (n / 10) * 10 + n % 10);
    } else {
        lemma_digit_value(n);
        assert(decimal(n).drop_last() =~= Seq::<char>::empty());
        assert(decimal_value(Seq::<char>::empty()) == 0);
    }
}

/// Law: the thousands separators are the only thing an amount's text adds to its
/// decimal digits; removing them gives back the plain decimal representation.
pub proof fn law_amount_text_is_grouped_decimal(amount: nat)
    ensures
        without_commas(amount_text(amount)) == decimal(amount),
{
    lemma_digits_have_no_commas(amount);
    lemma_without_commas_free(decimal(amount));
    lemma_group_thousands_strips(decimal(amount));
}


/// `parts` joined by `sep`.
pub open spec fn join(parts: Seq<Seq<char>>, sep: Seq<char>) -> Seq<char>
    decreases parts.len(),
{
    if parts.len() == 0 {
        Seq::empty()
    } else if parts.len() == 1 {
        parts[0]
    } else {
        join(parts.drop_last(), sep) + sep + parts.last()
    }
}

/// Joins strings with a separator.
pub fn join_strings(parts: &Vec<String>, sep: &str) -> (s: String)
    ensures
        s@ == join(parts.deep_view(), sep@),
{
    let mut s = String::new();
    let mut i: usize = 0;
    while i < parts.len()
        invariant
            i <= parts.len(),
            s@ == join(parts.deep_view().take(i as int), sep@),
        decreases parts.len() - i,
    {
        let ghost prev = parts.deep_view().take(i as int);
        if i > 0 {
            s.append(sep);
        }
        s.append(parts[i].as_str());
        assert(parts.deep_view().take(i + 1).drop_last() =~= prev);
        assert(parts.deep_view().take(i + 1).last() == parts[i as int]@);
        if i == 0 {
            assert(prev.len() == 0);
        }
        i = i + 1;
    }
    assert(parts.deep_view().take(i as int) =~= parts.deep_view());
    s
}

/// `prefix`, then `inner`, then `suffix`.
pub fn wrap(prefix: &str, inner: &str, suffix: &str) -> (s: String)
    ensures
        s@ == prefix@ + inner@ + suffix@,
{
    let mut s = String::from_str(prefix);
    s.append(inner);
    s.append(suffix);
    s
}

/// `prefix` followed by the decimal digits of `n`, then `suffix`.
pub fn wrap_decimal(prefix: &str, n: u128, suffix: &str) -> (s: String)
    ensures
        s@ == prefix@ + decimal(n as nat) + suffix@,
{
    wrap(prefix, decimal_string(n).as_str(), suffix)
}

/// The text of a boolean: `true` or `false`.
pub open spec fn bool_text(b: bool) -> Seq<char> {
    if b {
        "true"@
    } else {
        "false"@
    }
}

pub fn bool_string(b: bool) -> (s: String)
    ensures
        s@ == bool_text(b),
{
    if b {
        String::from_str("true")
    } else {
        String::from_str("false")
    }
}

} // verus!
