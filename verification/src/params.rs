//! The parameter table of a formatted instruction: a map from labels to lines,
//! kept in ascending label order.

use vstd::prelude::*;

verus! {

/// Lexicographic order on character sequences, comparing characters by code point
/// (the order of their UTF-8 bytes).
pub open spec fn lex_lt(a: Seq<char>, b: Seq<char>) -> bool
    decreases a.len(),
{
    if a.len() == 0 {
        b.len() > 0
    } else if b.len() == 0 {
        false
    } else if a[0] == b[0] {
        lex_lt(a.drop_first(), b.drop_first())
    } else {
        (a[0] as u32) < (b[0] as u32)
    }
}

/// One row of the table: a label and its lines.
pub type Entry = (Seq<char>, Seq<Seq<char>>);

/// Labels strictly ascending.
pub open spec fn is_sorted(s: Seq<Entry>) -> bool {
    forall|i: int, j: int| 0 <= i < j < s.len() ==> lex_lt(#[trigger] s[i].0, #[trigger] s[j].0)
}

/// The table after setting `key` to `value`: the row of `key` is replaced when it
/// exists, otherwise a row is added before the first larger label.
pub open spec fn insert_entry(s: Seq<Entry>, key: Seq<char>, value: Seq<Seq<char>>) -> Seq<Entry>
    decreases s.len(),
{
    if s.len() == 0 {
        seq![(key, value)]
    } else if s[0].0 == key {
        seq![(key, value)] + s.drop_first()
    } else if lex_lt(key, s[0].0) {
        seq![(key, value)] + s
    } else {
        seq![s[0]] + insert_entry(s.drop_first(), key, value)
    }
}

/// The lines stored under `key`, if any.
pub open spec fn lookup(s: Seq<Entry>, key: Seq<char>) -> Option<Seq<Seq<char>>>
    decreases s.len(),
{
    if s.len() == 0 {
        None
    } else if s[0].0 == key {
        Some(s[0].1)
    } else {
        lookup(s.drop_first(), key)
    }
}

/// The table built by setting each row of `rows` in turn, starting from an empty table.
pub open spec fn table_of(rows: Seq<Entry>) -> Seq<Entry>
    decreases rows.len(),
{
    if rows.len() == 0 {
        Seq::empty()
    } else {
        let t = table_of(rows.drop_last());
        insert_entry(t, rows.last().0, rows.last().1)
    }
}

pub proof fn lemma_lex_irreflexive(a: Seq<char>)
    ensures
        !lex_lt(a, a),
    decreases a.len(),
{
    if a.len() > 0 {
        lemma_lex_irreflexive(a.drop_first());
    }
}

pub proof fn lemma_lex_total(a: Seq<char>, b: Seq<char>)
    ensures
        a == b || lex_lt(a, b) || lex_lt(b, a),
        !(lex_lt(a, b) && lex_lt(b, a)),
    decreases a.len(),
{
    if a.len() > 0 && b.len() > 0 && a[0] == b[0] {
        lemma_lex_total(a.drop_first(), b.drop_first());
        if a.drop_first() == b.drop_first() {
            assert(a == seq![a[0]] + a.drop_first());
            assert(b == seq![b[0]] + b.drop_first());
        }
    } else if a.len() == 0 && b.len() == 0 {
        assert(a == b);
    } else if a.len() > 0 && b.len() > 0 {
        vstd::utf8::char_u32_cast(a[0], a[0] as u32);
        vstd::utf8::char_u32_cast(b[0], b[0] as u32);
    }
}

pub proof fn lemma_lex_transitive(a: Seq<char>, b: Seq<char>, c: Seq<char>)
    requires
        lex_lt(a, b),
        lex_lt(b, c),
    ensures
        lex_lt(a, c),
    decreases a.len(),
{
    if a.len() > 0 && b.len() > 0 && c.len() > 0 && a[0] == b[0] && b[0] == c[0] {
        lemma_lex_transitive(a.drop_first(), b.drop_first(), c.drop_first());
    }
}

proof fn lemma_insert_entry_shape(s: Seq<Entry>, key: Seq<char>, value: Seq<Seq<char>>)
    requires
        is_sorted(s),
    ensures
        is_sorted(insert_entry(s, key, value)),
        lookup(insert_entry(s, key, value), key) == Some(value),
        forall|k: Seq<char>| k != key ==> lookup(insert_entry(s, key, value), k) == lookup(s, k),
        forall|i: int|
            0 <= i < insert_entry(s, key, value).len() ==> {
                ||| insert_entry(s, key, value)[i].0 == key
                ||| exists|j: int| 0 <= j < s.len() && s[j].0 == #[trigger] insert_entry(s, key, value)[i].0
            },
        lookup(s, key) is Some ==> insert_entry(s, key, value).len() == s.len(),
        lookup(s, key) is None ==> insert_entry(s, key, value).len() == s.len() + 1,
    decreases s.len(),
{
    let r = insert_entry(s, key, value);
    if s.len() == 0 {
        assert forall|k: Seq<char>| k != key implies lookup(r, k) == lookup(s, k) by {
            assert(r.len() == 1);
            assert(r[0].0 == key);
            assert(lookup(r, k) == lookup(r.drop_first(), k));
            assert(r.drop_first().len() == 0);
            assert(lookup(r.drop_first(), k) is None);
        }
    } else if s[0].0 == key {
        let t = s.drop_first();
        assert(r.drop_first() == t);
        assert forall|i: int, j: int| 0 <= i < j < r.len() implies lex_lt(#[trigger] r[i].0, #[trigger] r[j].0) by {
            assert(s[i].0 == r[i].0);
            assert(s[j].0 == r[j].0);
        }
        assert forall|k: Seq<char>| k != key implies lookup(r, k) == lookup(s, k) by {
            assert(r.drop_first() == s.drop_first());
        }
        assert forall|i: int| 0 <= i < r.len() implies {
            ||| r[i].0 == key
            ||| exists|j: int| 0 <= j < s.len() && s[j].0 == #[trigger] r[i].0
        } by {
            assert(s[i].0 == r[i].0);
        }
    } else if lex_lt(key, s[0].0) {
        assert(r.drop_first() == s);
        assert forall|i: int, j: int| 0 <= i < j < r.len() implies lex_lt(#[trigger] r[i].0, #[trigger] r[j].0) by {
            if i == 0 {
                if j > 1 {
                    lemma_lex_transitive(key, s[0].0, s[j - 1].0);
                }
            } else {
                assert(r[i] == s[i - 1]);
                assert(r[j] == s[j - 1]);
            }
        }
        assert forall|k: Seq<char>| k != key implies lookup(r, k) == lookup(s, k) by {
            assert(r.drop_first() == s);
        }
        lemma_lookup_absent_below(s, key);
        assert forall|i: int| 0 <= i < r.len() implies {
            ||| r[i].0 == key
            ||| exists|j: int| 0 <= j < s.len() && s[j].0 == #[trigger] r[i].0
        } by {
            if i > 0 {
                assert(s[i - 1].0 == r[i].0);
            }
        }
    } else {
        let t = s.drop_first();
        assert(is_sorted(t)) by {
            assert forall|i: int, j: int| 0 <= i < j < t.len() implies lex_lt(#[trigger] t[i].0, #[trigger] t[j].0) by {
                assert(t[i] == s[i + 1]);
                assert(t[j] == s[j + 1]);
            }
        }
        lemma_insert_entry_shape(t, key, value);
        let rt = insert_entry(t, key, value);
        assert(r.drop_first() == rt);
        lemma_lex_total(key, s[0].0);
        assert forall|k: Seq<char>| k != key implies lookup(r, k) == lookup(s, k) by {
            assert(r[0] == s[0]);
            if s[0].0 != k {
                assert(lookup(r, k) == lookup(rt, k));
                assert(lookup(rt, k) == lookup(t, k));
            }
        }
        assert forall|i: int, j: int| 0 <= i < j < r.len() implies lex_lt(#[trigger] r[i].0, #[trigger] r[j].0) by {
            if i == 0 {
                assert(r[i] == s[0]);
                assert(r[j] == rt[j - 1]);
                if rt[j - 1].0 != key {
                    let jj = choose|jj: int| 0 <= jj < t.len() && t[jj].0 == rt[j - 1].0;
                    assert(t[jj] == s[jj + 1]);
                }
            } else {
                assert(r[i] == rt[i - 1]);
                assert(r[j] == rt[j - 1]);
            }
        }
        assert forall|i: int| 0 <= i < r.len() implies {
            ||| r[i].0 == key
            ||| exists|j: int| 0 <= j < s.len() && s[j].0 == #[trigger] r[i].0
        } by {
            if i == 0 {
                assert(s[0].0 == r[i].0);
            } else {
                assert(r[i] == rt[i - 1]);
                if rt[i - 1].0 != key {
                    let jj = choose|jj: int| 0 <= jj < t.len() && t[jj].0 == rt[i - 1].0;
                    assert(s[jj + 1].0 == r[i].0);
                }
            }
        }
    }
}

proof fn lemma_lookup_absent_below(s: Seq<Entry>, key: Seq<char>)
    requires
        is_sorted(s),
        s.len() > 0,
        lex_lt(key, s[0].0),
    ensures
        lookup(s, key) is None,
    decreases s.len(),
{
    lemma_lex_total(key, s[0].0);
    lemma_lex_irreflexive(key);
    assert(s[0].0 != key);
    assert(lookup(s, key) == lookup(s.drop_first(), key));
    if s.len() == 1 {
        assert(s.drop_first().len() == 0);
        assert(lookup(s.drop_first(), key) is None);
    } else {
        let t = s.drop_first();
        assert(t[0] == s[1]);
        lemma_lex_transitive(key, s[0].0, s[1].0);
        assert(is_sorted(t)) by {
            assert forall|i: int, j: int| 0 <= i < j < t.len() implies lex_lt(#[trigger] t[i].0, #[trigger] t[j].0) by {
                assert(t[i] == s[i + 1]);
                assert(t[j] == s[j + 1]);
            }
        }
        lemma_lookup_absent_below(t, key);
    }
}


proof fn lemma_insert_entry_at(s: Seq<Entry>, key: Seq<char>, value: Seq<Seq<char>>, i: int)
    requires
        0 <= i <= s.len(),
        forall|j: int| 0 <= j < i ==> lex_lt(#[trigger] s[j].0, key),
        i < s.len() ==> !lex_lt(s[i].0, key),
    ensures
        i < s.len() && s[i].0 == key ==> insert_entry(s, key, value) == s.take(i) + seq![(key, value)] + s.skip(i + 1),
        !(i < s.len() && s[i].0 == key) ==> insert_entry(s, key, value) == s.take(i) + seq![(key, value)] + s.skip(i),
    decreases i,
{
    if i == 0 {
        if s.len() > 0 && s[0].0 != key {
            lemma_lex_total(key, s[0].0);
        }
        assert(s.take(0) + seq![(key, value)] + s.skip(0) == seq![(key, value)] + s);
        assert(s.take(0) + seq![(key, value)] + s.skip(1) == seq![(key, value)] + s.drop_first());
    } else {
        let t = s.drop_first();
        lemma_lex_irreflexive(key);
        lemma_lex_total(key, s[0].0);
        assert(s[0].0 != key);
        assert forall|j: int| 0 <= j < i - 1 implies lex_lt(#[trigger] t[j].0, key) by {
            assert(t[j] == s[j + 1]);
        }
        lemma_insert_entry_at(t, key, value, i - 1);
        assert(s.take(i) == seq![s[0]] + t.take(i - 1));
        assert(s.skip(i) == t.skip(i - 1));
        if i < s.len() {
            assert(s.skip(i + 1) == t.skip(i));
        }
    }
}

/// Law: setting a label in a sorted table stores its lines, leaves every other label's
/// lines as they were, keeps the labels in strictly ascending order, and adds a row
/// exactly when the label was absent.
pub proof fn law_insert_then_lookup(s: Seq<Entry>, key: Seq<char>, value: Seq<Seq<char>>)
    requires
        is_sorted(s),
    ensures
        lookup(insert_entry(s, key, value), key) == Some(value),
        forall|k: Seq<char>| k != key ==> lookup(insert_entry(s, key, value), k) == lookup(s, k),
        is_sorted(insert_entry(s, key, value)),
        lookup(s, key) is Some ==> insert_entry(s, key, value).len() == s.len(),
        lookup(s, key) is None ==> insert_entry(s, key, value).len() == s.len() + 1,
{
    lemma_insert_entry_shape(s, key, value);
}

/// Law: when rows are set in order, a label holds the lines of the last row that names
/// it, and the table holds no label that no row names.
pub proof fn law_table_last_row_wins(rows: Seq<Entry>, i: int)
    requires
        0 <= i < rows.len(),
        forall|j: int| i < j < rows.len() ==> #[trigger] rows[j].0 != rows[i].0,
    ensures
        lookup(table_of(rows), rows[i].0) == Some(rows[i].1),
        forall|k: Seq<char>|
            #[trigger] lookup(table_of(rows), k) is Some ==> exists|j: int|
                0 <= j < rows.len() && rows[j].0 == k,
    decreases rows.len(),
{
    let init = rows.drop_last();
    let t = table_of(init);
    lemma_table_sorted(init);
    lemma_insert_entry_shape(t, rows.last().0, rows.last().1);
    if i < rows.len() - 1 {
        assert forall|j: int| i < j < init.len() implies #[trigger] init[j].0 != init[i].0 by {
            assert(init[j] == rows[j]);
        }
        law_table_last_row_wins(init, i);
        assert(init[i] == rows[i]);
    }
    assert forall|k: Seq<char>| #[trigger] lookup(table_of(rows), k) is Some implies exists|j: int|
        0 <= j < rows.len() && rows[j].0 == k by {
        if k == rows.last().0 {
            assert(rows[rows.len() - 1].0 == k);
        } else {
            lemma_lookup_some_has_row(t, k);
            let jj = choose|jj: int| 0 <= jj < t.len() && t[jj].0 == k;
            lemma_table_rows_come_from(init, jj);
            let m = choose|m: int| 0 <= m < init.len() && init[m].0 == t[jj].0;
            assert(rows[m] == init[m]);
        }
    }
}

/// Labels pairwise distinct.
pub open spec fn distinct_labels(rows: Seq<Entry>) -> bool {
    forall|i: int, j: int| 0 <= i < j < rows.len() ==> #[trigger] rows[i].0 != #[trigger] rows[j].0
}

/// Law: a table built from rows with distinct labels has one row per given row, and
/// each label holds exactly the lines it was given, in ascending label order.
pub proof fn law_table_keeps_distinct_rows(rows: Seq<Entry>)
    requires
        distinct_labels(rows),
    ensures
        table_of(rows).len() == rows.len(),
        is_sorted(table_of(rows)),
        forall|i: int| 0 <= i < rows.len() ==> lookup(table_of(rows), #[trigger] rows[i].0) == Some(rows[i].1),
    decreases rows.len(),
{
    if rows.len() == 0 {
    } else {
        let init = rows.drop_last();
        assert(distinct_labels(init)) by {
            assert forall|i: int, j: int| 0 <= i < j < init.len() implies #[trigger] init[i].0 != #[trigger] init[j].0 by {
                assert(init[i] == rows[i]);
                assert(init[j] == rows[j]);
            }
        }
        law_table_keeps_distinct_rows(init);
        let t = table_of(init);
        let last = rows.last();
        lemma_insert_entry_shape(t, last.0, last.1);
        assert(lookup(t, last.0) is None) by {
            if lookup(t, last.0) is Some {
                lemma_lookup_some_has_row(t, last.0);
                let j = choose|j: int| 0 <= j < t.len() && t[j].0 == last.0;
                lemma_table_rows_come_from(init, j);
                let k = choose|k: int| 0 <= k < init.len() && init[k].0 == t[j].0;
                assert(rows[k].0 == rows[rows.len() - 1].0);
            }
        }
        assert forall|i: int| 0 <= i < rows.len() implies lookup(table_of(rows), #[trigger] rows[i].0) == Some(rows[i].1) by {
            if i < rows.len() - 1 {
                assert(init[i] == rows[i]);
                assert(rows[i].0 != last.0);
            }
        }
    }
}

proof fn lemma_lookup_some_has_row(s: Seq<Entry>, key: Seq<char>)
    requires
        lookup(s, key) is Some,
    ensures
        exists|j: int| 0 <= j < s.len() && s[j].0 == key,
    decreases s.len(),
{
    if s[0].0 != key {
        lemma_lookup_some_has_row(s.drop_first(), key);
        let j = choose|j: int| 0 <= j < s.drop_first().len() && s.drop_first()[j].0 == key;
        assert(s[j + 1].0 == key);
    } else {
        assert(s[0].0 == key);
    }
}

proof fn lemma_table_rows_come_from(rows: Seq<Entry>, j: int)
    requires
        0 <= j < table_of(rows).len(),
    ensures
        exists|k: int| 0 <= k < rows.len() && rows[k].0 == table_of(rows)[j].0,
    decreases rows.len(),
{
    if rows.len() == 0 {
    } else {
        let init = rows.drop_last();
        let t = table_of(init);
        lemma_table_sorted(init);
        lemma_insert_entry_shape(t, rows.last().0, rows.last().1);
        let r = table_of(rows);
        if r[j].0 == rows.last().0 {
            assert(rows[rows.len() - 1].0 == r[j].0);
        } else {
            let jj = choose|jj: int| 0 <= jj < t.len() && t[jj].0 == r[j].0;
            lemma_table_rows_come_from(init, jj);
            let k = choose|k: int| 0 <= k < init.len() && init[k].0 == t[jj].0;
            assert(rows[k] == init[k]);
        }
    }
}

proof fn lemma_table_sorted(rows: Seq<Entry>)
    ensures
        is_sorted(table_of(rows)),
    decreases rows.len(),
{
    if rows.len() > 0 {
        lemma_table_sorted(rows.drop_last());
        lemma_insert_entry_shape(table_of(rows.drop_last()), rows.last().0, rows.last().1);
    }
}

/// Re-inserting the rows of a sorted table in order rebuilds it row by row.
pub proof fn lemma_insert_at_end(s: Seq<Entry>, i: int)
    requires
        is_sorted(s),
        0 <= i < s.len(),
    ensures
        insert_entry(s.take(i), s[i].0, s[i].1) == s.take(i + 1),
{
    let t = s.take(i);
    assert forall|j: int| 0 <= j < i implies lex_lt(#[trigger] t[j].0, s[i].0) by {
        assert(t[j] == s[j]);
    }
    lemma_insert_entry_at(t, s[i].0, s[i].1, i);
    assert(t.take(i) + seq![(s[i].0, s[i].1)] + t.skip(i) =~= s.take(i + 1));
}

/// Whether `a` sorts strictly before `b`.
pub fn lex_less(a: &str, b: &str) -> (r: bool)
    ensures
        r == lex_lt(a@, b@),
{
    let na = a.unicode_len();
    let nb = b.unicode_len();
    let mut i: usize = 0;
    assert(a@.skip(0) == a@);
    assert(b@.skip(0) == b@);
    while i < na && i < nb
        invariant
            na == a@.len(),
            nb == b@.len(),
            i <= na,
            i <= nb,
            lex_lt(a@, b@) == lex_lt(a@.skip(i as int), b@.skip(i as int)),
        decreases na - i,
    {
        let ca = a.get_char(i);
        let cb = b.get_char(i);
        if ca != cb {
            assert(a@.skip(i as int)[0] == ca);
            assert(b@.skip(i as int)[0] == cb);
            return (ca as u32) < (cb as u32);
        }
        assert(a@.skip(i as int).drop_first() == a@.skip(i + 1));
        assert(b@.skip(i as int).drop_first() == b@.skip(i + 1));
        i = i + 1;
    }
    assert(a@.skip(i as int).len() == na - i);
    assert(b@.skip(i as int).len() == nb - i);
    i == na && i < nb
}

/// The parameter table of an instruction: labels mapped to lines, in ascending label order.
pub struct Params {
    entries: Vec<(String, Vec<String>)>,
}

impl View for Params {
    type V = Seq<Entry>;

    /// The rows of the table, in ascending label order.
    closed spec fn view(&self) -> Seq<Entry> {
        self.entries.deep_view()
    }
}

impl Params {
    #[verifier::type_invariant]
    closed spec fn rows_sorted(self) -> bool {
        is_sorted(self.entries.deep_view())
    }

    /// An empty table.
    pub fn new() -> (p: Params)
        ensures
            p@ == Seq::<Entry>::empty(),
    {
        let p = Params { entries: Vec::new() };
        assert(p.entries.deep_view() =~= Seq::<Entry>::empty());
        p
    }

    /// Number of rows.
    pub fn len(&self) -> (n: usize)
        ensures
            n == self@.len(),
    {
        self.entries.len()
    }

    /// The rows, in ascending label order.
    pub fn entries(&self) -> (rows: &Vec<(String, Vec<String>)>)
        ensures
            rows.deep_view() == self@,
            is_sorted(self@),
    {
        proof {
            use_type_invariant(self);
        }
        &self.entries
    }

    /// The lines stored under `key`.
    pub fn get(&self, key: &str) -> (res: Option<&Vec<String>>)
        ensures
            res matches Some(v) ==> lookup(self@, key@) == Some(v.deep_view()),
            res is None ==> lookup(self@, key@) is None,
    {
        let n = self.entries.len();
        let mut i: usize = 0;
        assert(self@.skip(0) == self@);
        while i < n
            invariant
                n == self.entries@.len(),
                i <= n,
                lookup(self@, key@) == lookup(self@.skip(i as int), key@),
            decreases n - i,
        {
            let ghost rest = self@.skip(i as int);
            assert(rest[0] == self.entries@[i as int].deep_view());
            if !lex_less(self.entries[i].0.as_str(), key) && !lex_less(key, self.entries[i].0.as_str()) {
                proof {
                    lemma_lex_total(self.entries@[i as int].0@, key@);
                }
                return Some(&self.entries[i].1);
            }
            proof {
                lemma_lex_irreflexive(key@);
            }
            assert(rest.drop_first() == self@.skip(i + 1));
            i = i + 1;
        }
        assert(self@.skip(i as int).len() == 0);
        None
    }

    /// Sets the lines of `key`, replacing the row when the label is present.
    pub fn insert(&mut self, key: String, value: Vec<String>)
        ensures
            final(self)@ == insert_entry(old(self)@, key@, value.deep_view()),
            is_sorted(final(self)@),
    {
        proof {
            use_type_invariant(&*self);
        }
        let ghost old_rows = self@;
        let mut entries: Vec<(String, Vec<String>)> = Vec::new();
        std::mem::swap(&mut entries, &mut self.entries);
        assert(entries.deep_view() == old_rows);
        let n = entries.len();
        let mut i: usize = 0;
        while i < n && lex_less(entries[i].0.as_str(), key.as_str())
            invariant
                n == entries@.len(),
                entries.deep_view() == old_rows,
                i <= n,
                forall|j: int| 0 <= j < i ==> lex_lt(#[trigger] old_rows[j].0, key@),
            decreases n - i,
        {
            assert(old_rows[i as int] == entries@[i as int].deep_view());
            i = i + 1;
        }
        if i < n {
            assert(old_rows[i as int] == entries@[i as int].deep_view());
        }
        let ghost kv = (key@, value.deep_view());
        proof {
            lemma_insert_entry_at(old_rows, key@, value.deep_view(), i as int);
            lemma_insert_entry_shape(old_rows, key@, value.deep_view());
        }
        if i < n && entries[i].0 == key {
            entries.set(i, (key, value));
            assert(entries.deep_view() =~= old_rows.take(i as int) + seq![kv] + old_rows.skip(i + 1));
        } else {
            entries.insert(i, (key, value));
            assert(entries.deep_view() =~= old_rows.take(i as int) + seq![kv] + old_rows.skip(i as int));
        }
        self.entries = entries;
    }
}

} // verus!
