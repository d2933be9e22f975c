//! Stored documents as plain values: the fields a record holds, the filters
//! that select records, and the updates applied to them.

use vstd::prelude::*;

verus! {

/// A value stored under a key of a document, as far as this service reads
/// or writes one.
#[derive(Debug)]
pub enum Field {
    Str(String),
    Int32(i32),
    Int64(i64),
    Bool(bool),
    /// Any other kind of stored value.
    Other,
}

/// The mathematical value of a [`Field`].
pub ghost enum FieldView {
    Str(Seq<char>),
    Int32(i32),
    Int64(i64),
    Bool(bool),
    Other,
}

impl View for Field {
    type V = FieldView;

    open spec fn view(&self) -> FieldView {
        match self {
            Field::Str(s) => FieldView::Str(s@),
            Field::Int32(v) => FieldView::Int32(*v),
            Field::Int64(v) => FieldView::Int64(*v),
            Field::Bool(b) => FieldView::Bool(*b),
            Field::Other => FieldView::Other,
        }
    }
}

/// The entries of a document, key and value, in order.
pub type Entries = Seq<(Seq<char>, FieldView)>;

/// A stored record: keys with their values, in order, each key at most once.
#[derive(Debug)]
pub struct Document {
    pub entries: Vec<(String, Field)>,
}

/// The view of a vector of document entries.
pub open spec fn entries_view(v: Seq<(String, Field)>) -> Entries {
    v.map_values(|e: (String, Field)| (e.0@, e.1@))
}

impl View for Document {
    type V = Entries;

    open spec fn view(&self) -> Entries {
        entries_view(self.entries@)
    }
}

/// The value stored under the first occurrence of key `k`.
pub open spec fn entry_of<V>(es: Seq<(Seq<char>, V)>, k: Seq<char>) -> Option<V>
    decreases es.len(),
{
    if es.len() == 0 {
        None
    } else if es[0].0 == k {
        Some(es[0].1)
    } else {
        entry_of(es.drop_first(), k)
    }
}

/// The string under `k`, where the document holds a string there
/// (`Document::get_str` of the store's driver).
pub open spec fn doc_str(d: Entries, k: Seq<char>) -> Option<Seq<char>> {
    match entry_of(d, k) {
        Some(FieldView::Str(s)) => Some(s),
        _ => None,
    }
}

/// The 64-bit integer under `k`, where the document holds one there
/// (`Document::get_i64` of the store's driver: a 32-bit integer does not do).
pub open spec fn doc_i64(d: Entries, k: Seq<char>) -> Option<i64> {
    match entry_of(d, k) {
        Some(FieldView::Int64(v)) => Some(v),
        _ => None,
    }
}

/// The boolean under `k`, where the document holds one there.
pub open spec fn doc_bool(d: Entries, k: Seq<char>) -> Option<bool> {
    match entry_of(d, k) {
        Some(FieldView::Bool(b)) => Some(b),
        _ => None,
    }
}

/// The integer that deserializing the document into a record reads for an
/// `i64` field: a 32-bit or a 64-bit integer.
pub open spec fn doc_integer(d: Entries, k: Seq<char>) -> Option<i64> {
    match entry_of(d, k) {
        Some(FieldView::Int64(v)) => Some(v),
        Some(FieldView::Int32(v)) => Some(v as i64),
        _ => None,
    }
}

/// The views of a vector of documents.
pub open spec fn documents_view(v: Seq<Document>) -> Seq<Entries> {
    v.map_values(|d: Document| d@)
}

/// Decodes every document with `f`; `None` where one of them does not
/// decode.
pub open spec fn decode_all<T>(ds: Seq<Entries>, f: spec_fn(Entries) -> Option<T>) -> Option<Seq<T>>
    decreases ds.len(),
{
    if ds.len() == 0 {
        Some(Seq::empty())
    } else {
        match (decode_all(ds.drop_last(), f), f(ds.last())) {
            (Some(xs), Some(x)) => Some(xs.push(x)),
            _ => None,
        }
    }
}

/// Decoding a prefix one document further.
pub proof fn lemma_decode_all_step<T>(ds: Seq<Entries>, f: spec_fn(Entries) -> Option<T>, i: int)
    requires
        0 <= i < ds.len(),
    ensures
        decode_all(ds.take(i + 1), f) == match (decode_all(ds.take(i), f), f(ds[i])) {
            (Some(xs), Some(x)) => Some(xs.push(x)),
            _ => None::<Seq<T>>,
        },
{
    assert(ds.take(i + 1).drop_last() =~= ds.take(i));
}

/// Where a prefix does not decode, neither does the whole.
pub proof fn lemma_decode_all_prefix_none<T>(
    ds: Seq<Entries>,
    f: spec_fn(Entries) -> Option<T>,
    i: int,
)
    requires
        0 <= i <= ds.len(),
        decode_all(ds.take(i), f) is None,
    ensures
        decode_all(ds, f) is None,
    decreases ds.len() - i,
{
    if i < ds.len() {
        lemma_decode_all_step(ds, f, i);
        lemma_decode_all_prefix_none(ds, f, i + 1);
    } else {
        assert(ds.take(i) =~= ds);
    }
}

/// Where the first entry with key `k` stands, the lookup gives its value.
pub proof fn lemma_entry_of_at<V>(es: Seq<(Seq<char>, V)>, k: Seq<char>, j: int)
    requires
        0 <= j < es.len(),
        es[j].0 == k,
        forall|l: int| 0 <= l < j ==> es[l].0 != k,
    ensures
        entry_of(es, k) == Some(es[j].1),
    decreases j,
{
    if j > 0 {
        lemma_entry_of_at(es.drop_first(), k, j - 1);
    }
}

/// What the lookup gives stands in the entries under its key.
pub proof fn lemma_entry_of_stands<V>(es: Seq<(Seq<char>, V)>, k: Seq<char>)
    ensures
        entry_of(es, k) matches Some(v) ==> exists|i: int| 0 <= i < es.len() && #[trigger] es[i] == (k, v),
    decreases es.len(),
{
    if es.len() > 0 {
        lemma_entry_of_stands(es.drop_first(), k);
        if es[0].0 == k {
            assert(es[0] == (k, es[0].1));
        } else if let Some(v) = entry_of(es, k) {
            let i = choose|i: int| 0 <= i < es.drop_first().len() && #[trigger] es.drop_first()[i] == (k, v);
            assert(es[i + 1] == (k, v));
        }
    }
}

/// Where no entry has key `k`, the lookup gives nothing.
proof fn lemma_entry_of_absent<V>(es: Seq<(Seq<char>, V)>, k: Seq<char>)
    requires
        forall|l: int| 0 <= l < es.len() ==> es[l].0 != k,
    ensures
        entry_of(es, k) == None::<V>,
    decreases es.len(),
{
    if es.len() > 0 {
        lemma_entry_of_absent(es.drop_first(), k);
    }
}

impl Document {
    /// A document with no entries.
    pub fn new() -> (res: Document)
        ensures
            res@ == Seq::<(Seq<char>, FieldView)>::empty(),
    {
        Document { entries: Vec::new() }
    }

    /// Appends an entry; the caller adds each key once.
    pub fn push(&mut self, key: &str, value: Field)
        ensures
            final(self)@ == old(self)@.push((key@, value@)),
    {
        let ghost before = self@;
        let k = key.to_owned();
        let ghost e = (k@, value@);
        self.entries.push((k, value));
        proof {
            assert(self@ =~= before.push(e));
        }
    }

    /// The position of the first entry with key `key`.
    fn index_of(&self, key: &str) -> (res: Option<usize>)
        ensures
            res matches Some(i) ==> i < self@.len() && self@[i as int].0 == key@ && forall|
                l: int,
            |
                0 <= l < i ==> self@[l].0 != key@,
            res is None ==> forall|l: int| 0 <= l < self@.len() ==> self@[l].0 != key@,
    {
        let k = key.to_owned();
        let mut i: usize = 0;
        while i < self.entries.len()
            invariant
                i <= self.entries.len(),
                k@ == key@,
                forall|l: int| 0 <= l < i ==> self@[l].0 != key@,
            decreases self.entries.len() - i,
        {
            assert(self@[i as int].0 == self.entries@[i as int].0@);
            if self.entries[i].0 == k {
                return Some(i);
            }
            i = i + 1;
        }
        None
    }

    /// The value under `key`.
    fn lookup(&self, key: &str) -> (res: Option<&Field>)
        ensures
            match res {
                Some(f) => entry_of(self@, key@) == Some(f@),
                None => entry_of(self@, key@) is None,
            },
    {
        match self.index_of(key) {
            Some(i) => {
                proof {
                    lemma_entry_of_at(self@, key@, i as int);
                }
                Some(&self.entries[i].1)
            },
            None => {
                proof {
                    lemma_entry_of_absent(self@, key@);
                }
                None
            },
        }
    }

    /// The string under `key`, if the document holds a string there.
    pub fn get_str(&self, key: &str) -> (res: Option<String>)
        ensures
            match res {
                Some(s) => doc_str(self@, key@) == Some(s@),
                None => doc_str(self@, key@) is None,
            },
    {
        match self.lookup(key) {
            Some(Field::Str(s)) => Some(s.clone()),
            _ => None,
        }
    }

    /// The 64-bit integer under `key`, if the document holds one there.
    pub fn get_i64(&self, key: &str) -> (res: Option<i64>)
        ensures
            res == doc_i64(self@, key@),
    {
        match self.lookup(key) {
            Some(Field::Int64(v)) => Some(*v),
            _ => None,
        }
    }

    /// The boolean under `key`, if the document holds one there.
    pub fn get_bool(&self, key: &str) -> (res: Option<bool>)
        ensures
            res == doc_bool(self@, key@),
    {
        match self.lookup(key) {
            Some(Field::Bool(b)) => Some(*b),
            _ => None,
        }
    }

    /// The integer under `key` as deserializing reads an `i64` field.
    pub fn get_integer(&self, key: &str) -> (res: Option<i64>)
        ensures
            res == doc_integer(self@, key@),
    {
        match self.lookup(key) {
            Some(Field::Int64(v)) => Some(*v),
            Some(Field::Int32(v)) => Some(*v as i64),
            _ => None,
        }
    }
}

/// What a filter asks of the value under its key.
#[derive(Debug)]
pub enum Condition {
    /// Equal to this string.
    Str(String),
    /// Equal to this integer.
    Int64(i64),
    /// Equal to this boolean.
    Bool(bool),
    /// Not equal to this string (`$ne`).
    NotEqual(String),
    /// Matching this regular expression with these options (`$regex`,
    /// `$options`).
    Matches { pattern: String, options: String },
    /// Equal to one of these strings (`$in`).
    OneOf(Vec<String>),
}

/// The mathematical value of a [`Condition`].
pub ghost enum ConditionView {
    Str(Seq<char>),
    Int64(i64),
    Bool(bool),
    NotEqual(Seq<char>),
    Matches { pattern: Seq<char>, options: Seq<char> },
    OneOf(Seq<Seq<char>>),
}

impl View for Condition {
    type V = ConditionView;

    open spec fn view(&self) -> ConditionView {
        match self {
            Condition::Str(s) => ConditionView::Str(s@),
            Condition::Int64(v) => ConditionView::Int64(*v),
            Condition::Bool(b) => ConditionView::Bool(*b),
            Condition::NotEqual(s) => ConditionView::NotEqual(s@),
            Condition::Matches { pattern, options } => ConditionView::Matches {
                pattern: pattern@,
                options: options@,
            },
            Condition::OneOf(v) => ConditionView::OneOf(v@.map_values(|x: String| x@)),
        }
    }
}

/// The clauses of a filter, key and condition, in order.
pub type Clauses = Seq<(Seq<char>, ConditionView)>;

/// The clauses without those on key `k`, the others in order.
pub open spec fn without_key(es: Clauses, k: Seq<char>) -> Clauses
    decreases es.len(),
{
    if es.len() == 0 {
        es
    } else if es[0].0 == k {
        without_key(es.drop_first(), k)
    } else {
        seq![es[0]] + without_key(es.drop_first(), k)
    }
}

/// What inserting `(k, c)` into the clauses gives (the store's documents
/// keep their keys in insertion order): a clause on `k` is taken out, and
/// the new clause goes to the end.
pub open spec fn insert_clause(es: Clauses, k: Seq<char>, c: ConditionView) -> Clauses {
    without_key(es, k).push((k, c))
}

/// Without clauses on `k`, nothing is taken out.
pub proof fn lemma_without_absent_key(es: Clauses, k: Seq<char>)
    requires
        forall|l: int| 0 <= l < es.len() ==> es[l].0 != k,
    ensures
        without_key(es, k) == es,
    decreases es.len(),
{
    if es.len() > 0 {
        lemma_without_absent_key(es.drop_first(), k);
        assert(seq![es[0]] + es.drop_first() =~= es);
    }
}

/// No clause on `k` is left.
pub proof fn lemma_without_key_free(es: Clauses, k: Seq<char>)
    ensures
        forall|l: int| 0 <= l < without_key(es, k).len() ==> (#[trigger] without_key(es, k)[l]).0 != k,
    decreases es.len(),
{
    if es.len() > 0 {
        lemma_without_key_free(es.drop_first(), k);
        if es[0].0 != k {
            let r = without_key(es, k);
            assert forall|l: int| 0 <= l < r.len() implies (#[trigger] r[l]).0 != k by {
                if l > 0 {
                    assert(r[l] == without_key(es.drop_first(), k)[l - 1]);
                }
            }
        }
    }
}

/// Taking out one clause on `k` changes nothing of what is left without `k`.
pub proof fn lemma_without_key_remove(es: Clauses, k: Seq<char>, i: int)
    requires
        0 <= i < es.len(),
        es[i].0 == k,
    ensures
        without_key(es.remove(i), k) == without_key(es, k),
    decreases es.len(),
{
    if i == 0 {
        assert(es.remove(0) =~= es.drop_first());
    } else {
        lemma_without_key_remove(es.drop_first(), k, i - 1);
        assert(es.remove(i).drop_first() =~= es.drop_first().remove(i - 1));
        assert(es.remove(i)[0] == es[0]);
    }
}

/// Appending a clause and taking out `k`.
pub proof fn lemma_without_key_push(
    es: Clauses,
    x: (Seq<char>, ConditionView),
    k: Seq<char>,
)
    ensures
        without_key(es.push(x), k) == (if x.0 == k {
            without_key(es, k)
        } else {
            without_key(es, k).push(x)
        }),
    decreases es.len(),
{
    if es.len() == 0 {
        assert(es.push(x).drop_first() =~= es);
        assert(seq![x] + es =~= es.push(x));
    } else {
        lemma_without_key_push(es.drop_first(), x, k);
        assert(es.push(x).drop_first() =~= es.drop_first().push(x));
        assert(es.push(x)[0] == es[0]);
        if es[0].0 != k && x.0 != k {
            assert(seq![es[0]] + without_key(es.drop_first(), k).push(x) =~= (seq![es[0]]
                + without_key(es.drop_first(), k)).push(x));
        }
    }
}

/// Reading key `k2` where `k` was taken out.
proof fn lemma_entry_of_without<V>(es: Clauses, k: Seq<char>, k2: Seq<char>)
    ensures
        entry_of(without_key(es, k), k2) == (if k2 == k {
            None
        } else {
            entry_of(es, k2)
        }),
    decreases es.len(),
{
    if es.len() > 0 {
        lemma_entry_of_without::<V>(es.drop_first(), k, k2);
        if es[0].0 != k {
            let r = without_key(es, k);
            assert(r[0] == es[0]);
            assert(r.drop_first() =~= without_key(es.drop_first(), k));
        }
    }
}

/// Reading a key after a clause was appended.
proof fn lemma_entry_of_push(es: Clauses, x: (Seq<char>, ConditionView), k2: Seq<char>)
    ensures
        entry_of(es.push(x), k2) == (match entry_of(es, k2) {
            Some(v) => Some(v),
            None => if x.0 == k2 {
                Some(x.1)
            } else {
                None
            },
        }),
    decreases es.len(),
{
    if es.len() == 0 {
        assert(es.push(x)[0] == x);
        assert(es.push(x).drop_first() =~= es);
    } else {
        lemma_entry_of_push(es.drop_first(), x, k2);
        assert(es.push(x).drop_first() =~= es.drop_first().push(x));
        assert(es.push(x)[0] == es[0]);
    }
}

/// Inserting on a key the clauses do not hold appends the clause.
pub proof fn lemma_insert_clause_absent(es: Clauses, k: Seq<char>, c: ConditionView)
    requires
        forall|l: int| 0 <= l < es.len() ==> es[l].0 != k,
    ensures
        insert_clause(es, k, c) == es.push((k, c)),
{
    lemma_without_absent_key(es, k);
}

/// Setting a condition on a key and reading the filter back: the key gives
/// the new condition, every other key what it gave before.
pub proof fn law_clause_read_after_insert(c: Clauses, k: Seq<char>, v: ConditionView, k2: Seq<char>)
    ensures
        entry_of(insert_clause(c, k, v), k) == Some(v),
        k2 != k ==> entry_of(insert_clause(c, k, v), k2) == entry_of(c, k2),
{
    lemma_entry_of_without::<ConditionView>(c, k, k);
    lemma_entry_of_without::<ConditionView>(c, k, k2);
    lemma_entry_of_push(without_key(c, k), (k, v), k);
    lemma_entry_of_push(without_key(c, k), (k, v), k2);
}

/// Setting a condition on a key twice: as if only the later one had been
/// set, the clause standing last.
pub proof fn law_clause_insert_replaces(c: Clauses, k: Seq<char>, a: ConditionView, b: ConditionView)
    ensures
        insert_clause(insert_clause(c, k, a), k, b) == insert_clause(c, k, b),
{
    lemma_without_key_push(without_key(c, k), (k, a), k);
    lemma_without_key_free(c, k);
    lemma_without_absent_key(without_key(c, k), k);
}

/// Whether a record holds, under the clause's key, the string or boolean
/// that an equality clause asks for. Such a record is one the store selects
/// by that clause; of the other kinds of clause this says nothing (`false`).
pub open spec fn holds_clause(d: Entries, k: Seq<char>, c: ConditionView) -> bool {
    match c {
        ConditionView::Str(s) => doc_str(d, k) == Some(s),
        ConditionView::Bool(b) => doc_bool(d, k) == Some(b),
        _ => false,
    }
}

/// Whether a record holds what every clause of an equality filter asks for,
/// so that the store selects it.
pub open spec fn holds_clauses(f: Clauses, d: Entries) -> bool {
    forall|i: int| 0 <= i < f.len() ==> holds_clause(d, #[trigger] f[i].0, f[i].1)
}

/// A filter selecting stored records: each clause asks a condition of the
/// value under its key.
#[derive(Debug)]
pub struct Filter {
    clauses: Vec<(String, Condition)>,
}

/// The view of a vector of clauses.
pub open spec fn clauses_view(v: Seq<(String, Condition)>) -> Clauses {
    v.map_values(|e: (String, Condition)| (e.0@, e.1@))
}

impl View for Filter {
    type V = Clauses;

    closed spec fn view(&self) -> Clauses {
        clauses_view(self.clauses@)
    }
}

impl Filter {
    /// The filter that selects every record.
    pub fn new() -> (res: Filter)
        ensures
            res@ == Seq::<(Seq<char>, ConditionView)>::empty(),
    {
        let res = Filter { clauses: Vec::new() };
        assert(res@ =~= Seq::<(Seq<char>, ConditionView)>::empty());
        res
    }

    /// The position of the first clause with key `key`.
    fn position(&self, key: &str) -> (res: Option<usize>)
        ensures
            res matches Some(i) ==> i < self@.len() && self@[i as int].0 == key@ && forall|
                l: int,
            |
                0 <= l < i ==> self@[l].0 != key@,
            res is None ==> forall|l: int| 0 <= l < self@.len() ==> self@[l].0 != key@,
    {
        let k = key.to_owned();
        let mut i: usize = 0;
        while i < self.clauses.len()
            invariant
                i <= self.clauses.len(),
                k@ == key@,
                forall|l: int| 0 <= l < i ==> self@[l].0 != key@,
            decreases self.clauses.len() - i,
        {
            assert(self@[i as int].0 == self.clauses@[i as int].0@);
            if self.clauses[i].0 == k {
                return Some(i);
            }
            i = i + 1;
        }
        None
    }

    /// Sets the condition on `key`: a condition already on `key` is taken
    /// out, and the new one goes last.
    pub fn insert(&mut self, key: &str, cond: Condition)
        ensures
            final(self)@ == insert_clause(old(self)@, key@, cond@),
    {
        let ghost before = self@;
        let mut found = self.position(key);
        while found.is_some()
            invariant
                without_key(self@, key@) == without_key(before, key@),
                found matches Some(i) ==> i < self@.len() && self@[i as int].0 == key@,
                found is None ==> forall|l: int| 0 <= l < self@.len() ==> self@[l].0 != key@,
            decreases self.clauses.len(),
        {
            let i = found.unwrap();
            let ghost prev = self.clauses@;
            let _ = self.clauses.remove(i);
            proof {
                lemma_without_key_remove(clauses_view(prev), key@, i as int);
                assert(self@ =~= clauses_view(prev).remove(i as int));
            }
            found = self.position(key);
        }
        proof {
            lemma_without_absent_key(self@, key@);
        }
        let ghost mid = self@;
        let ghost cv = cond@;
        self.clauses.push((key.to_owned(), cond));
        proof {
            assert(self@ =~= mid.push((key@, cv)));
        }
    }

    /// The clauses of the filter, in order.
    pub fn into_clauses(self) -> (res: Vec<(String, Condition)>)
        ensures
            clauses_view(res@) == self@,
    {
        self.clauses
    }
}

/// A filter with a single clause.
pub fn filter_of(key: &str, cond: Condition) -> (res: Filter)
    ensures
        res@ == seq![(key@, cond@)],
{
    let mut f = Filter::new();
    let ghost cv = cond@;
    f.insert(key, cond);
    assert(f@ =~= seq![(key@, cv)]);
    f
}

/// A change to apply to the records a filter selects.
#[derive(Debug)]
pub enum Update {
    /// Add `by` to the integer under `key` (`$inc`).
    Increment { key: String, by: i32 },
    /// Store `value` under `key` (`$set`).
    Assign { key: String, value: String },
}

/// The mathematical value of an [`Update`].
pub ghost enum UpdateView {
    Increment { key: Seq<char>, by: i32 },
    Assign { key: Seq<char>, value: Seq<char> },
}

impl View for Update {
    type V = UpdateView;

    open spec fn view(&self) -> UpdateView {
        match self {
            Update::Increment { key, by } => UpdateView::Increment { key: key@, by: *by },
            Update::Assign { key, value } => UpdateView::Assign { key: key@, value: value@ },
        }
    }
}

/// The field that a listing is sorted by, with `-1` for descending order.
#[derive(Debug)]
pub struct SortKey {
    pub field: String,
    pub direction: i32,
}

} // verus!
