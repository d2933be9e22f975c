//! Query strings: splitting on separators and the key/value map that the
//! request handlers read their parameters from.

use vstd::prelude::*;

verus! {

/// The pieces of `s` between occurrences of `sep`, as `str::split` yields
/// them: always at least one piece, empty pieces kept.
pub open spec fn split_on(s: Seq<char>, sep: char) -> Seq<Seq<char>>
    decreases s.len(),
{
    if s.len() == 0 {
        seq![Seq::<char>::empty()]
    } else {
        let r = split_on(s.drop_last(), sep);
        if s.last() == sep {
            r.push(Seq::<char>::empty())
        } else {
            r.update(r.len() - 1, r.last().push(s.last()))
        }
    }
}

pub proof fn lemma_split_on_nonempty(s: Seq<char>, sep: char)
    ensures
        split_on(s, sep).len() >= 1,
    decreases s.len(),
{
    if s.len() > 0 {
        lemma_split_on_nonempty(s.drop_last(), sep);
    }
}

/// The views of a vector of strings.
pub open spec fn strings_view(v: Seq<String>) -> Seq<Seq<char>> {
    v.map_values(|x: String| x@)
}

/// Splits `s` on every occurrence of `sep`, like `s.split(sep)`.
pub fn split_char(s: &str, sep: char) -> (res: Vec<String>)
    ensures
        strings_view(res@) == split_on(s@, sep),
{
    let n = s.unicode_len();
    let mut pieces: Vec<String> = Vec::new();
    let mut start: usize = 0;
    let mut i: usize = 0;
    proof {
        assert(s@.take(0) =~= Seq::<char>::empty());
        assert(strings_view(pieces@).push(s@.subrange(0, 0)) =~= split_on(s@.take(0), sep));
    }
    while i < n
        invariant
            n == s@.len(),
            start <= i <= n,
            strings_view(pieces@).push(s@.subrange(start as int, i as int)) == split_on(
                s@.take(i as int),
                sep,
            ),
        decreases n - i,
    {
        let c = s.get_char(i);
        let ghost old_pieces = strings_view(pieces@);
        let ghost r = split_on(s@.take(i as int), sep);
        proof {
            assert(s@.take(i + 1).drop_last() =~= s@.take(i as int));
            assert(s@.take(i + 1).last() == c);
            lemma_split_on_nonempty(s@.take(i as int), sep);
        }
        if c == sep {
            let piece = s.substring_char(start, i).to_owned();
            proof {
                assert(piece@ == s@.subrange(start as int, i as int));
                assert(r =~= old_pieces.push(piece@));
            }
            pieces.push(piece);
            start = i + 1;
            proof {
                assert(strings_view(pieces@) =~= old_pieces.push(piece@));
                assert(s@.subrange(start as int, i + 1) =~= Seq::<char>::empty());
                assert(strings_view(pieces@).push(s@.subrange(start as int, i + 1)) =~= r.push(
                    Seq::<char>::empty(),
                ));
            }
        } else {
            proof {
                let prev = s@.subrange(start as int, i as int);
                assert(r =~= old_pieces.push(prev));
                assert(s@.subrange(start as int, i + 1) =~= prev.push(c));
                assert(old_pieces.push(s@.subrange(start as int, i + 1)) =~= r.update(
                    r.len() - 1,
                    r.last().push(c),
                ));
            }
        }
        i = i + 1;
    }
    let last = s.substring_char(start, n).to_owned();
    let ghost before = strings_view(pieces@);
    pieces.push(last);
    proof {
        assert(s@.take(n as int) =~= s@);
        assert(strings_view(pieces@) =~= before.push(last@));
    }
    pieces
}

/// The key/value pair that one `&`-separated item of a query string gives:
/// its first two `=`-separated pieces, when there are at least two.
pub open spec fn query_pair(item: Seq<char>) -> Option<(Seq<char>, Seq<char>)> {
    let parts = split_on(item, '=');
    if parts.len() > 1 {
        Some((parts[0], parts[1]))
    } else {
        None
    }
}

/// The pairs of a list of query items, in order, items without `=` skipped.
pub open spec fn pairs_of(items: Seq<Seq<char>>) -> Seq<(Seq<char>, Seq<char>)>
    decreases items.len(),
{
    if items.len() == 0 {
        Seq::empty()
    } else {
        let rest = pairs_of(items.drop_last());
        match query_pair(items.last()) {
            Some(p) => rest.push(p),
            None => rest,
        }
    }
}

/// The pairs of a raw query string `a=1&b=2`, in order.
pub open spec fn query_pairs(q: Seq<char>) -> Seq<(Seq<char>, Seq<char>)> {
    pairs_of(split_on(q, '&'))
}

/// The map that inserting the pairs one after the other gives: a later
/// pair with the same key replaces an earlier one.
pub open spec fn pairs_map(ps: Seq<(Seq<char>, Seq<char>)>) -> Map<Seq<char>, Seq<char>>
    decreases ps.len(),
{
    if ps.len() == 0 {
        Map::empty()
    } else {
        pairs_map(ps.drop_last()).insert(ps.last().0, ps.last().1)
    }
}

/// The view of a vector of string pairs.
pub open spec fn pairs_view(v: Seq<(String, String)>) -> Seq<(Seq<char>, Seq<char>)> {
    v.map_values(|p: (String, String)| (p.0@, p.1@))
}

/// The value of `k` in the parameters, or the empty string where it is
/// absent.
pub open spec fn param_or_empty(q: Map<Seq<char>, Seq<char>>, k: Seq<char>) -> Seq<char> {
    if q.contains_key(k) {
        q[k]
    } else {
        Seq::empty()
    }
}

/// The query parameters of a request.
pub struct QueryParams {
    entries: Vec<(String, String)>,
}

impl View for QueryParams {
    type V = Map<Seq<char>, Seq<char>>;

    closed spec fn view(&self) -> Map<Seq<char>, Seq<char>> {
        pairs_map(pairs_view(self.entries@))
    }
}

/// Where the last pair with key `k` stands, and that no later one has it,
/// the map holds its value.
proof fn lemma_pairs_map_last(ps: Seq<(Seq<char>, Seq<char>)>, k: Seq<char>, j: int)
    requires
        0 <= j < ps.len(),
        ps[j].0 == k,
        forall|l: int| j < l < ps.len() ==> ps[l].0 != k,
    ensures
        pairs_map(ps).contains_key(k),
        pairs_map(ps)[k] == ps[j].1,
    decreases ps.len(),
{
    if j < ps.len() - 1 {
        lemma_pairs_map_last(ps.drop_last(), k, j);
    }
}

/// A key that no pair has is not in the map.
proof fn lemma_pairs_map_absent(ps: Seq<(Seq<char>, Seq<char>)>, k: Seq<char>)
    requires
        forall|l: int| 0 <= l < ps.len() ==> ps[l].0 != k,
    ensures
        !pairs_map(ps).contains_key(k),
    decreases ps.len(),
{
    if ps.len() > 0 {
        lemma_pairs_map_absent(ps.drop_last(), k);
    }
}

impl QueryParams {
    /// No parameters.
    pub fn new() -> (res: Self)
        ensures
            res@ == Map::<Seq<char>, Seq<char>>::empty(),
    {
        QueryParams { entries: Vec::new() }
    }

    /// Sets `key` to `value`, replacing what it had.
    pub fn insert(&mut self, key: String, value: String)
        ensures
            final(self)@ == old(self)@.insert(key@, value@),
    {
        let ghost before = pairs_view(self.entries@);
        let ghost kv = (key@, value@);
        self.entries.push((key, value));
        proof {
            assert(pairs_view(self.entries@) =~= before.push(kv));
            assert(pairs_view(self.entries@).drop_last() =~= before);
        }
    }

    /// The value of `key`, if the parameters hold it.
    pub fn get(&self, key: &str) -> (res: Option<String>)
        ensures
            res is Some <==> self@.contains_key(key@),
            res matches Some(v) ==> v@ == self@[key@],
    {
        let k = key.to_owned();
        let ghost es = pairs_view(self.entries@);
        let mut i: usize = self.entries.len();
        while i > 0
            invariant
                i <= self.entries.len(),
                es == pairs_view(self.entries@),
                k@ == key@,
                forall|l: int| i <= l < es.len() ==> es[l].0 != key@,
            decreases i,
        {
            i = i - 1;
            if self.entries[i].0 == k {
                proof {
                    assert(es[i as int] == (self.entries@[i as int].0@, self.entries@[i as int].1@));
                    lemma_pairs_map_last(es, key@, i as int);
                }
                return Some(self.entries[i].1.clone());
            }
            assert(es[i as int].0 == self.entries@[i as int].0@);
        }
        proof {
            lemma_pairs_map_absent(es, key@);
        }
        None
    }

    /// The value of `key`, or the empty string where it is absent.
    pub fn get_or_empty(&self, key: &str) -> (res: String)
        ensures
            res@ == param_or_empty(self@, key@),
    {
        match self.get(key) {
            Some(v) => v,
            None => String::new(),
        }
    }
}

/// The pairs of the items, in order.
fn pairs_from_items(items: &Vec<String>) -> (res: Vec<(String, String)>)
    ensures
        pairs_view(res@) == pairs_of(strings_view(items@)),
{
    let mut res: Vec<(String, String)> = Vec::new();
    let mut i: usize = 0;
    proof {
        assert(strings_view(items@).take(0) =~= Seq::<Seq<char>>::empty());
        assert(pairs_view(res@) =~= Seq::<(Seq<char>, Seq<char>)>::empty());
    }
    while i < items.len()
        invariant
            i <= items.len(),
            pairs_view(res@) == pairs_of(strings_view(items@).take(i as int)),
        decreases items.len() - i,
    {
        let ghost before = pairs_view(res@);
        let parts = split_char(items[i].as_str(), '=');
        proof {
            assert(strings_view(items@).take(i + 1).drop_last() =~= strings_view(items@).take(
                i as int,
            ));
            assert(strings_view(items@).take(i + 1).last() == items@[i as int]@);
        }
        if parts.len() > 1 {
            let k = parts[0].clone();
            let v = parts[1].clone();
            proof {
                assert(strings_view(parts@)[0] == parts@[0]@);
                assert(strings_view(parts@)[1] == parts@[1]@);
            }
            res.push((k, v));
            proof {
                assert(pairs_view(res@) =~= before.push((k@, v@)));
            }
        }
        i = i + 1;
    }
    proof {
        assert(strings_view(items@).take(items.len() as int) =~= strings_view(items@));
    }
    res
}

/// Reads a raw query string into parameters, a later item replacing an
/// earlier one with the same key.
pub fn parse_query_last_wins(q: &str) -> (res: QueryParams)
    ensures
        res@ == pairs_map(query_pairs(q@)),
{
    let items = split_char(q, '&');
    let pairs = pairs_from_items(&items);
    QueryParams { entries: pairs }
}

/// Reads a raw query string into parameters by taking its items from the
/// last to the first and inserting each, so that the first item with a key
/// is the one that stays.
pub fn parse_query_first_wins(q: &str) -> (res: QueryParams)
    ensures
        res@ == pairs_map(query_pairs(q@).reverse()),
{
    let items = split_char(q, '&');
    let pairs = pairs_from_items(&items);
    let ghost ps = pairs_view(pairs@);
    let mut entries: Vec<(String, String)> = Vec::new();
    let mut j: usize = pairs.len();
    proof {
        assert(pairs_view(entries@) =~= ps.subrange(j as int, ps.len() as int).reverse());
    }
    while j > 0
        invariant
            j <= pairs.len(),
            ps == pairs_view(pairs@),
            pairs_view(entries@) == ps.subrange(j as int, ps.len() as int).reverse(),
        decreases j,
    {
        j = j - 1;
        let ghost before = pairs_view(entries@);
        let p = (pairs[j].0.clone(), pairs[j].1.clone());
        entries.push(p);
        proof {
            assert(ps[j as int] == (pairs@[j as int].0@, pairs@[j as int].1@));
            assert(pairs_view(entries@) =~= before.push(ps[j as int]));
            assert(ps.subrange(j as int, ps.len() as int).reverse() =~= ps.subrange(
                j + 1,
                ps.len() as int,
            ).reverse().push(ps[j as int]));
        }
    }
    proof {
        assert(ps.subrange(0, ps.len() as int) =~= ps);
    }
    QueryParams { entries }
}

/// Reading a query string item by item from the last to the first (as
/// the story, chapter and ranking requests do), the first item with a key
/// is the one whose value stays.
pub proof fn law_first_item_wins(q: Seq<char>, k: Seq<char>, j: int)
    requires
        0 <= j < query_pairs(q).len(),
        query_pairs(q)[j].0 == k,
        forall|l: int| 0 <= l < j ==> query_pairs(q)[l].0 != k,
    ensures
        pairs_map(query_pairs(q).reverse()).contains_key(k),
        pairs_map(query_pairs(q).reverse())[k] == query_pairs(q)[j].1,
{
    let ps = query_pairs(q);
    let rs = ps.reverse();
    let r = ps.len() - 1 - j;
    assert(rs[r] == ps[j]);
    assert forall|l: int| r < l < rs.len() implies rs[l].0 != k by {
        assert(rs[l] == ps[ps.len() - 1 - l]);
    }
    lemma_pairs_map_last(rs, k, r);
}

/// Reading a query string item by item from the first to the last (as the
/// category listing does), the last item with a key is the one whose value
/// stays.
pub proof fn law_last_item_wins(q: Seq<char>, k: Seq<char>, j: int)
    requires
        0 <= j < query_pairs(q).len(),
        query_pairs(q)[j].0 == k,
        forall|l: int| j < l < query_pairs(q).len() ==> query_pairs(q)[l].0 != k,
    ensures
        pairs_map(query_pairs(q)).contains_key(k),
        pairs_map(query_pairs(q))[k] == query_pairs(q)[j].1,
{
    lemma_pairs_map_last(query_pairs(q), k, j);
}

/// A key that no item of the query string has is absent from the
/// parameters, whichever way they are read.
pub proof fn law_absent_key(q: Seq<char>, k: Seq<char>)
    requires
        forall|l: int| 0 <= l < query_pairs(q).len() ==> query_pairs(q)[l].0 != k,
    ensures
        !pairs_map(query_pairs(q)).contains_key(k),
        !pairs_map(query_pairs(q).reverse()).contains_key(k),
{
    let ps = query_pairs(q);
    let rs = ps.reverse();
    lemma_pairs_map_absent(ps, k);
    assert forall|l: int| 0 <= l < rs.len() implies rs[l].0 != k by {
        assert(rs[l] == ps[ps.len() - 1 - l]);
    }
    lemma_pairs_map_absent(rs, k);
}

/// Setting a parameter and reading it back: the key gives the value set,
/// every other key what it gave before.
pub proof fn law_param_read_after_write(
    m: Map<Seq<char>, Seq<char>>,
    k: Seq<char>,
    v: Seq<char>,
    k2: Seq<char>,
)
    ensures
        m.insert(k, v).contains_key(k),
        m.insert(k, v)[k] == v,
        k2 != k ==> param_or_empty(m.insert(k, v), k2) == param_or_empty(m, k2),
{
}

} // verus!
