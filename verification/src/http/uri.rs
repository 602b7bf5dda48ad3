use crate::fields::{lookup, put, Entry, Fields};
use crate::text::{
    after, before, chars_of, find_in, lemma_find_from, occurs_at, split, split_at_each, string_of,
};
use vstd::prelude::*;
use vstd::slice::slice_subrange;

verus! {

/// What a `Uri` holds, as plain values.
pub struct UriView {
    pub path: Seq<char>,
    pub query: Option<Seq<Entry>>,
    pub pattern_params: Option<Seq<Entry>>,
}

/// A request target: the path, the query string as a map, and the path
/// parameters that a route match adds later.
#[derive(Debug, Clone)]
pub struct Uri {
    pub path: String,
    pub query: Option<Fields>,
    pub pattern_params: Option<Fields>,
}

impl View for Uri {
    type V = UriView;

    open spec fn view(&self) -> UriView {
        UriView {
            path: self.path@,
            query: match self.query {
                Some(q) => Some(q@),
                None => None,
            },
            pattern_params: match self.pattern_params {
                Some(p) => Some(p@),
                None => None,
            },
        }
    }
}

/// The name and value that one `name=value` pair of a query string gives:
/// split at the first `=`, with an empty value where there is none.
pub open spec fn pair_entry(pair: Seq<char>) -> Entry {
    (
        before(pair, seq!['=']),
        match after(pair, seq!['=']) {
            Some(value) => value,
            None => Seq::empty(),
        },
    )
}

/// The map that a list of pairs gives, a later pair replacing an earlier one of
/// the same name.
pub open spec fn fields_of_pairs(pairs: Seq<Seq<char>>) -> Seq<Entry>
    decreases pairs.len(),
{
    if pairs.len() == 0 {
        Seq::empty()
    } else {
        let entry = pair_entry(pairs.last());
        put(fields_of_pairs(pairs.drop_last()), entry.0, entry.1)
    }
}

/// The map that a query string gives: its pairs stand between `&`.
pub open spec fn query_fields(query: Seq<char>) -> Seq<Entry> {
    fields_of_pairs(split(query, seq!['&']))
}

/// What a request target parses to: the path is what stands before the first
/// `?`, the query what stands after it.
pub open spec fn uri_of(target: Seq<char>) -> UriView {
    UriView {
        path: before(target, seq!['?']),
        query: match after(target, seq!['?']) {
            Some(q) => Some(query_fields(q)),
            None => None,
        },
        pattern_params: None,
    }
}

/// The path of a parsed target holds no `?`.
pub proof fn lemma_path_has_no_query(target: Seq<char>)
    ensures
        !uri_of(target).path.contains('?'),
{
    let path = uri_of(target).path;
    let pat = seq!['?'];
    lemma_find_from(target, pat, 0);
    if path.contains('?') {
        let j = choose|j: int| 0 <= j < path.len() && path[j] == '?';
        assert(target.subrange(j, j + 1) =~= pat);
        assert(occurs_at(target, pat, j));
    }
}

fn parse_pair(pair: &[char]) -> (r: (String, String))
    ensures
        (r.0@, r.1@) == pair_entry(pair@),
{
    let eq: Vec<char> = vec!['='];
    assert(eq@ =~= seq!['=']);
    match find_in(pair, eq.as_slice()) {
        Some(i) => {
            let n = pair.len();
            let name = string_of(slice_subrange(pair, 0, i));
            let value = string_of(slice_subrange(pair, i + 1, n));
            (name, value)
        },
        None => (string_of(pair), String::new()),
    }
}

fn parse_query(query: &[char]) -> (r: Fields)
    ensures
        r@ == query_fields(query@),
        r.wf(),
{
    let amp: Vec<char> = vec!['&'];
    assert(amp@ =~= seq!['&']);
    let pairs = split_at_each(query, amp.as_slice());
    let ghost all = split(query@, seq!['&']);
    let mut fields = Fields::new();
    let mut k: usize = 0;
    while k < pairs.len()
        invariant
            k <= pairs@.len(),
            pairs@.len() == all.len(),
            forall|i: int| 0 <= i < pairs@.len() ==> (#[trigger] pairs@[i])@ == all[i],
            fields@ == fields_of_pairs(all.take(k as int)),
            fields.wf(),
        decreases pairs@.len() - k,
    {
        let (name, value) = parse_pair(pairs[k]);
        proof {
            let upto = all.take(k + 1);
            assert(upto.drop_last() =~= all.take(k as int));
        }
        fields.insert(name, value);
        k += 1;
    }
    assert(all.take(all.len() as int) =~= all);
    fields
}

impl Uri {
    /// Parses a request target. Nothing is percent-decoded.
    pub fn new(path: &str) -> (r: Self)
        ensures
            r@ == uri_of(path@),
            !r@.path.contains('?'),
            r.query matches Some(q) ==> q.wf(),
    {
        proof {
            lemma_path_has_no_query(path@);
        }
        let chars = chars_of(path);
        let mark: Vec<char> = vec!['?'];
        assert(mark@ =~= seq!['?']);
        match find_in(chars.as_slice(), mark.as_slice()) {
            Some(i) => {
                let n = chars.len();
                let before = string_of(slice_subrange(chars.as_slice(), 0, i));
                let query = parse_query(slice_subrange(chars.as_slice(), i + 1, n));
                Uri { path: before, query: Some(query), pattern_params: None }
            },
            None => Uri { path: string_of(chars.as_slice()), query: None, pattern_params: None },
        }
    }

    /// The path, without the query string.
    pub fn path(&self) -> (s: &str)
        ensures
            s@ == self@.path,
    {
        self.path.as_str()
    }

    /// The value of the query parameter `id`.
    pub fn query(&self, id: &str) -> (r: Option<String>)
        ensures
            match r {
                Some(v) => self@.query matches Some(q) && lookup(q, id@) == Some(v@),
                None => self@.query matches Some(q) ==> lookup(q, id@) is None,
            },
    {
        match &self.query {
            Some(q) => match q.get(id) {
                Some(v) => Some(v.clone()),
                None => None,
            },
            None => None,
        }
    }

    /// The value of the path parameter `id`, once a route has matched.
    pub fn param(&self, id: &str) -> (r: Option<String>)
        ensures
            match r {
                Some(v) => self@.pattern_params matches Some(p) && lookup(p, id@) == Some(v@),
                None => self@.pattern_params matches Some(p) ==> lookup(p, id@) is None,
            },
    {
        match &self.pattern_params {
            Some(p) => match p.get(id) {
                Some(v) => Some(v.clone()),
                None => None,
            },
            None => None,
        }
    }
}

} // verus!
