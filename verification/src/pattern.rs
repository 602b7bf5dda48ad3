//! Route patterns: a path template with `{name}` placeholders becomes an
//! anchored regular expression, which the `regex` crate compiles and matches.

use crate::fields::{lemma_put, lookup, put, Entry, Fields};
use crate::text::chars_of;
use regex::Regex;
use vstd::prelude::*;
use vstd::string::StringExecFns;

verus! {

/// What one character of a template becomes in the pattern: `{` opens a
/// named group, `}` closes it after one or more characters other than `/`,
/// and every other character stands for itself.
pub open spec fn expansion(c: char) -> Seq<char> {
    if c == '{' {
        "(?P<"@
    } else if c == '}' {
        ">[^/]+)"@
    } else {
        seq![c]
    }
}

/// The expansions of the characters of `template`, in order.
pub open spec fn expanded(template: Seq<char>) -> Seq<char>
    decreases template.len(),
{
    if template.len() == 0 {
        Seq::empty()
    } else {
        expanded(template.drop_last()) + expansion(template.last())
    }
}

/// The pattern for `template`: its expansion between `^` and `$`, so that a
/// match covers the whole path.
pub open spec fn pattern_of(template: Seq<char>) -> Seq<char> {
    "^"@ + expanded(template) + "$"@
}

/// Every pattern is anchored at both ends: it starts with `^` and ends with
/// `$`, whatever the template.
pub proof fn lemma_pattern_is_anchored(template: Seq<char>)
    ensures
        pattern_of(template).len() >= 2,
        pattern_of(template).first() == '^',
        pattern_of(template).last() == '$',
{
    reveal_strlit("^");
    reveal_strlit("$");
}

/// The pattern for `template`.
pub fn compile_template(template: &str) -> (pattern: String)
    ensures
        pattern@ == pattern_of(template@),
{
    let chars = chars_of(template);
    let mut out = String::from_str("^");
    let mut i: usize = 0;
    while i < chars.len()
        invariant
            i <= chars@.len(),
            chars@ == template@,
            out@ == "^"@ + expanded(chars@.take(i as int)),
        decreases chars@.len() - i,
    {
        let c = chars[i];
        proof {
            let upto = chars@.take(i + 1);
            assert(upto.drop_last() =~= chars@.take(i as int));
        }
        if c == '{' {
            out.append("(?P<");
        } else if c == '}' {
            out.append(">[^/]+)");
        } else {
            out.push(c);
        }
        i += 1;
    }
    assert(chars@.take(chars@.len() as int) =~= chars@);
    out.append("$");
    out
}

/// The texts of a list of optional strings.
pub open spec fn texts_of(list: Seq<Option<String>>) -> Seq<Option<Seq<char>>> {
    list.map_values(
        |item: Option<String>|
            match item {
                Some(s) => Some(s@),
                None => None,
            },
    )
}

/// The names of the capture groups of the regular expression `pattern`, one
/// entry per group in the order of their opening brackets, group 0 (the whole
/// match) first; `None` for an unnamed group. `None` where `Regex::new`
/// rejects the pattern.
pub uninterp spec fn regex_group_names(pattern: Seq<char>) -> Option<Seq<Option<Seq<char>>>>;

/// What the capture groups of the regular expression `pattern` hold at its
/// leftmost match in `text`, one entry per group, group 0 first; `None` for a
/// group that took no part. `None` where the pattern does not match, or
/// `Regex::new` rejects it.
pub uninterp spec fn regex_group_texts(pattern: Seq<char>, text: Seq<char>) -> Option<
    Seq<Option<Seq<char>>>,
>;

/// `Regex::new`, then `Regex::capture_names`: compiles `pattern` and lists the
/// names of its capture groups; nothing where the pattern is rejected.
#[verifier::external_body]
fn group_names(pattern: &str) -> (r: Option<Vec<Option<String>>>)
    ensures
        match r {
            Some(names) => regex_group_names(pattern@) == Some(texts_of(names@)),
            None => regex_group_names(pattern@) is None,
        },
{
    let re = Regex::new(pattern).ok()?;
    Some(re.capture_names().map(|name| name.map(|n| n.to_string())).collect())
}

/// `Regex::new`, then `Regex::captures`: matches `text` against `pattern` and
/// lists what each capture group holds.
#[verifier::external_body]
fn group_texts(pattern: &str, text: &str) -> (r: Option<Vec<Option<String>>>)
    ensures
        match r {
            Some(texts) => regex_group_texts(pattern@, text@) == Some(texts_of(texts@)),
            None => regex_group_texts(pattern@, text@) is None,
        },
{
    let re = Regex::new(pattern).ok()?;
    let caps = re.captures(text)?;
    Some(caps.iter().map(|group| group.map(|m| m.as_str().to_string())).collect())
}

/// The path parameters that the first `n` capture groups give: for each group
/// that has a name and holds a text, the text under the name; a later group
/// replaces an earlier one of the same name.
pub open spec fn params_from(
    names: Seq<Option<Seq<char>>>,
    texts: Seq<Option<Seq<char>>>,
    n: nat,
) -> Seq<Entry>
    decreases n,
{
    if n == 0 {
        Seq::empty()
    } else {
        let before = params_from(names, texts, (n - 1) as nat);
        if n <= names.len() && n <= texts.len() {
            match (names[n - 1], texts[n - 1]) {
                (Some(name), Some(text)) => put(before, name, text),
                _ => before,
            }
        } else {
            before
        }
    }
}

/// The path parameters that a match gives.
pub open spec fn params_of(
    names: Seq<Option<Seq<char>>>,
    texts: Seq<Option<Seq<char>>>,
) -> Seq<Entry> {
    params_from(names, texts, names.len())
}

/// A named group that holds a text is found again under its name among the
/// first `n` groups' parameters, unless a later group of the same name holds
/// a text too.
pub proof fn lemma_param_among(
    names: Seq<Option<Seq<char>>>,
    texts: Seq<Option<Seq<char>>>,
    i: int,
    n: nat,
)
    requires
        0 <= i < n <= names.len(),
        i < texts.len(),
        names[i] is Some,
        texts[i] is Some,
        forall|j: int| i < j < n && j < texts.len() && names[j] == names[i] ==> texts[j] is None,
    ensures
        lookup(params_from(names, texts, n), names[i]->Some_0) == texts[i],
    decreases n,
{
    let before = params_from(names, texts, (n - 1) as nat);
    if n == i + 1 {
        lemma_put(before, names[i]->Some_0, texts[i]->Some_0);
    } else {
        lemma_param_among(names, texts, i, (n - 1) as nat);
        if n <= texts.len() {
            match (names[n - 1], texts[n - 1]) {
                (Some(name), Some(text)) => {
                    lemma_put(before, name, text);
                },
                _ => {},
            }
        }
    }
}

/// Every placeholder of a matched route is retrievable by its name: a named
/// group that holds a text is found under its name in the path parameters.
/// (The names of one pattern are distinct; where they were not, the last
/// group of a name that holds a text would be the one found.)
pub proof fn lemma_param_is_retrievable(
    names: Seq<Option<Seq<char>>>,
    texts: Seq<Option<Seq<char>>>,
    i: int,
)
    requires
        0 <= i < names.len(),
        i < texts.len(),
        names[i] is Some,
        texts[i] is Some,
        forall|j: int| i < j < names.len() && j < texts.len() && names[j] == names[i] ==> texts[j]
            is None,
    ensures
        lookup(params_of(names, texts), names[i]->Some_0) == texts[i],
{
    lemma_param_among(names, texts, i, names.len());
}

/// Collects the path parameters of a match: `names` are the names of the
/// pattern's capture groups, `texts` what the groups hold.
pub fn collect_params(names: &Vec<Option<String>>, texts: &Vec<Option<String>>) -> (r: Fields)
    ensures
        r@ == params_of(texts_of(names@), texts_of(texts@)),
        r.wf(),
{
    let mut params = Fields::new();
    let mut i: usize = 0;
    while i < names.len()
        invariant
            i <= names@.len(),
            params@ == params_from(texts_of(names@), texts_of(texts@), i as nat),
            params.wf(),
        decreases names@.len() - i,
    {
        if i < texts.len() {
            match (&names[i], &texts[i]) {
                (Some(name), Some(text)) => {
                    params.insert(name.clone(), text.clone());
                },
                _ => {},
            }
        }
        i += 1;
    }
    params
}

/// A route pattern that compiled: the regular expression as text, with the
/// names of its capture groups. The text is handed to the `regex` crate again
/// at each match.
#[derive(Clone, Debug)]
pub struct Pattern {
    source: String,
    names: Vec<Option<String>>,
}

impl Pattern {
    /// The regular expression.
    pub closed spec fn source(&self) -> Seq<char> {
        self.source@
    }

    /// The names of the capture groups of the regular expression.
    pub closed spec fn names(&self) -> Seq<Option<Seq<char>>> {
        texts_of(self.names@)
    }

    /// Whether the pattern matches all of `path`.
    pub open spec fn accepts(&self, path: Seq<char>) -> bool {
        regex_group_texts(self.source(), path) is Some
    }

    /// The path parameters that `path` gives; meaningful where the pattern
    /// accepts it.
    pub open spec fn params(&self, path: Seq<char>) -> Seq<Entry> {
        params_of(self.names(), regex_group_texts(self.source(), path)->Some_0)
    }

    /// Compiles the pattern for `template`. Fails exactly where the regular
    /// expression that the template gives is not a valid one.
    pub fn compile(template: &str) -> (r: Option<Pattern>)
        ensures
            match r {
                Some(p) => p.source() == pattern_of(template@) && regex_group_names(
                    pattern_of(template@),
                ) == Some(p.names()),
                None => regex_group_names(pattern_of(template@)) is None,
            },
    {
        let source = compile_template(template);
        match group_names(source.as_str()) {
            Some(names) => Some(Pattern { source, names }),
            None => None,
        }
    }

    /// Matches `path`: its path parameters where the pattern accepts it.
    pub fn captures(&self, path: &str) -> (r: Option<Fields>)
        ensures
            match r {
                Some(params) => self.accepts(path@) && params@ == self.params(path@)
                    && params.wf(),
                None => !self.accepts(path@),
            },
    {
        match group_texts(self.source.as_str(), path) {
            Some(texts) => Some(collect_params(&self.names, &texts)),
            None => None,
        }
    }
}

} // verus!
