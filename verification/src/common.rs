//! Items shared by both versions: the parse error, the traits of a metric
//! value, and the tokenizer. The score and the severity scale are found here
//! too; the module `score` defines them.

use vstd::prelude::*;
use vstd::hash_map::StringHashMap;
use crate::grammar::{
    collect, component, free_of, join, lemma_collect_error_stays, lemma_collect_push,
    lemma_first_index_is, lemma_join_push, lemma_parse_component, lemma_parse_component_cases,
    lemma_render_push, lemma_split_at, lemma_split_none, metrics_of, render, split, Field,
    MetricMap, METRIC_DELIM, VECTOR_DELIM,
};
use crate::text::{find, to_chars};

pub use crate::score::{Score, Severity};

verus! {

/// Why a vector string was refused.
#[derive(Clone, Copy, Debug, PartialEq, Eq, Hash, Structural)]
pub enum ParseError {
    /// A component does not consist of a name, one `:` and a value.
    MalformedVector,
    /// A mandatory metric is absent.
    Missing,
    /// A metric name occurs twice.
    Duplicated,
    /// A value is not among the codes of its metric, or the version prefix is
    /// not a known one.
    IncorrectValue,
}

impl ParseError {
    /// The message shown for a parse error; it is the same for every variant.
    pub fn to_string(&self) -> (s: String)
        ensures
            s@ == "CVSS parse error"@,
    {
        "CVSS parse error".to_owned()
    }
}

/// The result of decoding a value: the value, or the error for a string that
/// is not among the codes of the metric.
pub open spec fn decoded<T>(v: Option<T>) -> Result<T, ParseError> {
    match v {
        Some(v) => Ok(v),
        None => Err(ParseError::IncorrectValue),
    }
}

/// A metric value that is written as a short code.
pub trait AsStr {
    /// The short code of the value.
    spec fn code(&self) -> Seq<char>;

    /// The short code of the value, as a string slice.
    fn as_str(&self) -> (s: &str)
        ensures
            s@ == self.code(),
    ;
}

/// A metric that may be left out of a vector.
pub trait Optional {
    /// The value is the one that stands for "not defined".
    spec fn undefined(&self) -> bool;

    /// Tells whether the value is the one that stands for "not defined".
    fn is_undefined(&self) -> (b: bool)
        ensures
            b == self.undefined(),
    ;
}

/// A metric value with a numeric weight in the score formulas.
///
/// Weights are exact decimals with at most three places; they are given in
/// thousandths, so that `395` stands for 0.395.
pub trait NumValue {
    /// The weight of the value, in thousandths.
    spec fn weight(&self) -> nat;

    /// The weight of the value, in thousandths.
    fn num_value(&self) -> (w: u32)
        ensures
            w == self.weight(),
    ;
}

/// The vector that results from appending a metric to `vector`: a delimiter
/// unless `vector` is empty, then the metric's name, `:` and the code.
pub open spec fn appended(vector: Seq<char>, metric: Seq<char>, code: Seq<char>) -> Seq<char> {
    if vector.len() == 0 {
        component(metric, code)
    } else {
        vector.push(VECTOR_DELIM) + component(metric, code)
    }
}

/// The code that a vector writes for an optional metric: none where the value
/// is not defined.
pub open spec fn shown<T: AsStr + Optional>(value: T) -> Option<Seq<char>> {
    if value.undefined() {
        None
    } else {
        Some(value.code())
    }
}

/// The value of a mandatory metric, given what its raw value decodes to: the
/// metric is missing where the mapping does not hold its name, and incorrect
/// where its raw value is not a code.
pub open spec fn required<T>(m: MetricMap, name: Seq<char>, value: Option<T>) -> Result<
    T,
    ParseError,
> {
    if m.contains_key(name) {
        decoded(value)
    } else {
        Err(ParseError::Missing)
    }
}

/// The raw value of a metric, or `default` where the mapping does not hold
/// its name.
pub open spec fn value_or(m: MetricMap, name: Seq<char>, default: Seq<char>) -> Seq<char> {
    if m.contains_key(name) {
        m[name]
    } else {
        default
    }
}

/// Append metric and its value to a vector string.
pub fn append_metric<T: AsStr>(vector: &mut String, metric: &str, value: &T)
    ensures
        final(vector)@ == appended(old(vector)@, metric@, value.code()),
{
    proof {
        reveal_strlit("/");
        reveal_strlit(":");
    }
    if !vector.as_str().is_empty() {
        vector.append("/");
        assert(vector@ =~= old(vector)@.push(VECTOR_DELIM));
    }
    let ghost head = vector@;
    vector.append(metric);
    vector.append(":");
    vector.append(value.as_str());
    assert(vector@ =~= head + component(metric@, value.code()));
    assert(old(vector)@.len() == 0 ==> head + component(metric@, value.code()) =~= component(
        metric@,
        value.code(),
    ));
}

/// Append metric and its value to a vector string if it is not undefined (for
/// optional metrics).
pub fn append_metric_optional<T: AsStr + Optional>(vector: &mut String, metric: &str, value: &T)
    ensures
        final(vector)@ == if value.undefined() {
            old(vector)@
        } else {
            appended(old(vector)@, metric@, value.code())
        },
{
    if !value.is_undefined() {
        append_metric(vector, metric, value);
    }
}

/// What stands in front of the first component of a vector that begins with
/// `start`: nothing where `start` is empty, else `start` and a delimiter.
pub open spec fn lead(start: Seq<char>) -> Seq<char> {
    if start.len() == 0 {
        start
    } else {
        start.push(VECTOR_DELIM)
    }
}

/// `vector` is `head` followed by the joined components of `fields`, the last
/// of which is not empty.
pub closed spec fn written(vector: Seq<char>, head: Seq<char>, fields: Seq<Field>) -> bool {
    &&& vector == head + join(render(fields), VECTOR_DELIM)
    &&& render(fields).len() >= 1
    &&& render(fields).last().len() > 0
}

/// What `written` says of the vector.
pub proof fn lemma_written(vector: Seq<char>, head: Seq<char>, fields: Seq<Field>)
    requires
        written(vector, head, fields),
    ensures
        vector == head + join(render(fields), VECTOR_DELIM),
        render(fields).len() >= 1,
{
}

/// Appends the first metric of a vector and says what has been written.
pub(crate) fn write_first<T: AsStr>(vector: &mut String, metric: &str, value: &T) -> (fields: Ghost<
    Seq<Field>,
>)
    ensures
        fields@ == seq![(metric@, Some(value.code()))],
        written(final(vector)@, lead(old(vector)@), fields@),
{
    let ghost fields: Seq<Field> = seq![(metric@, Some(value.code()))];
    append_metric(vector, metric, value);
    proof {
        lemma_render_push(Seq::empty(), (metric@, Some(value.code())));
        let c = component(metric@, value.code());
        assert(render(fields) =~= seq![c]);
        assert(join(seq![c], VECTOR_DELIM) == c);
        assert(vector@ =~= lead(old(vector)@) + c);
    }
    Ghost(fields)
}

/// Appends a further metric and says what has been written.
pub(crate) fn write_metric<T: AsStr>(
    vector: &mut String,
    metric: &str,
    value: &T,
    Ghost(head): Ghost<Seq<char>>,
    Ghost(fields): Ghost<Seq<Field>>,
) -> (next: Ghost<Seq<Field>>)
    requires
        written(old(vector)@, head, fields),
    ensures
        next@ == fields.push((metric@, Some(value.code()))),
        written(final(vector)@, head, next@),
{
    append_metric(vector, metric, value);
    proof {
        let c = component(metric@, value.code());
        lemma_render_push(fields, (metric@, Some(value.code())));
        lemma_join_push(render(fields), c, VECTOR_DELIM);
        assert(join(render(fields), VECTOR_DELIM).len() > 0);
        assert(vector@ =~= head + join(render(fields).push(c), VECTOR_DELIM));
    }
    Ghost(fields.push((metric@, Some(value.code()))))
}

/// Appends a further metric unless it is not defined, and says what has been
/// written.
pub(crate) fn write_optional<T: AsStr + Optional>(
    vector: &mut String,
    metric: &str,
    value: &T,
    Ghost(head): Ghost<Seq<char>>,
    Ghost(fields): Ghost<Seq<Field>>,
) -> (next: Ghost<Seq<Field>>)
    requires
        written(old(vector)@, head, fields),
    ensures
        next@ == fields.push((metric@, shown(*value))),
        written(final(vector)@, head, next@),
{
    append_metric_optional(vector, metric, value);
    proof {
        let c = component(metric@, value.code());
        lemma_render_push(fields, (metric@, shown(*value)));
        lemma_join_push(render(fields), c, VECTOR_DELIM);
        assert(join(render(fields), VECTOR_DELIM).len() > 0);
        if !value.undefined() {
            assert(vector@ =~= head + join(render(fields).push(c), VECTOR_DELIM));
        }
    }
    Ghost(fields.push((metric@, shown(*value))))
}

/// The metrics of a vector string: an unordered mapping from metric names to
/// raw values, both borrowed from the string that was parsed.
pub struct Metrics<'a> {
    map: StringHashMap<&'a str>,
}

impl<'a> View for Metrics<'a> {
    type V = MetricMap;

    closed spec fn view(&self) -> MetricMap {
        Map::new(|k: Seq<char>| self.map@.contains_key(k), |k: Seq<char>| self.map@[k]@)
    }
}

impl<'a> Metrics<'a> {
    /// A mapping without entries.
    pub fn new() -> (m: Self)
        ensures
            m@ == MetricMap::empty(),
    {
        let m = Metrics { map: StringHashMap::new() };
        assert(m@ =~= MetricMap::empty());
        m
    }

    /// Tells whether the vector holds the metric `name`.
    pub fn contains_key(&self, name: &str) -> (b: bool)
        ensures
            b == self@.contains_key(name@),
    {
        self.map.contains_key(name)
    }

    /// The raw value of the metric `name`, if the vector holds it.
    pub fn get(&self, name: &str) -> (r: Option<&'a str>)
        ensures
            match r {
                Some(v) => self@.contains_key(name@) && self@[name@] == v@,
                None => !self@.contains_key(name@),
            },
    {
        match self.map.get(name) {
            Some(v) => Some(*v),
            None => None,
        }
    }

    /// The raw value of the metric `name`, or `default` where the vector does
    /// not hold it.
    pub fn get_or(&self, name: &str, default: &'a str) -> (v: &'a str)
        ensures
            v@ == value_or(self@, name@, default@),
    {
        match self.map.get(name) {
            Some(v) => *v,
            None => default,
        }
    }

    /// Sets the raw value of the metric `name`.
    pub fn insert(&mut self, name: &str, value: &'a str)
        ensures
            final(self)@ == old(self)@.insert(name@, value@),
    {
        self.map.insert(name.to_owned(), value);
        assert(self@ =~= old(self)@.insert(name@, value@));
    }
}

/// Parse CVSS vector and return metrics as a mapping of strings.
///
/// The string is cut at each `/`; every component must consist of a name, one
/// `:` and a value, and no name may occur twice. The first component that
/// breaks one of these rules decides the error.
pub fn parse_metrics<'a>(cvss_str: &'a str) -> (r: Result<Metrics<'a>, ParseError>)
    ensures
        match r {
            Ok(m) => metrics_of(cvss_str@) == Ok::<MetricMap, ParseError>(m@),
            Err(e) => metrics_of(cvss_str@) == Err::<MetricMap, ParseError>(e),
        },
{
    let chars = to_chars(cvss_str);
    let n = chars.len();
    let mut parsed = Metrics::new();
    let mut start: usize = 0;
    let ghost s = cvss_str@;
    let ghost mut done: Seq<Seq<char>> = Seq::empty();
    assert(done + split(s.skip(0), VECTOR_DELIM) =~= split(s, VECTOR_DELIM)) by {
        assert(s.skip(0) =~= s);
    }
    loop
        invariant
            s == cvss_str@,
            chars@ == s,
            n == chars@.len(),
            start <= n,
            split(s, VECTOR_DELIM) == done + split(s.skip(start as int), VECTOR_DELIM),
            collect(done) == Ok::<MetricMap, ParseError>(parsed@),
        decreases n - start,
    {
        let end = find(&chars, start, n, VECTOR_DELIM);
        let colon = find(&chars, start, end, METRIC_DELIM);
        let ghost comp = s.subrange(start as int, end as int);
        let ghost tail = if end < n {
            split(s.skip(end + 1), VECTOR_DELIM)
        } else {
            Seq::empty()
        };
        proof {
            let rest = s.skip(start as int);
            if end < n {
                lemma_split_at(rest, VECTOR_DELIM, end - start);
                assert(rest.take(end - start) =~= comp);
                assert(rest.skip(end - start + 1) =~= s.skip(end + 1));
            } else {
                assert(rest =~= comp);
                lemma_split_none(rest, VECTOR_DELIM);
            }
            assert(split(s, VECTOR_DELIM) =~= done.push(comp) + tail);
            lemma_parse_component_cases(comp);
            lemma_collect_push(done, parsed@, comp);
            lemma_first_index_is(comp, METRIC_DELIM, colon - start);
        }
        if colon == end {
            proof {
                lemma_collect_error_stays(done.push(comp), tail);
            }
            return Err(ParseError::MalformedVector);
        }
        let second = find(&chars, colon + 1, end, METRIC_DELIM);
        if second != end {
            proof {
                assert(comp.skip(colon - start + 1)[second - colon - 1] == METRIC_DELIM);
                lemma_collect_error_stays(done.push(comp), tail);
            }
            return Err(ParseError::MalformedVector);
        }
        let name = cvss_str.substring_char(start, colon);
        let value = cvss_str.substring_char(colon + 1, end);
        proof {
            assert(comp =~= component(name@, value@));
            assert(free_of(name@, METRIC_DELIM));
            assert(free_of(value@, METRIC_DELIM));
            lemma_parse_component(name@, value@);
        }
        if parsed.contains_key(name) {
            proof {
                lemma_collect_error_stays(done.push(comp), tail);
            }
            return Err(ParseError::Duplicated);
        }
        parsed.insert(name, value);
        proof {
            done = done.push(comp);
        }
        if end == n {
            assert(done + tail =~= done);
            return Ok(parsed);
        }
        start = end + 1;
    }
}

} // verus!
