//! The grammar of a vector string, as functions on sequences of characters.
//!
//! A vector is a list of components separated by `/`; a component is a metric
//! name and a value separated by `:`. The functions here say what a string
//! splits into and which mapping from names to values it denotes; the lemmas
//! relate splitting and joining.

use vstd::prelude::*;
use crate::common::ParseError;

verus! {

/// Separates a metric name from its value.
pub const METRIC_DELIM: char = ':';

/// Separates the components of a vector.
pub const VECTOR_DELIM: char = '/';

/// The mapping from metric names to raw values that a vector denotes.
pub type MetricMap = Map<Seq<char>, Seq<char>>;

/// Position of the first `d` in `s`; `s.len()` where `s` holds no `d`.
pub open spec fn first_index(s: Seq<char>, d: char) -> int
    decreases s.len(),
{
    if s.len() == 0 || s[0] == d {
        0
    } else {
        1 + first_index(s.drop_first(), d)
    }
}

/// `s` holds no `d`.
pub open spec fn free_of(s: Seq<char>, d: char) -> bool {
    forall|i: int| 0 <= i < s.len() ==> s[i] != d
}

/// The pieces of `s` between the occurrences of `d`, in order. There is always
/// at least one piece, and pieces may be empty.
pub open spec fn split(s: Seq<char>, d: char) -> Seq<Seq<char>>
    decreases s.len(),
{
    let i = first_index(s, d);
    if 0 <= i < s.len() {
        seq![s.take(i)] + split(s.skip(i + 1), d)
    } else {
        seq![s]
    }
}

/// The pieces written one after the other with `d` between neighbours.
pub open spec fn join(parts: Seq<Seq<char>>, d: char) -> Seq<char>
    decreases parts.len(),
{
    if parts.len() == 0 {
        Seq::empty()
    } else if parts.len() == 1 {
        parts[0]
    } else {
        join(parts.drop_last(), d).push(d) + parts.last()
    }
}

/// The component that writes `value` under the metric `name`.
pub open spec fn component(name: Seq<char>, value: Seq<char>) -> Seq<char> {
    name.push(METRIC_DELIM) + value
}

/// Name and value of a component: defined where the key delimiter cuts the
/// component into exactly two parts.
pub open spec fn parse_component(c: Seq<char>) -> Option<(Seq<char>, Seq<char>)> {
    let parts = split(c, METRIC_DELIM);
    if parts.len() == 2 {
        Some((parts[0], parts[1]))
    } else {
        None
    }
}

/// Reads the components from first to last into a mapping. The first
/// component that is malformed, or whose name an earlier one has already
/// used, decides the error.
pub open spec fn collect(parts: Seq<Seq<char>>) -> Result<MetricMap, ParseError>
    decreases parts.len(),
{
    if parts.len() == 0 {
        Ok(Map::empty())
    } else {
        match collect(parts.drop_last()) {
            Err(e) => Err(e),
            Ok(m) => match parse_component(parts.last()) {
                None => Err(ParseError::MalformedVector),
                Some((name, value)) => if m.contains_key(name) {
                    Err(ParseError::Duplicated)
                } else {
                    Ok(m.insert(name, value))
                },
            },
        }
    }
}

/// What a vector string denotes: the mapping of its components, or the error
/// of the first component that cannot be taken.
pub open spec fn metrics_of(s: Seq<char>) -> Result<MetricMap, ParseError> {
    collect(split(s, VECTOR_DELIM))
}

/// `first_index` is in range, no earlier position holds `d`, and the position
/// itself does unless it is the end.
pub proof fn lemma_first_index(s: Seq<char>, d: char)
    ensures
        0 <= first_index(s, d) <= s.len(),
        forall|j: int| 0 <= j < first_index(s, d) ==> s[j] != d,
        first_index(s, d) < s.len() ==> s[first_index(s, d)] == d,
    decreases s.len(),
{
    if s.len() == 0 || s[0] == d {
    } else {
        let t = s.drop_first();
        lemma_first_index(t, d);
        assert forall|j: int| 0 <= j < first_index(s, d) implies s[j] != d by {
            if j > 0 {
                assert(s[j] == t[j - 1]);
            }
        }
        if first_index(s, d) < s.len() {
            assert(s[first_index(s, d)] == t[first_index(t, d)]);
        }
    }
}

/// A position that holds the first `d`, or the end of a string without `d`,
/// is what `first_index` gives.
pub proof fn lemma_first_index_is(s: Seq<char>, d: char, i: int)
    requires
        0 <= i <= s.len(),
        forall|j: int| 0 <= j < i ==> s[j] != d,
        i < s.len() ==> s[i] == d,
    ensures
        first_index(s, d) == i,
{
    lemma_first_index(s, d);
}

/// A string without `d` is its own single piece.
pub proof fn lemma_split_none(s: Seq<char>, d: char)
    requires
        free_of(s, d),
    ensures
        split(s, d) == seq![s],
{
    lemma_first_index(s, d);
}

/// Cutting at the first `d`: the text before it is the first piece, and the
/// other pieces are those of the text after it.
pub proof fn lemma_split_at(s: Seq<char>, d: char, i: int)
    requires
        0 <= i < s.len(),
        s[i] == d,
        forall|j: int| 0 <= j < i ==> s[j] != d,
    ensures
        split(s, d) == seq![s.take(i)] + split(s.skip(i + 1), d),
{
    lemma_first_index_is(s, d, i);
}

/// Splitting always gives at least one piece; exactly one where there is no
/// delimiter; and no piece holds the delimiter.
pub proof fn lemma_split_pieces(s: Seq<char>, d: char)
    ensures
        split(s, d).len() >= 1,
        split(s, d).len() == 1 <==> free_of(s, d),
        forall|k: int| 0 <= k < split(s, d).len() ==> free_of(#[trigger] split(s, d)[k], d),
    decreases s.len(),
{
    lemma_first_index(s, d);
    let i = first_index(s, d);
    if i < s.len() {
        lemma_split_pieces(s.skip(i + 1), d);
        let rest = split(s.skip(i + 1), d);
        assert forall|k: int| 0 <= k < split(s, d).len() implies free_of(
            #[trigger] split(s, d)[k],
            d,
        ) by {
            if k > 0 {
                assert(split(s, d)[k] == rest[k - 1]);
            }
        }
    }
}

/// Joining one more piece onto a non-empty list writes the delimiter and then
/// the piece.
pub proof fn lemma_join_push(parts: Seq<Seq<char>>, p: Seq<char>, d: char)
    requires
        parts.len() >= 1,
    ensures
        join(parts.push(p), d) == join(parts, d).push(d) + p,
{
    assert(parts.push(p).drop_last() =~= parts);
}

/// Joining a piece in front of a non-empty list writes the piece, the
/// delimiter, and then the joined list.
pub proof fn lemma_join_front(p: Seq<char>, rest: Seq<Seq<char>>, d: char)
    requires
        rest.len() >= 1,
    ensures
        join(seq![p] + rest, d) == p.push(d) + join(rest, d),
    decreases rest.len(),
{
    let all = seq![p] + rest;
    if rest.len() == 1 {
        assert(all.drop_last() =~= seq![p]);
        assert(join(seq![p], d) == p);
        assert(join(rest, d) == rest[0]);
        assert(join(all, d) =~= p.push(d) + join(rest, d));
    } else {
        assert(all.drop_last() =~= seq![p] + rest.drop_last());
        lemma_join_front(p, rest.drop_last(), d);
        assert(join(all, d) =~= p.push(d) + join(rest, d));
    }
}

/// The joined text begins with the first piece.
pub proof fn lemma_join_begins(parts: Seq<Seq<char>>, d: char)
    requires
        parts.len() >= 1,
    ensures
        parts[0].is_prefix_of(join(parts, d)),
    decreases parts.len(),
{
    if parts.len() > 1 {
        lemma_join_begins(parts.drop_last(), d);
        assert(parts.drop_last()[0] == parts[0]);
    }
}

/// Splitting undoes joining: pieces that hold no delimiter come back as they
/// were.
pub proof fn lemma_split_join(parts: Seq<Seq<char>>, d: char)
    requires
        parts.len() >= 1,
        forall|k: int| 0 <= k < parts.len() ==> free_of(#[trigger] parts[k], d),
    ensures
        split(join(parts, d), d) == parts,
    decreases parts.len(),
{
    if parts.len() == 1 {
        lemma_split_none(parts[0], d);
        assert(parts =~= seq![parts[0]]);
    } else {
        let p = parts[0];
        let rest = parts.drop_first();
        assert(parts =~= seq![p] + rest);
        lemma_join_front(p, rest, d);
        let s = join(parts, d);
        let i = p.len() as int;
        assert(free_of(p, d));
        lemma_split_at(s, d, i);
        assert(s.take(i) =~= p);
        assert(s.skip(i + 1) =~= join(rest, d));
        assert forall|k: int| 0 <= k < rest.len() implies free_of(#[trigger] rest[k], d) by {
            assert(rest[k] == parts[k + 1]);
        }
        lemma_split_join(rest, d);
    }
}

/// A component written from a name and a value without key delimiter reads
/// back as that name and that value.
pub proof fn lemma_parse_component(name: Seq<char>, value: Seq<char>)
    requires
        free_of(name, METRIC_DELIM),
        free_of(value, METRIC_DELIM),
    ensures
        parse_component(component(name, value)) == Some((name, value)),
{
    let c = component(name, value);
    let i = name.len() as int;
    lemma_split_at(c, METRIC_DELIM, i);
    assert(c.take(i) =~= name);
    assert(c.skip(i + 1) =~= value);
    lemma_split_none(value, METRIC_DELIM);
}

/// A component reads as a name and a value exactly when it holds one key
/// delimiter; the name is the text before it and the value the text after.
pub proof fn lemma_parse_component_cases(c: Seq<char>)
    ensures
        match parse_component(c) {
            Some((name, value)) => {
                &&& first_index(c, METRIC_DELIM) < c.len()
                &&& name == c.take(first_index(c, METRIC_DELIM))
                &&& value == c.skip(first_index(c, METRIC_DELIM) + 1)
                &&& free_of(name, METRIC_DELIM)
                &&& free_of(value, METRIC_DELIM)
            },
            None => free_of(c, METRIC_DELIM) || !free_of(
                c.skip(first_index(c, METRIC_DELIM) + 1),
                METRIC_DELIM,
            ),
        },
{
    lemma_first_index(c, METRIC_DELIM);
    let i = first_index(c, METRIC_DELIM);
    lemma_split_pieces(c, METRIC_DELIM);
    if i < c.len() {
        lemma_split_pieces(c.skip(i + 1), METRIC_DELIM);
        assert(split(c, METRIC_DELIM)[0] == c.take(i));
        if parse_component(c) is Some {
            assert(split(c.skip(i + 1), METRIC_DELIM).len() == 1);
            lemma_split_none(c.skip(i + 1), METRIC_DELIM);
            assert(split(c, METRIC_DELIM)[1] == c.skip(i + 1));
        }
    }
}

/// Once a component has been refused, whatever follows does not change the
/// error.
pub proof fn lemma_collect_error_stays(parts: Seq<Seq<char>>, more: Seq<Seq<char>>)
    requires
        collect(parts) is Err,
    ensures
        collect(parts + more) == collect(parts),
    decreases more.len(),
{
    if more.len() == 0 {
        assert(parts + more =~= parts);
    } else {
        assert((parts + more).drop_last() =~= parts + more.drop_last());
        lemma_collect_error_stays(parts, more.drop_last());
    }
}

/// Taking one more well-formed component under an unused name adds its entry.
pub proof fn lemma_collect_push(parts: Seq<Seq<char>>, m: MetricMap, c: Seq<char>)
    requires
        collect(parts) == Ok::<MetricMap, ParseError>(m),
    ensures
        collect(parts.push(c)) == match parse_component(c) {
            None => Err::<MetricMap, ParseError>(ParseError::MalformedVector),
            Some((name, value)) => if m.contains_key(name) {
                Err(ParseError::Duplicated)
            } else {
                Ok(m.insert(name, value))
            },
        },
{
    assert(parts.push(c).drop_last() =~= parts);
}

/// A metric as a vector may write it: its name, and its code unless the metric
/// is left out.
pub type Field = (Seq<char>, Option<Seq<char>>);

/// The components that write the fields, in order; a field without code
/// writes nothing.
pub open spec fn render(fields: Seq<Field>) -> Seq<Seq<char>>
    decreases fields.len(),
{
    if fields.len() == 0 {
        Seq::empty()
    } else {
        let parts = render(fields.drop_last());
        match fields.last().1 {
            Some(code) => parts.push(component(fields.last().0, code)),
            None => parts,
        }
    }
}

/// The mapping that holds each field with a code under its name.
pub open spec fn mapping(fields: Seq<Field>) -> MetricMap
    decreases fields.len(),
{
    if fields.len() == 0 {
        Map::empty()
    } else {
        let m = mapping(fields.drop_last());
        match fields.last().1 {
            Some(code) => m.insert(fields.last().0, code),
            None => m,
        }
    }
}

/// `s` holds neither delimiter of the grammar.
pub open spec fn plain(s: Seq<char>) -> bool {
    free_of(s, METRIC_DELIM) && free_of(s, VECTOR_DELIM)
}

/// The field at position `i` has the name `name` and a code.
pub open spec fn writes(fields: Seq<Field>, i: int, name: Seq<char>) -> bool {
    0 <= i < fields.len() && fields[i].0 == name && fields[i].1 is Some
}

/// The fields can be written and read back: names and codes hold no
/// delimiter, and no two fields share a name.
#[verifier::opaque]
pub open spec fn well_formed(fields: Seq<Field>) -> bool {
    &&& forall|i: int|
        0 <= i < fields.len() ==> plain((#[trigger] fields[i]).0) && (fields[i].1 matches Some(c)
            ==> plain(c))
    &&& forall|i: int, j: int|
        0 <= i < j < fields.len() ==> (#[trigger] fields[i]).0 != (#[trigger] fields[j]).0
}

/// Well-formed fields stay well-formed without the last of them.
pub proof fn lemma_well_formed_front(fields: Seq<Field>)
    requires
        well_formed(fields),
        fields.len() >= 1,
    ensures
        well_formed(fields.drop_last()),
{
    reveal(well_formed);
    let front = fields.drop_last();
    assert forall|i: int| 0 <= i < front.len() implies front[i] == fields[i] by {}
    assert forall|i: int, j: int| 0 <= i < j < front.len() implies (#[trigger] front[i]).0 != (
    #[trigger] front[j]).0 by {
        assert(fields[i].0 != fields[j].0);
    }
}

/// What one more field adds to the components and to the mapping.
pub proof fn lemma_render_push(fields: Seq<Field>, f: Field)
    ensures
        render(fields.push(f)) == match f.1 {
            Some(code) => render(fields).push(component(f.0, code)),
            None => render(fields),
        },
        mapping(fields.push(f)) == match f.1 {
            Some(code) => mapping(fields).insert(f.0, code),
            None => mapping(fields),
        },
{
    assert(fields.push(f).drop_last() =~= fields);
}

/// Fields whose first has a code write its component first.
pub proof fn lemma_rendered_first(fields: Seq<Field>)
    requires
        fields.len() >= 1,
        fields[0].1 is Some,
    ensures
        render(fields).len() >= 1,
        render(fields)[0] == component(fields[0].0, fields[0].1->0),
    decreases fields.len(),
{
    if fields.len() > 1 {
        assert(fields.drop_last()[0] == fields[0]);
        lemma_rendered_first(fields.drop_last());
    } else {
        assert(render(fields.drop_last()).len() == 0);
    }
}

/// The mapping holds a name only where a field with a code has that name.
pub proof fn lemma_mapping_names(fields: Seq<Field>, name: Seq<char>)
    requires
        mapping(fields).contains_key(name),
    ensures
        exists|i: int| #[trigger] writes(fields, i, name),
    decreases fields.len(),
{
    if fields.len() > 0 {
        let last = fields.len() - 1;
        if writes(fields, last, name) {
        } else {
            let front = fields.drop_last();
            lemma_mapping_names(front, name);
            let i = choose|i: int| #[trigger] writes(front, i, name);
            assert(writes(fields, i, name));
        }
    }
}

/// The mapping of well-formed fields does not hold the name of the last field
/// before that field is taken.
proof fn lemma_last_name_is_new(fields: Seq<Field>)
    requires
        well_formed(fields),
        fields.len() >= 1,
    ensures
        !mapping(fields.drop_last()).contains_key(fields.last().0),
{
    reveal(well_formed);
    let front = fields.drop_last();
    let name = fields.last().0;
    if mapping(front).contains_key(name) {
        lemma_mapping_names(front, name);
        let i = choose|i: int| #[trigger] writes(front, i, name);
        assert(fields[i].0 == fields[fields.len() - 1].0);
    }
}

/// Looking a field up by its name: the mapping holds the code of a field that
/// has one, and does not hold the name of a field that has none.
pub proof fn lemma_lookup(fields: Seq<Field>, i: int)
    requires
        well_formed(fields),
        0 <= i < fields.len(),
    ensures
        match fields[i].1 {
            Some(code) => mapping(fields).contains_key(fields[i].0) && mapping(fields)[fields[i].0]
                == code,
            None => !mapping(fields).contains_key(fields[i].0),
        },
    decreases fields.len(),
{
    let last = fields.len() - 1;
    if i == last {
        lemma_last_name_is_new(fields);
    } else {
        lemma_well_formed_front(fields);
        lemma_lookup(fields.drop_last(), i);
        assert(fields[i].0 != fields[last].0) by {
            reveal(well_formed);
        }
    }
}

/// The components `parts` have been read into the mapping `m`, and none of
/// them holds a vector delimiter.
pub open spec fn taken(parts: Seq<Seq<char>>, m: MetricMap) -> bool {
    &&& collect(parts) == Ok::<MetricMap, ParseError>(m)
    &&& forall|k: int| 0 <= k < parts.len() ==> free_of(#[trigger] parts[k], VECTOR_DELIM)
}

/// The components of well-formed fields read back as the mapping of the
/// fields.
pub proof fn lemma_rendered_taken(fields: Seq<Field>)
    requires
        well_formed(fields),
    ensures
        taken(render(fields), mapping(fields)),
    decreases fields.len(),
{
    if fields.len() > 0 {
        let front = fields.drop_last();
        lemma_well_formed_front(fields);
        lemma_rendered_taken(front);
        match fields.last().1 {
            Some(code) => {
                let name = fields.last().0;
                let c = component(name, code);
                lemma_last_name_is_new(fields);
                assert(plain(name) && plain(code)) by {
                    reveal(well_formed);
                }
                lemma_parse_component(name, code);
                lemma_collect_push(render(front), mapping(front), c);
                assert(free_of(c, VECTOR_DELIM));
            },
            None => {},
        }
    }
}

/// The grammar's round trip: the joined components of well-formed fields
/// denote the mapping of the fields.
pub proof fn lemma_metrics_of_rendered(fields: Seq<Field>)
    requires
        well_formed(fields),
        render(fields).len() >= 1,
    ensures
        metrics_of(join(render(fields), VECTOR_DELIM)) == Ok::<MetricMap, ParseError>(
            mapping(fields),
        ),
{
    lemma_rendered_taken(fields);
    lemma_split_join(render(fields), VECTOR_DELIM);
}

} // verus!
