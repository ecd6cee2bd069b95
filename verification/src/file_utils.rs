use vstd::prelude::*;

verus! {

/// What follows the first `=` of a line (empty when there is none).
pub open spec fn value_after_eq(line: Seq<char>) -> Seq<char>
    decreases line.len(),
{
    if line.len() == 0 {
        Seq::empty()
    } else if line[0] == '=' {
        line.drop_first()
    } else {
        value_after_eq(line.drop_first())
    }
}

/// What precedes the first `=` of a line (the whole line when there is none).
pub open spec fn property_before_eq(line: Seq<char>) -> Seq<char>
    decreases line.len(),
{
    if line.len() == 0 || line[0] == '=' {
        Seq::empty()
    } else {
        seq![line[0]] + property_before_eq(line.drop_first())
    }
}

/// Reads `property=value` configuration lines.
pub struct FileReader {}

/// Skipping a prefix free of `=` leaves the value unchanged.
proof fn lemma_skip_prefix(line: Seq<char>, i: int)
    requires
        0 <= i <= line.len(),
        forall|j: int| 0 <= j < i ==> line[j] != '=',
    ensures
        value_after_eq(line) == value_after_eq(line.subrange(i, line.len() as int)),
    decreases i,
{
    if i > 0 {
        lemma_skip_prefix(line.drop_first(), i - 1);
        assert(line.drop_first().subrange(i - 1, line.drop_first().len() as int) =~= line.subrange(
            i,
            line.len() as int,
        ));
    } else {
        assert(line.subrange(0, line.len() as int) =~= line);
    }
}

/// The property of a line whose first `=` is at `i` is the text before it.
proof fn lemma_property_prefix(line: Seq<char>, i: int)
    requires
        0 <= i < line.len(),
        line[i] == '=',
        forall|j: int| 0 <= j < i ==> line[j] != '=',
    ensures
        property_before_eq(line) == line.subrange(0, i),
    decreases i,
{
    if i > 0 {
        lemma_property_prefix(line.drop_first(), i - 1);
        assert(line.subrange(0, i) =~= seq![line[0]] + line.drop_first().subrange(0, i - 1));
    } else {
        assert(line.subrange(0, 0) =~= Seq::<char>::empty());
    }
}

impl FileReader {
    /// The position of the first `=` of a line.
    fn eq_position(line: &str) -> (i: usize)
        requires
            line@.contains('='),
        ensures
            i < line@.len(),
            line@[i as int] == '=',
            forall|j: int| 0 <= j < i ==> line@[j] != '=',
            value_after_eq(line@) == line@.subrange(i + 1, line@.len() as int),
            property_before_eq(line@) == line@.subrange(0, i as int),
    {
        let n = line.unicode_len();
        let mut i: usize = 0;
        while i < n
            invariant
                n == line@.len(),
                i <= n,
                forall|j: int| 0 <= j < i ==> line@[j] != '=',
                line@.contains('='),
            decreases n - i,
        {
            if line.get_char(i) == '=' {
                proof {
                    lemma_skip_prefix(line@, i as int);
                    lemma_property_prefix(line@, i as int);
                    let rest = line@.subrange(i as int, n as int);
                    assert(rest.drop_first() =~= line@.subrange(i + 1, n as int));
                }
                return i;
            }
            i = i + 1;
        }
        proof {
            let k = choose|k: int| 0 <= k < line@.len() && line@[k] == '=';
            assert(line@[k] != '=');
        }
        0
    }

    /// The value of a `property=value` line: all that follows its first `=`.
    pub fn property_value(line: &str) -> (value: String)
        requires
            line@.contains('='),
        ensures
            value@ == value_after_eq(line@),
    {
        let n = line.unicode_len();
        let i = Self::eq_position(line);
        String::from_str(line.substring_char(i + 1, n))
    }

    /// The property and the value of a `property=value` line: what precedes
    /// its first `=`, and all that follows it.
    pub fn property_pair(line: &str) -> (pair: (String, String))
        requires
            line@.contains('='),
        ensures
            pair.0@ == property_before_eq(line@),
            pair.1@ == value_after_eq(line@),
    {
        let n = line.unicode_len();
        let i = Self::eq_position(line);
        (String::from_str(line.substring_char(0, i)), String::from_str(line.substring_char(i + 1, n)))
    }

    /// The `(property, value)` pairs of a list of `property=value` lines, in order.
    pub fn properties(lines: &Vec<String>) -> (pairs: Vec<(String, String)>)
        requires
            forall|k: int| 0 <= k < lines.len() ==> (#[trigger] lines[k])@.contains('='),
        ensures
            pairs.len() == lines.len(),
            forall|k: int|
                0 <= k < lines.len() ==> (#[trigger] pairs[k]).0@ == property_before_eq(lines[k]@)
                    && pairs[k].1@ == value_after_eq(lines[k]@),
    {
        let mut pairs: Vec<(String, String)> = Vec::new();
        for i in 0..lines.len()
            invariant
                pairs.len() == i,
                forall|k: int| 0 <= k < lines.len() ==> (#[trigger] lines[k])@.contains('='),
                forall|k: int|
                    0 <= k < i ==> (#[trigger] pairs[k]).0@ == property_before_eq(lines[k]@)
                        && pairs[k].1@ == value_after_eq(lines[k]@),
        {
            let pair = Self::property_pair(lines[i].as_str());
            pairs.push(pair);
        }
        pairs
    }
}

/// A line written as `property=value`, with a property free of `=`, gives
/// back exactly the property and the value.
pub proof fn lemma_value_of_written_line(property: Seq<char>, value: Seq<char>)
    requires
        !property.contains('='),
    ensures
        property_before_eq(property + seq!['='] + value) == property,
        value_after_eq(property + seq!['='] + value) == value,
    decreases property.len(),
{
    let line = property + seq!['='] + value;
    if property.len() == 0 {
        assert(line.drop_first() =~= value);
        assert(line[0] == '=');
    } else {
        assert(!property.drop_first().contains('=')) by {
            if property.drop_first().contains('=') {
                let k = choose|k: int| 0 <= k < property.drop_first().len() && property.drop_first()[k] == '=';
                assert(property[k + 1] == '=');
            }
        }
        assert(property[0] != '=') by {
            if property[0] == '=' {
                assert(property.contains('='));
            }
        }
        lemma_value_of_written_line(property.drop_first(), value);
        assert(line.drop_first() =~= property.drop_first() + seq!['='] + value);
        assert(line[0] == property[0]);
        assert(property =~= seq![property[0]] + property.drop_first());
    }
}

} // verus!
