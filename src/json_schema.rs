//! A small algebra of JSON shapes and their lowering to regular expressions.
use vstd::prelude::*;
use crate::text::{join, bool_text, decimal, join_strings, bool_string, decimal_string};

verus! {

broadcast use vstd::std_specs::vec::group_vec_axioms;

/// Values that lower to the regular expression of the text they describe.
pub trait ToRegex {
    /// The regular expression that the value lowers to.
    spec fn regex(&self) -> Seq<char>;

    fn to_regex(&self) -> (r: String)
        ensures
            r@ == self.regex(),
    ;
}

/// `r` in parentheses.
pub open spec fn paren(r: Seq<char>) -> Seq<char> {
    "("@ + r + ")"@
}

/// A JSON string whose contents match `r`.
pub open spec fn string_regex(r: Seq<char>) -> Seq<char> {
    "\"("@ + r + ")\""@
}

/// A JSON array, possibly empty, of items that match `item`.
pub open spec fn array_regex(item: Seq<char>) -> Seq<char> {
    "\\[("@ + item + "(, "@ + item + ")*)?\\]"@
}

/// One `"key": value` entry of a JSON object.
pub open spec fn entry_regex(key: Seq<char>, value: Seq<char>) -> Seq<char> {
    "\""@ + key + "\": "@ + value
}

/// A JSON object whose entries match `entries`, in that order.
pub open spec fn object_regex(entries: Seq<Seq<char>>) -> Seq<char> {
    "\\{ "@ + join(entries, ", "@) + " \\}"@
}

/// Any one of `alternatives`.
pub open spec fn union_regex(alternatives: Seq<Seq<char>>) -> Seq<char> {
    paren(join(alternatives.map_values(|a: Seq<char>| paren(a)), "|"@))
}

/// The alternation of the given booleans.
pub open spec fn bool_options_regex(options: Seq<bool>) -> Seq<char> {
    paren(join(options.map_values(|b: bool| bool_text(b)), "|"@))
}

/// The alternation of the given integers.
pub open spec fn int_options_regex(options: Seq<u64>) -> Seq<char> {
    paren(join(options.map_values(|n: u64| decimal(n as nat)), "|"@))
}

/// A positive integer of at most `max_digits` digits.
pub open spec fn max_digits_regex(max_digits: nat) -> Seq<char> {
    paren("[1-9]\\d{0,"@ + decimal((max_digits - 1) as nat) + "}"@)
}

/// An entry of an object schema: a key and the shape of its value.
pub struct KeyValueType {
    key: String,
    value: Box<JsonType>,
}

/// A JSON shape.
pub enum JsonType {
    Boolean { regex: String },
    Integer { regex: String },
    String { regex: String },
    Array(Box<JsonType>),
    Object(Vec<KeyValueType>),
    Union(Vec<JsonType>),
}

/// The regular expression that a shape lowers to.
pub closed spec fn regex_of(j: JsonType) -> Seq<char>
    decreases j,
{
    match j {
        JsonType::Boolean { regex } => regex@,
        JsonType::Integer { regex } => regex@,
        JsonType::String { regex } => regex@,
        JsonType::Array(inner) => array_regex(regex_of(*inner)),
        JsonType::Object(items) => object_regex(entry_regexes(items@)),
        JsonType::Union(items) => union_regex(shape_regexes(items@)),
    }
}

/// The regular expressions of a sequence of entries.
pub closed spec fn entry_regexes(items: Seq<KeyValueType>) -> Seq<Seq<char>>
    decreases items,
{
    if items.len() == 0 {
        Seq::empty()
    } else {
        entry_regexes(items.drop_last()).push(
            entry_regex(items.last().key@, regex_of(*items.last().value)),
        )
    }
}

/// The regular expressions of a sequence of shapes.
pub closed spec fn shape_regexes(items: Seq<JsonType>) -> Seq<Seq<char>>
    decreases items,
{
    if items.len() == 0 {
        Seq::empty()
    } else {
        shape_regexes(items.drop_last()).push(regex_of(items.last()))
    }
}


proof fn lemma_entry_regexes(items: Seq<KeyValueType>)
    ensures
        entry_regexes(items) == items.map_values(|kv: KeyValueType| kv.regex()),
    decreases items.len(),
{
    if items.len() > 0 {
        lemma_entry_regexes(items.drop_last());
    }
    assert(entry_regexes(items) =~= items.map_values(|kv: KeyValueType| kv.regex()));
}

proof fn lemma_shape_regexes(items: Seq<JsonType>)
    ensures
        shape_regexes(items) == items.map_values(|j: JsonType| j.regex()),
    decreases items.len(),
{
    if items.len() > 0 {
        lemma_shape_regexes(items.drop_last());
    }
    assert(shape_regexes(items) =~= items.map_values(|j: JsonType| j.regex()));
}

impl KeyValueType {
    /// An entry with the given key and value shape.
    pub fn new(key: String, value: JsonType) -> (r: Self)
        ensures
            r.regex() == entry_regex(key@, value.regex()),
    {
        Self { key, value: Box::new(value) }
    }
}

impl ToRegex for KeyValueType {
    closed spec fn regex(&self) -> Seq<char> {
        entry_regex(self.key@, regex_of(*self.value))
    }

    fn to_regex(&self) -> (r: String) {
        let mut out = String::from_str("\"");
        out.append(self.key.as_str());
        out.append("\": ");
        let v = self.value.lower();
        out.append(v.as_str());
        out
    }
}

impl JsonType {
    fn lower(&self) -> (r: String)
        ensures
            r@ == regex_of(*self),
        decreases self,
    {
        match self {
            JsonType::Boolean { regex } => regex.clone(),
            JsonType::Integer { regex } => regex.clone(),
            JsonType::String { regex } => regex.clone(),
            JsonType::Array(inner) => {
                let item = inner.lower();
                let mut out = String::from_str("\\[(");
                out.append(item.as_str());
                out.append("(, ");
                out.append(item.as_str());
                out.append(")*)?\\]");
                out
            },
            JsonType::Object(items) => {
                let mut parts: Vec<String> = Vec::new();
                let mut i: usize = 0;
                while i < items.len()
                    invariant
                        i <= items.len(),
                        *self == JsonType::Object(*items),
                        parts@.map_values(|p: String| p@) == entry_regexes(items@.subrange(0, i as int)),
                    decreases items.len() - i,
                {
                    let kv = &items[i];
                    proof {
                        vstd::std_specs::vec::axiom_vec_index_decreases(*items, i as int);
                        assert(decreases_to!(*self => (*self)->Object_0));
                        assert(decreases_to!(*items => items[i as int]));
                        assert(decreases_to!(items[i as int] => *items[i as int].value));
                    }
                    let mut entry = String::from_str("\"");
                    entry.append(kv.key.as_str());
                    entry.append("\": ");
                    let v = kv.value.lower();
                    entry.append(v.as_str());
                    parts.push(entry);
                    assert(items@.subrange(0, i as int + 1).drop_last() =~= items@.subrange(0, i as int));
                    assert(parts@.map_values(|p: String| p@) =~= entry_regexes(items@.subrange(0, i as int + 1)));
                    i = i + 1;
                }
                assert(items@.subrange(0, items.len() as int) =~= items@);
                let body = join_strings(&parts, ", ");
                let mut out = String::from_str("\\{ ");
                out.append(body.as_str());
                out.append(" \\}");
                out
            },
            JsonType::Union(items) => {
                let mut parts: Vec<String> = Vec::new();
                let mut i: usize = 0;
                while i < items.len()
                    invariant
                        i <= items.len(),
                        *self == JsonType::Union(*items),
                        parts@.map_values(|p: String| p@) == shape_regexes(items@.subrange(0, i as int)).map_values(|a: Seq<char>| paren(a)),
                    decreases items.len() - i,
                {
                    let item = &items[i];
                    proof {
                        vstd::std_specs::vec::axiom_vec_index_decreases(*items, i as int);
                        assert(decreases_to!(*self => (*self)->Union_0));
                        assert(decreases_to!(*items => items[i as int]));
                    }
                    let v = item.lower();
                    let mut alt = String::from_str("(");
                    alt.append(v.as_str());
                    alt.append(")");
                    parts.push(alt);
                    assert(items@.subrange(0, i as int + 1).drop_last() =~= items@.subrange(0, i as int));
                    let ghost prev = shape_regexes(items@.subrange(0, i as int));
                    assert(shape_regexes(items@.subrange(0, i as int + 1)) == prev.push(regex_of(items@[i as int])));
                    assert(prev.push(regex_of(items@[i as int])).map_values(|a: Seq<char>| paren(a)) =~= prev.map_values(|a: Seq<char>| paren(a)).push(paren(regex_of(items@[i as int]))));
                    assert(parts@.map_values(|p: String| p@) =~= shape_regexes(items@.subrange(0, i as int + 1)).map_values(|a: Seq<char>| paren(a)));
                    i = i + 1;
                }
                assert(items@.subrange(0, items.len() as int) =~= items@);
                let body = join_strings(&parts, "|");
                let mut out = String::from_str("(");
                out.append(body.as_str());
                out.append(")");
                out
            },
        }
    }
}

impl JsonType {
    /// Either boolean.
    pub fn boolean() -> (r: Self)
        ensures
            r.regex() == bool_options_regex(seq![true, false]),
    {
        let r = Self::boolean_with_options(vec![true, false]);
        assert(r.regex() == bool_options_regex(seq![true, false]));
        r
    }

    /// One of the given booleans.
    pub fn boolean_with_options(options: Vec<bool>) -> (r: Self)
        ensures
            r.regex() == bool_options_regex(options@),
    {
        let mut parts: Vec<String> = Vec::new();
        let mut i: usize = 0;
        while i < options.len()
            invariant
                i <= options.len(),
                parts.len() == i,
                forall|k: int| 0 <= k < i ==> (#[trigger] parts@[k])@ == bool_text(options@[k]),
            decreases options.len() - i,
        {
            let t = bool_string(options[i]);
            parts.push(t);
            i = i + 1;
        }
        assert(parts@.map_values(|p: String| p@) =~= options@.map_values(|b: bool| bool_text(b)));
        let body = join_strings(&parts, "|");
        let mut regex = String::from_str("(");
        regex.append(body.as_str());
        regex.append(")");
        JsonType::Boolean { regex }
    }

    /// An integer whose digits match `regex`.
    pub fn integer_with_regex(regex: &str) -> (r: Self)
        ensures
            r.regex() == paren(regex@),
    {
        let mut out = String::from_str("(");
        out.append(regex);
        out.append(")");
        JsonType::Integer { regex: out }
    }

    /// A positive integer of two or more digits.
    pub fn integer() -> (r: Self)
        ensures
            r.regex() == paren("[1-9]\\d+"@),
    {
        Self::integer_with_regex("[1-9]\\d+")
    }

    /// A positive integer of at most `max_digits` digits.
    pub fn integer_max_digits(max_digits: usize) -> (r: Self)
        requires
            max_digits >= 1,
        ensures
            r.regex() == max_digits_regex(max_digits as nat),
    {
        let mut digits = String::from_str("[1-9]\\d{0,");
        let bound = decimal_string((max_digits - 1) as u64);
        digits.append(bound.as_str());
        digits.append("}");
        Self::integer_with_regex(digits.as_str())
    }

    /// One of the given integers.
    pub fn integer_with_options(options: Vec<u64>) -> (r: Self)
        ensures
            r.regex() == int_options_regex(options@),
    {
        let mut parts: Vec<String> = Vec::new();
        let mut i: usize = 0;
        while i < options.len()
            invariant
                i <= options.len(),
                parts.len() == i,
                forall|k: int| 0 <= k < i ==> (#[trigger] parts@[k])@ == decimal(options@[k] as nat),
            decreases options.len() - i,
        {
            let t = decimal_string(options[i]);
            parts.push(t);
            i = i + 1;
        }
        assert(parts@.map_values(|p: String| p@) =~= options@.map_values(|n: u64| decimal(n as nat)));
        let body = join_strings(&parts, "|");
        let r = Self::integer_with_regex(body.as_str());
        r
    }

    /// A JSON string whose contents match `regex`.
    pub fn string_with_regex(regex: &str) -> (r: Self)
        ensures
            r.regex() == string_regex(regex@),
    {
        let mut out = String::from_str("\"(");
        out.append(regex);
        out.append(")\"");
        JsonType::String { regex: out }
    }

    /// Any JSON string without escaped quotes.
    pub fn string() -> (r: Self)
        ensures
            r.regex() == string_regex("[^\"]*"@),
    {
        Self::string_with_regex("[^\"]*")
    }

    /// An array of items of the given shape.
    pub fn array(item_type: JsonType) -> (r: Self)
        ensures
            r.regex() == array_regex(item_type.regex()),
    {
        JsonType::Array(Box::new(item_type))
    }

    /// An object entry with the given key and value shape.
    pub fn key_value(key: &str, value: JsonType) -> (r: KeyValueType)
        ensures
            r.regex() == entry_regex(key@, value.regex()),
    {
        KeyValueType::new(String::from_str(key), value)
    }

    /// An object with the given entries, in that order.
    pub fn object(items: Vec<KeyValueType>) -> (r: Self)
        ensures
            r.regex() == object_regex(items@.map_values(|kv: KeyValueType| kv.regex())),
    {
        proof {
            lemma_entry_regexes(items@);
        }
        JsonType::Object(items)
    }

    /// Any one of the given shapes.
    pub fn union(items: Vec<JsonType>) -> (r: Self)
        ensures
            r.regex() == union_regex(items@.map_values(|j: JsonType| j.regex())),
    {
        proof {
            lemma_shape_regexes(items@);
        }
        JsonType::Union(items)
    }
}

impl ToRegex for JsonType {
    closed spec fn regex(&self) -> Seq<char> {
        regex_of(*self)
    }

    fn to_regex(&self) -> (r: String) {
        self.lower()
    }
}

/// What a shape of each kind lowers to: a leaf to its own regex, an array to the
/// array of its item, an object to its entries in order, a union to its alternatives.
pub proof fn lemma_regex_of_variant(j: JsonType)
    ensures
        match j {
            JsonType::Boolean { regex } => j.regex() == regex@,
            JsonType::Integer { regex } => j.regex() == regex@,
            JsonType::String { regex } => j.regex() == regex@,
            JsonType::Array(inner) => j.regex() == array_regex(inner.regex()),
            JsonType::Object(items) => j.regex() == object_regex(items@.map_values(|kv: KeyValueType| kv.regex())),
            JsonType::Union(items) => j.regex() == union_regex(items@.map_values(|x: JsonType| x.regex())),
        },
{
    match j {
        JsonType::Object(items) => lemma_entry_regexes(items@),
        JsonType::Union(items) => lemma_shape_regexes(items@),
        _ => {},
    }
}

} // verus!
