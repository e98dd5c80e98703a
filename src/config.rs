use vstd::prelude::*;
use vstd::string::*;

use crate::text::text_eq;
use crate::value::{real_in_limit, ValueProperty, REAL_LIMIT, UNIT};

verus! {

/// A node of a parsed configuration document. Reals are in thousandths.
#[derive(Debug)]
pub enum ConfigNode {
    Null,
    Bool(bool),
    Int(i64),
    Real(i64),
    Str(String),
    List(Vec<ConfigNode>),
    Mapping(Vec<(String, ConfigNode)>),
}

/// Why a configuration cannot be built, with the offending field.
#[derive(Debug, Clone)]
pub enum ConfigError {
    /// A required field is absent, has the wrong type, or names an unknown
    /// variant.
    Malformed(String),
    /// A recognised option that is not implemented.
    Unsupported(String),
}

/// The value under `key` among `entries`: the first entry with that key.
pub open spec fn lookup_in(entries: Seq<(String, ConfigNode)>, key: Seq<char>) -> Option<ConfigNode>
    decreases entries.len(),
{
    if entries.len() == 0 {
        None
    } else if entries[0].0@ == key {
        Some(entries[0].1)
    } else {
        lookup_in(entries.drop_first(), key)
    }
}

/// The value of field `key` of a mapping node; `None` for other nodes.
pub open spec fn field(node: ConfigNode, key: Seq<char>) -> Option<ConfigNode> {
    match node {
        ConfigNode::Mapping(entries) => lookup_in(entries@, key),
        _ => None,
    }
}

/// The value of field `key` of a mapping node; `None` for other nodes.
pub fn get<'a>(node: &'a ConfigNode, key: &str) -> (r: Option<&'a ConfigNode>)
    ensures
        match r {
            Some(v) => field(*node, key@) == Some(*v),
            None => field(*node, key@) is None,
        },
{
    match node {
        ConfigNode::Mapping(entries) => {
            let mut i: usize = 0;
            assert(entries@.subrange(0, entries@.len() as int) =~= entries@);
            while i < entries.len()
                invariant
                    0 <= i <= entries.len(),
                    *node == ConfigNode::Mapping(*entries),
                    lookup_in(entries@, key@) == lookup_in(entries@.subrange(i as int, entries@.len() as int), key@),
                decreases entries.len() - i,
            {
                let ghost rest = entries@.subrange(i as int, entries@.len() as int);
                assert(rest.drop_first() =~= entries@.subrange(i + 1, entries@.len() as int));
                assert(rest[0] == entries@[i as int]);
                if text_eq(entries[i].0.as_str(), key) {
                    return Some(&entries[i].1);
                }
                i = i + 1;
            }
            None
        },
        _ => None,
    }
}

/// The text of a string node.
pub open spec fn text_of(node: ConfigNode) -> Option<Seq<char>> {
    match node {
        ConfigNode::Str(s) => Some(s@),
        _ => None,
    }
}

/// The text of a string node, if it is one.
pub fn as_str(node: &ConfigNode) -> (r: Option<&str>)
    ensures
        match r {
            Some(s) => text_of(*node) == Some(s@),
            None => text_of(*node) is None,
        },
{
    match node {
        ConfigNode::Str(s) => Some(s.as_str()),
        _ => None,
    }
}

/// The real number of a numeric node, in thousandths, within the limit.
pub open spec fn real_of(node: ConfigNode) -> Option<i64> {
    match node {
        ConfigNode::Int(n) => if -(REAL_LIMIT / UNIT) <= n <= REAL_LIMIT / UNIT {
            Some((n * UNIT) as i64)
        } else {
            None
        },
        ConfigNode::Real(t) => if real_in_limit(t) {
            Some(t)
        } else {
            None
        },
        _ => None,
    }
}

/// The non-negative integer of an integer node.
pub open spec fn count_of(node: ConfigNode) -> Option<usize> {
    match node {
        ConfigNode::Int(n) => if 0 <= n <= usize::MAX {
            Some(n as usize)
        } else {
            None
        },
        _ => None,
    }
}

/// The real of a numeric node, in thousandths.
pub fn as_real(node: &ConfigNode) -> (r: Option<i64>)
    ensures
        r == real_of(*node),
{
    match node {
        ConfigNode::Int(n) => if -(REAL_LIMIT / UNIT) <= *n && *n <= REAL_LIMIT / UNIT {
            Some(*n * UNIT)
        } else {
            None
        },
        ConfigNode::Real(t) => if -REAL_LIMIT <= *t && *t <= REAL_LIMIT {
            Some(*t)
        } else {
            None
        },
        _ => None,
    }
}

/// The non-negative integer of an integer node.
pub fn as_count(node: &ConfigNode) -> (r: Option<usize>)
    ensures
        r == count_of(*node),
{
    match node {
        ConfigNode::Int(n) => if 0 <= *n && (*n as u64) <= (usize::MAX as u64) {
            Some(*n as usize)
        } else {
            None
        },
        _ => None,
    }
}

/// `p` is the real property that `node` describes: a number, a `{min, max}`
/// mapping with `min <= max`, or a non-empty list of numbers.
pub open spec fn real_property(node: ConfigNode, p: ValueProperty<i64>) -> bool {
    match node {
        ConfigNode::Mapping(_) => match (field(node, "min"@), field(node, "max"@)) {
            (Some(a), Some(b)) => match (real_of(a), real_of(b)) {
                (Some(x), Some(y)) => x <= y && p == ValueProperty::Range(x, y),
                _ => false,
            },
            _ => false,
        },
        ConfigNode::List(items) => match p {
            ValueProperty::Choice(vs) => items.len() > 0 && vs@.len() == items.len() && forall|i: int|
                0 <= i < items.len() ==> real_of(#[trigger] items@[i]) == Some(vs@[i]),
            _ => false,
        },
        _ => match real_of(node) {
            Some(x) => p == ValueProperty::Fixed(x),
            None => false,
        },
    }
}

/// `node` describes a real property.
pub open spec fn real_property_ok(node: ConfigNode) -> bool {
    match node {
        ConfigNode::Mapping(_) => match (field(node, "min"@), field(node, "max"@)) {
            (Some(a), Some(b)) => match (real_of(a), real_of(b)) {
                (Some(x), Some(y)) => x <= y,
                _ => false,
            },
            _ => false,
        },
        ConfigNode::List(items) => items.len() > 0 && forall|i: int|
            0 <= i < items.len() ==> (#[trigger] real_of(items@[i])) is Some,
        _ => real_of(node) is Some,
    }
}

/// `p` is the count property that `node` describes: a non-negative integer, a
/// `{min, max}` mapping with `min <= max`, or a non-empty list of them.
pub open spec fn count_property(node: ConfigNode, p: ValueProperty<usize>) -> bool {
    match node {
        ConfigNode::Mapping(_) => match (field(node, "min"@), field(node, "max"@)) {
            (Some(a), Some(b)) => match (count_of(a), count_of(b)) {
                (Some(x), Some(y)) => x <= y && p == ValueProperty::Range(x, y),
                _ => false,
            },
            _ => false,
        },
        ConfigNode::List(items) => match p {
            ValueProperty::Choice(vs) => items.len() > 0 && vs@.len() == items.len() && forall|i: int|
                0 <= i < items.len() ==> count_of(#[trigger] items@[i]) == Some(vs@[i]),
            _ => false,
        },
        _ => match count_of(node) {
            Some(x) => p == ValueProperty::Fixed(x),
            None => false,
        },
    }
}

/// `node` describes a count property.
pub open spec fn count_property_ok(node: ConfigNode) -> bool {
    match node {
        ConfigNode::Mapping(_) => match (field(node, "min"@), field(node, "max"@)) {
            (Some(a), Some(b)) => match (count_of(a), count_of(b)) {
                (Some(x), Some(y)) => x <= y,
                _ => false,
            },
            _ => false,
        },
        ConfigNode::List(items) => items.len() > 0 && forall|i: int|
            0 <= i < items.len() ==> (#[trigger] count_of(items@[i])) is Some,
        _ => count_of(node) is Some,
    }
}

fn malformed(field: &str) -> (r: ConfigError)
    ensures
        r is Malformed,
{
    ConfigError::Malformed(String::from_str(field))
}

impl ValueProperty<i64> {
    /// The real property a node describes.
    pub fn property(value: &ConfigNode) -> (r: Result<ValueProperty<i64>, ConfigError>)
        ensures
            r is Ok <==> real_property_ok(*value),
            r matches Ok(p) ==> real_property(*value, p) && p.wf(),
            r matches Err(e) ==> e is Malformed,
    {
        match value {
            ConfigNode::Mapping(_) => {
                let a = match get(value, "min") {
                    Some(a) => a,
                    None => return Err(malformed("min")),
                };
                let b = match get(value, "max") {
                    Some(b) => b,
                    None => return Err(malformed("max")),
                };
                match (as_real(a), as_real(b)) {
                    (Some(x), Some(y)) => if x <= y {
                        Ok(ValueProperty::Range(x, y))
                    } else {
                        Err(malformed("max"))
                    },
                    _ => Err(malformed("min")),
                }
            },
            ConfigNode::List(items) => {
                if items.len() == 0 {
                    return Err(malformed("choices"));
                }
                let mut vs: Vec<i64> = Vec::new();
                let mut i: usize = 0;
                while i < items.len()
                    invariant
                        0 <= i <= items.len(),
                        *value == ConfigNode::List(*items),
                        vs@.len() == i,
                        forall|j: int| 0 <= j < i ==> real_of(#[trigger] items@[j]) == Some(vs@[j]),
                    decreases items.len() - i,
                {
                    match as_real(&items[i]) {
                        Some(x) => vs.push(x),
                        None => {
                            assert(!(real_of(items@[i as int]) is Some));
                            return Err(malformed("choices"));
                        },
                    }
                    i = i + 1;
                }
                let r = ValueProperty::Choice(vs);
                assert(forall|j: int| 0 <= j < vs.len() ==> #[trigger] real_in_limit(vs@[j])) by {
                    assert forall|j: int| 0 <= j < vs.len() implies #[trigger] real_in_limit(vs@[j]) by {
                        assert(real_of(items@[j]) == Some(vs@[j]));
                    }
                }
                Ok(r)
            },
            _ => match as_real(value) {
                Some(x) => Ok(ValueProperty::Fixed(x)),
                None => Err(malformed("value")),
            },
        }
    }
}

impl ValueProperty<usize> {
    /// The count property a node describes.
    pub fn property(value: &ConfigNode) -> (r: Result<ValueProperty<usize>, ConfigError>)
        ensures
            r is Ok <==> count_property_ok(*value),
            r matches Ok(p) ==> count_property(*value, p) && p.wf(),
            r matches Err(e) ==> e is Malformed,
    {
        match value {
            ConfigNode::Mapping(_) => {
                let a = match get(value, "min") {
                    Some(a) => a,
                    None => return Err(malformed("min")),
                };
                let b = match get(value, "max") {
                    Some(b) => b,
                    None => return Err(malformed("max")),
                };
                match (as_count(a), as_count(b)) {
                    (Some(x), Some(y)) => if x <= y {
                        Ok(ValueProperty::Range(x, y))
                    } else {
                        Err(malformed("max"))
                    },
                    _ => Err(malformed("min")),
                }
            },
            ConfigNode::List(items) => {
                if items.len() == 0 {
                    return Err(malformed("choices"));
                }
                let mut vs: Vec<usize> = Vec::new();
                let mut i: usize = 0;
                while i < items.len()
                    invariant
                        0 <= i <= items.len(),
                        *value == ConfigNode::List(*items),
                        vs@.len() == i,
                        forall|j: int| 0 <= j < i ==> count_of(#[trigger] items@[j]) == Some(vs@[j]),
                    decreases items.len() - i,
                {
                    match as_count(&items[i]) {
                        Some(x) => vs.push(x),
                        None => {
                            assert(!(count_of(items@[i as int]) is Some));
                            return Err(malformed("choices"));
                        },
                    }
                    i = i + 1;
                }
                Ok(ValueProperty::Choice(vs))
            },
            _ => match as_count(value) {
                Some(x) => Ok(ValueProperty::Fixed(x)),
                None => Err(malformed("value")),
            },
        }
    }
}

/// The real property under field `name`: absent gives `None`.
pub fn parse_property_as_f64(value: &ConfigNode, name: &str) -> (r: Result<Option<ValueProperty<i64>>, ConfigError>)
    ensures
        match field(*value, name@) {
            None => r == Ok::<Option<ValueProperty<i64>>, ConfigError>(None),
            Some(n) => (r is Ok <==> real_property_ok(n)) && (r matches Ok(o) ==> (o matches Some(p)
                && real_property(n, p) && p.wf())),
        },
{
    match get(value, name) {
        None => Ok(None),
        Some(n) => match ValueProperty::<i64>::property(n) {
            Ok(p) => Ok(Some(p)),
            Err(e) => Err(e),
        },
    }
}

/// The count property under field `name`: absent gives `None`.
pub fn parse_property_as_usize(value: &ConfigNode, name: &str) -> (r: Result<Option<ValueProperty<usize>>, ConfigError>)
    ensures
        match field(*value, name@) {
            None => r == Ok::<Option<ValueProperty<usize>>, ConfigError>(None),
            Some(n) => (r is Ok <==> count_property_ok(n)) && (r matches Ok(o) ==> (o matches Some(p)
                && count_property(n, p) && p.wf())),
        },
{
    match get(value, name) {
        None => Ok(None),
        Some(n) => match ValueProperty::<usize>::property(n) {
            Ok(p) => Ok(Some(p)),
            Err(e) => Err(e),
        },
    }
}

/// `p` is the real property under field `name`, or `Fixed(default)` when the
/// field is absent.
pub open spec fn real_field_or(value: ConfigNode, name: Seq<char>, default: i64, p: ValueProperty<i64>) -> bool {
    match field(value, name) {
        None => p == ValueProperty::Fixed(default),
        Some(n) => real_property(n, p),
    }
}

/// Field `name` is absent or describes a real property.
pub open spec fn real_field_ok(value: ConfigNode, name: Seq<char>) -> bool {
    match field(value, name) {
        None => true,
        Some(n) => real_property_ok(n),
    }
}

/// `p` is the count property under field `name`, or `Fixed(default)` when
/// the field is absent.
pub open spec fn count_field_or(value: ConfigNode, name: Seq<char>, default: usize, p: ValueProperty<usize>) -> bool {
    match field(value, name) {
        None => p == ValueProperty::Fixed(default),
        Some(n) => count_property(n, p),
    }
}

/// Field `name` is absent or describes a count property.
pub open spec fn count_field_ok(value: ConfigNode, name: Seq<char>) -> bool {
    match field(value, name) {
        None => true,
        Some(n) => count_property_ok(n),
    }
}

/// The real property under field `name`, or `Fixed(default)` when absent.
pub fn real_or(value: &ConfigNode, name: &str, default: i64) -> (r: Result<ValueProperty<i64>, ConfigError>)
    requires
        real_in_limit(default),
    ensures
        r is Ok <==> real_field_ok(*value, name@),
        r matches Ok(p) ==> real_field_or(*value, name@, default, p) && p.wf(),
{
    match parse_property_as_f64(value, name) {
        Ok(Some(p)) => Ok(p),
        Ok(None) => Ok(ValueProperty::Fixed(default)),
        Err(e) => Err(e),
    }
}

/// The count property under field `name`, or `Fixed(default)` when absent.
pub fn count_or(value: &ConfigNode, name: &str, default: usize) -> (r: Result<ValueProperty<usize>, ConfigError>)
    ensures
        r is Ok <==> count_field_ok(*value, name@),
        r matches Ok(p) ==> count_field_or(*value, name@, default, p) && p.wf(),
{
    match parse_property_as_usize(value, name) {
        Ok(Some(p)) => Ok(p),
        Ok(None) => Ok(ValueProperty::Fixed(default)),
        Err(e) => Err(e),
    }
}

/// The real property under the required field `name`.
pub fn real_required(value: &ConfigNode, name: &str) -> (r: Result<ValueProperty<i64>, ConfigError>)
    ensures
        r is Ok <==> (field(*value, name@) matches Some(n) && real_property_ok(n)),
        r matches Ok(p) ==> (field(*value, name@) matches Some(n) && real_property(n, p)) && p.wf(),
{
    match parse_property_as_f64(value, name) {
        Ok(Some(p)) => Ok(p),
        Ok(None) => Err(malformed(name)),
        Err(e) => Err(e),
    }
}

/// The count property under the required field `name`.
pub fn count_required(value: &ConfigNode, name: &str) -> (r: Result<ValueProperty<usize>, ConfigError>)
    ensures
        r is Ok <==> (field(*value, name@) matches Some(n) && count_property_ok(n)),
        r matches Ok(p) ==> (field(*value, name@) matches Some(n) && count_property(n, p)) && p.wf(),
{
    match parse_property_as_usize(value, name) {
        Ok(Some(p)) => Ok(p),
        Ok(None) => Err(malformed(name)),
        Err(e) => Err(e),
    }
}

/// The text of the required string field `name`, as an owned string.
pub fn parse_property_as_str(value: &ConfigNode, name: &str) -> (r: Result<String, ConfigError>)
    ensures
        r is Ok <==> (field(*value, name@) matches Some(n) && text_of(n) is Some),
        r matches Ok(s) ==> (field(*value, name@) matches Some(n) && text_of(n) == Some(s@)),
{
    match get(value, name) {
        Some(n) => match as_str(n) {
            Some(s) => Ok(String::from_str(s)),
            None => Err(malformed(name)),
        },
        None => Err(malformed(name)),
    }
}

/// The text of the required string field `name`.
pub fn str_required<'a>(value: &'a ConfigNode, name: &str) -> (r: Result<&'a str, ConfigError>)
    ensures
        r is Ok <==> (field(*value, name@) matches Some(n) && text_of(n) is Some),
        r matches Ok(s) ==> (field(*value, name@) matches Some(n) && text_of(n) == Some(s@)),
{
    match get(value, name) {
        Some(n) => match as_str(n) {
            Some(s) => Ok(s),
            None => Err(malformed(name)),
        },
        None => Err(malformed(name)),
    }
}

} // verus!

verus! {

/// Field `name` holds a real property, and `p` is it.
pub open spec fn real_field(value: ConfigNode, name: Seq<char>, p: ValueProperty<i64>) -> bool {
    field(value, name) matches Some(n) && real_property(n, p)
}

/// Field `name` holds a real property.
pub open spec fn real_field_req(value: ConfigNode, name: Seq<char>) -> bool {
    field(value, name) matches Some(n) && real_property_ok(n)
}

/// Field `name` holds a count property, and `p` is it.
pub open spec fn count_field(value: ConfigNode, name: Seq<char>, p: ValueProperty<usize>) -> bool {
    field(value, name) matches Some(n) && count_property(n, p)
}

/// Field `name` holds a count property.
pub open spec fn count_field_req(value: ConfigNode, name: Seq<char>) -> bool {
    field(value, name) matches Some(n) && count_property_ok(n)
}

/// The text of field `name`, when it is a string.
pub open spec fn text_field(value: ConfigNode, name: Seq<char>) -> Option<Seq<char>> {
    match field(value, name) {
        Some(n) => text_of(n),
        None => None,
    }
}

/// `p` is the optional real property under field `name`.
pub open spec fn real_field_opt(value: ConfigNode, name: Seq<char>, p: Option<ValueProperty<i64>>) -> bool {
    match (field(value, name), p) {
        (None, None) => true,
        (Some(n), Some(q)) => real_property(n, q),
        _ => false,
    }
}

/// `p` is the optional count property under field `name`.
pub open spec fn count_field_opt(value: ConfigNode, name: Seq<char>, p: Option<ValueProperty<usize>>) -> bool {
    match (field(value, name), p) {
        (None, None) => true,
        (Some(n), Some(q)) => count_property(n, q),
        _ => false,
    }
}

/// The text of field `name`, if it is a string.
pub fn text_field_exec<'a>(value: &'a ConfigNode, name: &str) -> (r: Option<&'a str>)
    ensures
        match r {
            Some(s) => text_field(*value, name@) == Some(s@),
            None => text_field(*value, name@) is None,
        },
{
    match get(value, name) {
        Some(n) => as_str(n),
        None => None,
    }
}

/// The malformed-field error for `name`.
pub fn malformed_field(name: &str) -> (r: ConfigError)
    ensures
        r is Malformed,
{
    ConfigError::Malformed(String::from_str(name))
}

/// The unsupported-option error for `name`.
pub fn unsupported_field(name: &str) -> (r: ConfigError)
    ensures
        r is Unsupported,
{
    ConfigError::Unsupported(String::from_str(name))
}

/// The first key of a mapping node.
pub open spec fn first_key(node: ConfigNode) -> Option<Seq<char>> {
    match node {
        ConfigNode::Mapping(entries) => if entries.len() > 0 {
            Some(entries@[0].0@)
        } else {
            None
        },
        _ => None,
    }
}

/// The first key of a mapping node.
pub fn first_key_exec(node: &ConfigNode) -> (r: Option<&str>)
    ensures
        match r {
            Some(s) => first_key(*node) == Some(s@),
            None => first_key(*node) is None,
        },
{
    match node {
        ConfigNode::Mapping(entries) => if entries.len() > 0 {
            Some(entries[0].0.as_str())
        } else {
            None
        },
        _ => None,
    }
}

/// The items of a list node.
pub open spec fn items_of(node: ConfigNode) -> Option<Seq<ConfigNode>> {
    match node {
        ConfigNode::List(items) => Some(items@),
        _ => None,
    }
}

/// The items of a list node, if it is one.
pub fn as_list(node: &ConfigNode) -> (r: Option<&Vec<ConfigNode>>)
    ensures
        match r {
            Some(v) => items_of(*node) == Some(v@),
            None => items_of(*node) is None,
        },
{
    match node {
        ConfigNode::List(items) => Some(items),
        _ => None,
    }
}

} // verus!

verus! {

/// Every node of `items` describes a real property.
pub open spec fn all_real_properties(items: Seq<ConfigNode>) -> bool {
    forall|i: int| 0 <= i < items.len() ==> real_property_ok(#[trigger] items[i])
}

/// `ps` are the real properties that `items` describe.
pub open spec fn real_properties_of(items: Seq<ConfigNode>, ps: Seq<ValueProperty<i64>>) -> bool {
    ps.len() == items.len() && forall|i: int|
        0 <= i < items.len() ==> real_property(items[i], #[trigger] ps[i]) && ps[i].wf()
}

/// The real properties of a list node.
pub fn real_list(value: &ConfigNode) -> (r: Result<Vec<ValueProperty<i64>>, ConfigError>)
    ensures
        r is Ok <==> (items_of(*value) matches Some(items) && all_real_properties(items)),
        r matches Ok(ps) ==> (items_of(*value) matches Some(items) && real_properties_of(items, ps@)),
{
    let items = match as_list(value) {
        Some(items) => items,
        None => return Err(malformed_field("list")),
    };
    let mut ps: Vec<ValueProperty<i64>> = Vec::new();
    let mut i: usize = 0;
    while i < items.len()
        invariant
            0 <= i <= items.len(),
            items_of(*value) == Some(items@),
            ps@.len() == i,
            forall|j: int| 0 <= j < i ==> real_property_ok(#[trigger] items@[j]),
            forall|j: int| 0 <= j < i ==> real_property(items@[j], #[trigger] ps@[j]) && ps@[j].wf(),
        decreases items.len() - i,
    {
        match ValueProperty::<i64>::property(&items[i]) {
            Ok(p) => ps.push(p),
            Err(e) => {
                assert(!all_real_properties(items@));
                return Err(e);
            },
        }
        i = i + 1;
    }
    assert(real_properties_of(items@, ps@));
    Ok(ps)
}

} // verus!
