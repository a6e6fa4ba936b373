//! JSON documents, as `serde_json` reads them.
//!
//! A document is known by its nodes: each JSON pointer that leads somewhere in it, with what
//! stands there.

use vstd::prelude::*;

use crate::text;

verus! {

/// A `serde_json` document.
#[verifier::external_type_specification]
#[verifier::external_body]
pub struct ExJsonValue(serde_json::Value);

/// What stands at one place of a document, as far as it is read.
pub enum JsonNode {
    /// A string.
    Text(Seq<char>),
    /// A number written as an integer that fits 64 bits, signed or unsigned.
    Integer(int),
    /// Anything else.
    Other,
}

/// The nodes of a document, by JSON pointer. The whole document stands at the empty pointer.
pub uninterp spec fn json_nodes(v: serde_json::Value) -> Map<Seq<char>, JsonNode>;

/// What `serde_json::from_str` makes of a text: the nodes of the document, or the text of the
/// error.
pub uninterp spec fn json_outcome(s: Seq<char>) -> Result<Map<Seq<char>, JsonNode>, Seq<char>>;

/// The nodes of the part of a document that stands at `path`.
pub open spec fn nodes_below(
    nodes: Map<Seq<char>, JsonNode>,
    path: Seq<char>,
) -> Map<Seq<char>, JsonNode> {
    Map::new(
        |rest: Seq<char>| (rest.len() == 0 || rest[0] == '/') && nodes.contains_key(path + rest),
        |rest: Seq<char>| nodes[path + rest],
    )
}

/// The string that a node holds.
pub open spec fn node_text(node: JsonNode) -> Option<Seq<char>> {
    match node {
        JsonNode::Text(s) => Some(s),
        _ => None,
    }
}

/// The integer that a node holds, where it fits `i64`.
pub open spec fn node_i64(node: JsonNode) -> Option<i64> {
    match node {
        JsonNode::Integer(n) => if i64::MIN <= n <= i64::MAX {
            Some(n as i64)
        } else {
            None
        },
        _ => None,
    }
}

/// The integer that a node holds, where it fits `u64`.
pub open spec fn node_u64(node: JsonNode) -> Option<u64> {
    match node {
        JsonNode::Integer(n) => if 0 <= n <= u64::MAX {
            Some(n as u64)
        } else {
            None
        },
        _ => None,
    }
}

/// Calls `serde_json::from_str` for a document of any shape. The contract names the outcome,
/// which the text alone decides: the nodes of the document, or what the error displays.
#[verifier::external_body]
pub(crate) fn parse_json(s: &str) -> (r: Result<serde_json::Value, String>)
    ensures
        match r {
            Ok(v) => json_outcome(s@) == Ok::<Map<Seq<char>, JsonNode>, Seq<char>>(json_nodes(v)),
            Err(e) => json_outcome(s@) == Err::<Map<Seq<char>, JsonNode>, Seq<char>>(e@),
        },
{
    match serde_json::from_str::<serde_json::Value>(s) {
        Ok(v) => Ok(v),
        Err(e) => Err(e.to_string()),
    }
}

/// `serde_json::Value::pointer` finds what stands at a JSON pointer, and nothing where the
/// pointer leads nowhere. Pointers into the part that it finds go on from there.
pub assume_specification<'a>[ serde_json::Value::pointer ](
    value: &'a serde_json::Value,
    pointer: &str,
) -> (r: Option<&'a serde_json::Value>)
    ensures
        match r {
            Some(part) => json_nodes(*value).contains_key(pointer@) && json_nodes(*part)
                == nodes_below(json_nodes(*value), pointer@),
            None => !json_nodes(*value).contains_key(pointer@),
        },
;

/// `serde_json::Value::as_str` gives the string that a document consists of, and nothing for a
/// document of another kind.
pub assume_specification<'a>[ serde_json::Value::as_str ](value: &'a serde_json::Value) -> (r:
    Option<&'a str>)
    ensures
        text::opt_str(r) == node_text(json_nodes(*value)[Seq::empty()]),
;

/// `serde_json::Value::as_i64` gives the integer that a document consists of, where it fits.
pub assume_specification[ serde_json::Value::as_i64 ](value: &serde_json::Value) -> (r: Option<i64>)
    ensures
        r == node_i64(json_nodes(*value)[Seq::empty()]),
;

/// `serde_json::Value::as_u64` gives the integer that a document consists of, where it fits.
pub assume_specification[ serde_json::Value::as_u64 ](value: &serde_json::Value) -> (r: Option<u64>)
    ensures
        r == node_u64(json_nodes(*value)[Seq::empty()]),
;

/// The string at `path`.
pub open spec fn text_at(nodes: Map<Seq<char>, JsonNode>, path: Seq<char>) -> Option<Seq<char>> {
    if nodes.contains_key(path) {
        node_text(nodes[path])
    } else {
        None
    }
}

/// The integer at `path`, where it fits `i32`.
pub open spec fn count_at(nodes: Map<Seq<char>, JsonNode>, path: Seq<char>) -> Option<i32> {
    if nodes.contains_key(path) {
        match nodes[path] {
            JsonNode::Integer(n) => if i32::MIN <= n <= i32::MAX {
                Some(n as i32)
            } else {
                None
            },
            _ => None,
        }
    } else {
        None
    }
}

/// Finds the string at `path`.
pub fn find_text<'a>(value: &'a serde_json::Value, path: &str) -> (r: Option<&'a str>)
    ensures
        text::opt_str(r) == text_at(json_nodes(*value), path@),
{
    match value.pointer(path) {
        Some(part) => {
            assert(path@ + Seq::<char>::empty() =~= path@);
            part.as_str()
        },
        None => None,
    }
}

/// The value as `i32`, of an integer that was read both ways.
pub fn narrow_count(signed: Option<i64>, unsigned: Option<u64>) -> (r: Option<i32>)
    ensures
        r == match (signed, unsigned) {
            (Some(n), _) if i32::MIN <= n <= i32::MAX => Some(n as i32),
            (_, Some(n)) if n <= i32::MAX => Some(n as i32),
            _ => None,
        },
{
    if let Some(n) = signed {
        if -0x8000_0000 <= n && n <= 0x7fff_ffff {
            return Some(n as i32);
        }
    }
    if let Some(n) = unsigned {
        if n <= 0x7fff_ffff {
            return Some(n as i32);
        }
    }
    None
}

/// Finds the integer at `path`, where it fits `i32`.
pub fn find_count(value: &serde_json::Value, path: &str) -> (r: Option<i32>)
    ensures
        r == count_at(json_nodes(*value), path@),
{
    match value.pointer(path) {
        Some(part) => {
            assert(path@ + Seq::<char>::empty() =~= path@);
            narrow_count(part.as_i64(), part.as_u64())
        },
        None => None,
    }
}

/// A string is found exactly where one stands, and as it stands there; an integer exactly where one
/// stands that fits.
pub proof fn what_stands_there_is_found(nodes: Map<Seq<char>, JsonNode>, path: Seq<char>)
    ensures
        !nodes.contains_key(path) ==> text_at(nodes, path) is None && count_at(nodes, path) is None,
        nodes.contains_key(path) ==> match nodes[path] {
            JsonNode::Text(s) => text_at(nodes, path) == Some(s) && count_at(nodes, path) is None
                && node_text(nodes[path]) == Some(s),
            JsonNode::Integer(n) => {
                &&& text_at(nodes, path) is None && node_text(nodes[path]) is None
                &&& -0x8000_0000 <= n <= 0x7fff_ffff ==> (count_at(nodes, path) matches Some(c)
                    && c == n)
                &&& !(-0x8000_0000 <= n <= 0x7fff_ffff) ==> count_at(nodes, path) is None
            },
            JsonNode::Other => text_at(nodes, path) is None && count_at(nodes, path) is None
                && node_text(nodes[path]) is None,
        },
{
}

/// An integer is read as a signed or an unsigned one exactly where it fits, and nothing else is.
pub proof fn integers_are_read_where_they_fit(node: JsonNode)
    ensures
        node matches JsonNode::Integer(n) ==> {
            &&& -0x8000_0000_0000_0000 <= n <= 0x7fff_ffff_ffff_ffff <==> node_i64(node) is Some
            &&& node_i64(node) matches Some(i) ==> i == n
            &&& 0 <= n <= 0xffff_ffff_ffff_ffff <==> node_u64(node) is Some
            &&& node_u64(node) matches Some(u) ==> u == n
        },
        !(node is Integer) ==> node_i64(node) is None && node_u64(node) is None,
{
}

/// What stands below a place is found from there by the rest of its pointer, which is empty or goes
/// on with a slash.
pub proof fn parts_are_found_from_their_place(
    nodes: Map<Seq<char>, JsonNode>,
    path: Seq<char>,
    rest: Seq<char>,
)
    ensures
        ({
            let below = nodes_below(nodes, path);
            &&& below.contains_key(rest) <==> nodes.contains_key(path + rest) && (rest.len() > 0
                ==> rest[0] == '/')
            &&& below.contains_key(rest) ==> below[rest] == nodes[path + rest]
        }),
        nodes.contains_key(path) ==> nodes_below(nodes, path).contains_key(Seq::empty())
            && nodes_below(nodes, path)[Seq::empty()] == nodes[path],
{
    assert(path + Seq::<char>::empty() =~= path);
}

} // verus!
