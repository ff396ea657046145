//! The closed set of shapes a printable value can take, together with its
//! mathematical model.
//!
//! Every domain object that wants to be printed presents itself as a
//! `Value`: a tree of scalars, optional markers, variant names, ordered
//! sequences, ordered key/value mappings and field-ordered records. The
//! renderer dispatches on these seven shapes alone, so no type-specific
//! formatting code exists anywhere else.

use vstd::prelude::*;

verus! {

/// The mathematical shape of a printable value: the ghost counterpart of
/// `Value`, with mathematical sequences in place of vectors and strings.
/// Contracts speak of `Node`s; executable code builds `Value`s.
pub enum Node {
    Scalar(Seq<char>),
    Absent,
    Present(Box<Node>),
    VariantName(Seq<char>),
    Sequence(Seq<Node>),
    Mapping(Seq<(Node, Node)>),
    Record(Seq<(Seq<char>, Node)>),
}

/// A printable value.
///
/// - `Scalar(text)`: an already-stringified primitive.
/// - `Absent`: a missing optional value or a unit-like marker.
/// - `Present(v)`: a non-absent optional value; renders exactly as `v`.
/// - `VariantName(text)`: the label of a tagless enumerated case.
/// - `Sequence(items)`: caller-defined order, preserved.
/// - `Mapping(pairs)`: ordered key/value pairs; never sorted here.
/// - `Record(fields)`: ordered (field name, value) pairs.
pub enum Value {
    Scalar(String),
    Absent,
    Present(Box<Value>),
    VariantName(String),
    Sequence(Vec<Value>),
    Mapping(Vec<(Value, Value)>),
    Record(Vec<(String, Value)>),
}

/// The model of a `Value`.
pub open spec fn value_node(v: Value) -> Node
    decreases v, 0int,
{
    match v {
        Value::Scalar(t) => Node::Scalar(t@),
        Value::Absent => Node::Absent,
        Value::Present(b) => Node::Present(Box::new(value_node(*b))),
        Value::VariantName(t) => Node::VariantName(t@),
        Value::Sequence(items) => Node::Sequence(item_nodes(items@, items@.len() as int)),
        Value::Mapping(pairs) => Node::Mapping(pair_nodes(pairs@, pairs@.len() as int)),
        Value::Record(fields) => Node::Record(field_nodes(fields@, fields@.len() as int)),
    }
}

/// The models of the first `n` items of a sequence of values.
pub open spec fn item_nodes(items: Seq<Value>, n: int) -> Seq<Node>
    decreases items, n,
{
    if n <= 0 || items.len() < n {
        Seq::empty()
    } else {
        item_nodes(items, n - 1).push(value_node(items[n - 1]))
    }
}

/// The model of one mapping entry.
pub open spec fn pair_node(p: (Value, Value)) -> (Node, Node)
    decreases p, 0int,
{
    (value_node(p.0), value_node(p.1))
}

/// The models of the first `n` entries of a mapping.
pub open spec fn pair_nodes(pairs: Seq<(Value, Value)>, n: int) -> Seq<(Node, Node)>
    decreases pairs, n,
{
    if n <= 0 || pairs.len() < n {
        Seq::empty()
    } else {
        pair_nodes(pairs, n - 1).push(pair_node(pairs[n - 1]))
    }
}

/// The model of one record field.
pub open spec fn field_node(f: (String, Value)) -> (Seq<char>, Node)
    decreases f, 0int,
{
    (f.0@, value_node(f.1))
}

/// The models of the first `n` fields of a record.
pub open spec fn field_nodes(fields: Seq<(String, Value)>, n: int) -> Seq<(Seq<char>, Node)>
    decreases fields, n,
{
    if n <= 0 || fields.len() < n {
        Seq::empty()
    } else {
        field_nodes(fields, n - 1).push(field_node(fields[n - 1]))
    }
}

impl View for Value {
    type V = Node;

    open spec fn view(&self) -> Node {
        value_node(*self)
    }
}

/// Each of the first `n` modelled items is the model of the matching item.
pub proof fn lemma_item_nodes_index(items: Seq<Value>, n: int, i: int)
    requires
        0 <= i < n <= items.len(),
    ensures
        item_nodes(items, n).len() == n,
        item_nodes(items, n)[i] == value_node(items[i]),
    decreases n,
{
    lemma_item_nodes_len(items, n - 1);
    if i < n - 1 {
        lemma_item_nodes_index(items, n - 1, i);
    }
}

/// The first `n` modelled items are `n` items.
pub proof fn lemma_item_nodes_len(items: Seq<Value>, n: int)
    requires
        0 <= n <= items.len(),
    ensures
        item_nodes(items, n).len() == n,
    decreases n,
{
    if n > 0 {
        lemma_item_nodes_len(items, n - 1);
    }
}

/// Each of the first `n` modelled entries is the model of the matching entry.
pub proof fn lemma_pair_nodes_index(pairs: Seq<(Value, Value)>, n: int, i: int)
    requires
        0 <= i < n <= pairs.len(),
    ensures
        pair_nodes(pairs, n).len() == n,
        pair_nodes(pairs, n)[i] == pair_node(pairs[i]),
    decreases n,
{
    lemma_pair_nodes_len(pairs, n - 1);
    if i < n - 1 {
        lemma_pair_nodes_index(pairs, n - 1, i);
    }
}

/// The first `n` modelled entries are `n` entries.
pub proof fn lemma_pair_nodes_len(pairs: Seq<(Value, Value)>, n: int)
    requires
        0 <= n <= pairs.len(),
    ensures
        pair_nodes(pairs, n).len() == n,
    decreases n,
{
    if n > 0 {
        lemma_pair_nodes_len(pairs, n - 1);
    }
}

/// Each of the first `n` modelled fields is the model of the matching field.
pub proof fn lemma_field_nodes_index(fields: Seq<(String, Value)>, n: int, i: int)
    requires
        0 <= i < n <= fields.len(),
    ensures
        field_nodes(fields, n).len() == n,
        field_nodes(fields, n)[i] == field_node(fields[i]),
    decreases n,
{
    lemma_field_nodes_len(fields, n - 1);
    if i < n - 1 {
        lemma_field_nodes_index(fields, n - 1, i);
    }
}

/// A sequence of fields whose models match a given list of named nodes,
/// one by one, models exactly that list.
pub proof fn lemma_field_nodes_matches(fields: Seq<(String, Value)>, t: Seq<(Seq<char>, Node)>)
    requires
        t.len() == fields.len(),
        forall|k: int| 0 <= k < fields.len() ==> field_node(fields[k]) == t[k],
    ensures
        field_nodes(fields, fields.len() as int) =~= t,
{
    lemma_field_nodes_len(fields, fields.len() as int);
    assert forall|k: int| 0 <= k < fields.len() implies field_nodes(
        fields,
        fields.len() as int,
    )[k] == t[k] by {
        lemma_field_nodes_index(fields, fields.len() as int, k);
    }
}

/// A sequence of items whose models match a given list of nodes, one by
/// one, models exactly that list.
pub proof fn lemma_item_nodes_matches(items: Seq<Value>, t: Seq<Node>)
    requires
        t.len() == items.len(),
        forall|k: int| 0 <= k < items.len() ==> value_node(items[k]) == t[k],
    ensures
        item_nodes(items, items.len() as int) =~= t,
{
    lemma_item_nodes_len(items, items.len() as int);
    assert forall|k: int| 0 <= k < items.len() implies item_nodes(items, items.len() as int)[k]
        == t[k] by {
        lemma_item_nodes_index(items, items.len() as int, k);
    }
}

/// A sequence of entries whose models match a given list of node pairs,
/// one by one, models exactly that list.
pub proof fn lemma_pair_nodes_matches(pairs: Seq<(Value, Value)>, t: Seq<(Node, Node)>)
    requires
        t.len() == pairs.len(),
        forall|k: int| 0 <= k < pairs.len() ==> pair_node(pairs[k]) == t[k],
    ensures
        pair_nodes(pairs, pairs.len() as int) =~= t,
{
    lemma_pair_nodes_len(pairs, pairs.len() as int);
    assert forall|k: int| 0 <= k < pairs.len() implies pair_nodes(pairs, pairs.len() as int)[k]
        == t[k] by {
        lemma_pair_nodes_index(pairs, pairs.len() as int, k);
    }
}

/// The first `n` modelled fields are `n` fields.
pub proof fn lemma_field_nodes_len(fields: Seq<(String, Value)>, n: int)
    requires
        0 <= n <= fields.len(),
    ensures
        field_nodes(fields, n).len() == n,
    decreases n,
{
    if n > 0 {
        lemma_field_nodes_len(fields, n - 1);
    }
}

} // verus!
