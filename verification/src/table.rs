//! The tabular printer: one recursive formatter that turns a `Value` into a
//! deterministic, column-aligned, indentation-nested block of text.
//!
//! Every scalar token is left-justified and padded with spaces to at least
//! the configured column width, never truncated. Inside a composite frame
//! (sequence, mapping or record) the first item is preceded by nothing; every
//! later item is preceded by one newline and one blank field per indentation
//! level. Entering the value side of a mapping entry or a record field is the
//! only thing that deepens the indentation by one level; sequence elements
//! stay at the depth of the sequence itself. Each frame owns its own
//! first-item flag, so an inner frame can never disturb the bookkeeping of
//! the frame around it.

use vstd::prelude::*;

use crate::value::{
    field_nodes, item_nodes, lemma_field_nodes_index, lemma_field_nodes_len,
    lemma_item_nodes_index, lemma_item_nodes_len, lemma_pair_nodes_index, lemma_pair_nodes_len,
    pair_nodes, Node, Value,
};

verus! {

/// A failure while producing a report. The renderer itself is total; this
/// is what callers that push the finished text into a fallible sink report.
pub enum Error {
    CommonError(String),
}

impl Error {
    /// The user-facing description of this error.
    pub fn message(&self) -> (r: String)
        ensures
            match self {
                Error::CommonError(m) => r@ == "Error when serializing content: "@ + m@,
            },
    {
        match self {
            Error::CommonError(m) => {
                let mut r = String::new();
                r.append("Error when serializing content: ");
                r.append(m.as_str());
                r
            },
        }
    }
}

/// `n` space characters.
pub open spec fn spaces(n: nat) -> Seq<char> {
    Seq::new(n, |i: int| ' ')
}

/// `t` left-justified in a field of at least `w` columns: padded with spaces
/// up to `w` when shorter, kept whole when longer.
pub open spec fn padded(t: Seq<char>, w: nat) -> Seq<char> {
    if w <= t.len() {
        t
    } else {
        t + spaces((w - t.len()) as nat)
    }
}

/// What stands for a missing value.
pub open spec fn empty_marker() -> Seq<char> {
    "<empty>"@
}

/// The item separator: one newline followed by one blank field of `w`
/// columns per indentation level.
pub open spec fn item_break(depth: nat, w: nat) -> Seq<char> {
    seq!['\n'] + spaces(depth * w)
}

/// The separator written before the item at position `i` of a frame:
/// nothing before the first item, `item_break` before every later one.
pub open spec fn break_before(i: int, depth: nat, w: nat) -> Seq<char> {
    if i == 0 {
        Seq::empty()
    } else {
        item_break(depth, w)
    }
}

/// The text a value renders to at column width `w` and indentation `depth`.
pub open spec fn rendered(n: Node, w: nat, depth: nat) -> Seq<char>
    decreases n, 0int,
{
    match n {
        Node::Scalar(t) => padded(t, w),
        Node::Absent => padded(empty_marker(), w),
        Node::Present(b) => rendered(*b, w, depth),
        Node::VariantName(t) => padded(t, w),
        Node::Sequence(items) => rendered_items(items, items.len() as int, w, depth),
        Node::Mapping(pairs) => rendered_pairs(pairs, pairs.len() as int, w, depth),
        Node::Record(fields) => rendered_fields(fields, fields.len() as int, w, depth),
    }
}

/// The text of the first `n` elements of a sequence frame.
pub open spec fn rendered_items(items: Seq<Node>, n: int, w: nat, depth: nat) -> Seq<char>
    decreases items, n,
{
    if n <= 0 || items.len() < n {
        Seq::empty()
    } else {
        rendered_items(items, n - 1, w, depth) + break_before(n - 1, depth, w) + rendered(
            items[n - 1],
            w,
            depth,
        )
    }
}

/// The text of one mapping entry: the key at the frame's own depth, the
/// value one level deeper.
pub open spec fn rendered_pair(p: (Node, Node), w: nat, depth: nat) -> Seq<char>
    decreases p, 0int,
{
    rendered(p.0, w, depth) + rendered(p.1, w, depth + 1)
}

/// The text of the first `n` entries of a mapping frame.
pub open spec fn rendered_pairs(pairs: Seq<(Node, Node)>, n: int, w: nat, depth: nat) -> Seq<char>
    decreases pairs, n,
{
    if n <= 0 || pairs.len() < n {
        Seq::empty()
    } else {
        rendered_pairs(pairs, n - 1, w, depth) + break_before(n - 1, depth, w) + rendered_pair(
            pairs[n - 1],
            w,
            depth,
        )
    }
}

/// The text of one record field: the field name as a padded token at the
/// frame's own depth, the value one level deeper.
pub open spec fn rendered_field(f: (Seq<char>, Node), w: nat, depth: nat) -> Seq<char>
    decreases f, 0int,
{
    padded(f.0, w) + rendered(f.1, w, depth + 1)
}

/// The text of the first `n` fields of a record frame.
pub open spec fn rendered_fields(
    fields: Seq<(Seq<char>, Node)>,
    n: int,
    w: nat,
    depth: nat,
) -> Seq<char>
    decreases fields, n,
{
    if n <= 0 || fields.len() < n {
        Seq::empty()
    } else {
        rendered_fields(fields, n - 1, w, depth) + break_before(n - 1, depth, w) + rendered_field(
            fields[n - 1],
            w,
            depth,
        )
    }
}

/// A whole named report: the label line, the rendered body, and two
/// trailing newlines.
pub open spec fn report(name: Seq<char>, n: Node, w: nat) -> Seq<char> {
    name + seq![':', '\n'] + rendered(n, w, 0) + seq!['\n', '\n']
}

/// The stateful visitor that accumulates one report.
///
/// It owns the text produced so far, the configured column width, and the
/// current indentation: the blank prefix written after each separator
/// newline grows by one `column_width`-wide field per level.
pub struct Serializer {
    out: String,
    column_width: usize,
    blanks: String,
    indentation: Ghost<nat>,
    first_in_seq: bool,
}

impl Serializer {
    /// The text produced so far.
    pub closed spec fn output(&self) -> Seq<char> {
        self.out@
    }

    /// The configured column width.
    pub closed spec fn width(&self) -> nat {
        self.column_width as nat
    }

    /// The current indentation depth.
    pub closed spec fn depth(&self) -> nat {
        self.indentation@
    }

    /// Whether the enclosing frame has not yet written its first item.
    pub closed spec fn at_first_item(&self) -> bool {
        self.first_in_seq
    }

    /// The blank prefix matches the current depth and width.
    pub closed spec fn wf(&self) -> bool {
        self.blanks@ == spaces(self.indentation@ * self.column_width as nat)
    }

    /// A fresh serializer with nothing written, at depth zero.
    pub fn new(column_width: usize) -> (s: Self)
        ensures
            s.wf(),
            s.output() =~= Seq::<char>::empty(),
            s.width() == column_width as nat,
            s.depth() == 0,
            !s.at_first_item(),
    {
        let s = Serializer {
            out: String::new(),
            column_width,
            blanks: String::new(),
            indentation: Ghost(0),
            first_in_seq: false,
        };
        proof {
            assert(s.blanks@ =~= spaces(0 * (column_width as nat)));
            assert(s.wf());
        }
        s
    }

    /// Hand the accumulated report text out.
    pub fn into_output(self) -> (r: String)
        ensures
            r@ == self.output(),
    {
        self.out
    }

    /// Write `t` left-justified, padded with spaces to at least the column
    /// width, never truncated.
    fn write_padded(&mut self, t: &str)
        requires
            old(self).wf(),
        ensures
            final(self).wf(),
            final(self).output() == old(self).output() + padded(t@, old(self).width()),
            final(self).width() == old(self).width(),
            final(self).depth() == old(self).depth(),
            final(self).at_first_item() == old(self).at_first_item(),
    {
        let ghost base = self.out@;
        self.out.append(t);
        let n = t.unicode_len();
        let mut j: usize = n;
        proof {
            assert(spaces(0) =~= Seq::<char>::empty());
            assert(base + t@ + spaces(0) =~= base + t@);
        }
        while j < self.column_width
            invariant
                n <= j,
                j <= self.column_width || j == n,
                n as nat == t@.len(),
                self.out@ == base + t@ + spaces((j - n) as nat),
                self.column_width == old(self).column_width,
                self.blanks == old(self).blanks,
                self.indentation == old(self).indentation,
                self.first_in_seq == old(self).first_in_seq,
            decreases self.column_width - j,
        {
            self.out.append(" ");
            proof {
                reveal_strlit(" ");
                assert(spaces((j - n) as nat) + " "@ =~= spaces((j + 1 - n) as nat));
                assert(base + t@ + spaces((j - n) as nat) + " "@ =~= base + t@ + spaces(
                    (j + 1 - n) as nat,
                ));
            }
            j += 1;
        }
        proof {
            assert(spaces(0) =~= Seq::<char>::empty());
            assert(self.out@ =~= base + padded(t@, old(self).width()));
        }
    }

    /// Write the item separator: a newline and one blank field per level.
    fn write_break(&mut self)
        requires
            old(self).wf(),
        ensures
            final(self).wf(),
            final(self).output() == old(self).output() + item_break(
                old(self).depth(),
                old(self).width(),
            ),
            final(self).width() == old(self).width(),
            final(self).depth() == old(self).depth(),
            final(self).at_first_item() == old(self).at_first_item(),
    {
        self.out.append("\n");
        let blanks = self.blanks.clone();
        self.out.append(blanks.as_str());
        proof {
            reveal_strlit("\n");
            assert("\n"@ =~= seq!['\n']);
            assert(old(self).out@ + "\n"@ + blanks@ =~= old(self).output() + item_break(
                old(self).depth(),
                old(self).width(),
            ));
        }
    }

    /// Write one value at the current depth: the recursive dispatch over the
    /// seven shapes. Appends exactly `rendered(value@, width, depth)`.
    #[verifier::loop_isolation(false)]
    #[verifier::rlimit(60)]
    pub fn serialize_value(&mut self, value: &Value)
        requires
            old(self).wf(),
        ensures
            final(self).wf(),
            final(self).output() == old(self).output() + rendered(
                value@,
                old(self).width(),
                old(self).depth(),
            ),
            final(self).width() == old(self).width(),
            final(self).depth() == old(self).depth(),
            final(self).at_first_item() == old(self).at_first_item(),
        decreases *value, 0int,
    {
        let ghost w = self.width();
        let ghost depth = self.depth();
        let ghost base = self.output();
        match value {
            Value::Scalar(t) => {
                self.write_padded(t.as_str());
            },
            Value::Absent => {
                self.write_padded("<empty>");
            },
            Value::Present(inner) => {
                proof {
                    assert(decreases_to!(*value => **inner));
                }
                self.serialize_value(inner);
            },
            Value::VariantName(t) => {
                self.write_padded(t.as_str());
            },
            Value::Sequence(items) => {
                let ghost nodes = item_nodes(items@, items@.len() as int);
                proof {
                    lemma_item_nodes_len(items@, items@.len() as int);
                    assert(base + rendered_items(nodes, 0, w, depth) =~= base);
                }
                let saved = self.first_in_seq;
                self.first_in_seq = true;
                let mut i: usize = 0;
                while i < items.len()
                    invariant
                        self.wf(),
                        self.width() == w,
                        self.depth() == depth,
                        i <= items@.len(),
                        nodes == item_nodes(items@, items@.len() as int),
                        nodes.len() == items@.len(),
                        self.at_first_item() <==> i == 0,
                        self.output() == base + rendered_items(nodes, i as int, w, depth),
                    decreases items@.len() - i,
                {
                    proof {
                        lemma_item_nodes_index(items@, items@.len() as int, i as int);
                        assert(decreases_to!(*value => items@));
                        assert(decreases_to!(items@ => items@[i as int]));
                    }
                    let ghost before = self.output();
                    self.serialize_item(&items[i]);
                    proof {
                        assert(self.output() =~= base + rendered_items(
                            nodes,
                            i as int + 1,
                            w,
                            depth,
                        ));
                    }
                    i += 1;
                }
                self.first_in_seq = saved;
                proof {
                    assert(base + rendered_items(nodes, items@.len() as int, w, depth) =~= base
                        + rendered(value@, w, depth));
                }
            },
            Value::Mapping(pairs) => {
                let ghost nodes = pair_nodes(pairs@, pairs@.len() as int);
                proof {
                    lemma_pair_nodes_len(pairs@, pairs@.len() as int);
                    assert(base + rendered_pairs(nodes, 0, w, depth) =~= base);
                }
                let saved = self.first_in_seq;
                self.first_in_seq = true;
                let mut i: usize = 0;
                while i < pairs.len()
                    invariant
                        self.wf(),
                        self.width() == w,
                        self.depth() == depth,
                        i <= pairs@.len(),
                        nodes == pair_nodes(pairs@, pairs@.len() as int),
                        nodes.len() == pairs@.len(),
                        self.at_first_item() <==> i == 0,
                        self.output() == base + rendered_pairs(nodes, i as int, w, depth),
                    decreases pairs@.len() - i,
                {
                    proof {
                        lemma_pair_nodes_index(pairs@, pairs@.len() as int, i as int);
                        assert(decreases_to!(*value => pairs@));
                        assert(decreases_to!(pairs@ => pairs@[i as int]));
                        assert(decreases_to!(pairs@[i as int] => pairs@[i as int].0));
                        assert(decreases_to!(pairs@[i as int] => pairs@[i as int].1));
                    }
                    let entry = &pairs[i];
                    self.serialize_item(&entry.0);
                    self.serialize_indented(&entry.1);
                    proof {
                        assert(rendered_pair(nodes[i as int], w, depth) == rendered(
                            nodes[i as int].0,
                            w,
                            depth,
                        ) + rendered(nodes[i as int].1, w, depth + 1));
                        assert(self.output() =~= base + rendered_pairs(
                            nodes,
                            i as int + 1,
                            w,
                            depth,
                        ));
                    }
                    i += 1;
                }
                self.first_in_seq = saved;
                proof {
                    assert(base + rendered_pairs(nodes, pairs@.len() as int, w, depth) =~= base
                        + rendered(value@, w, depth));
                }
            },
            Value::Record(fields) => {
                let ghost nodes = field_nodes(fields@, fields@.len() as int);
                proof {
                    lemma_field_nodes_len(fields@, fields@.len() as int);
                    assert(base + rendered_fields(nodes, 0, w, depth) =~= base);
                }
                let saved = self.first_in_seq;
                self.first_in_seq = true;
                let mut i: usize = 0;
                while i < fields.len()
                    invariant
                        self.wf(),
                        self.width() == w,
                        self.depth() == depth,
                        i <= fields@.len(),
                        nodes == field_nodes(fields@, fields@.len() as int),
                        nodes.len() == fields@.len(),
                        self.at_first_item() <==> i == 0,
                        self.output() == base + rendered_fields(nodes, i as int, w, depth),
                    decreases fields@.len() - i,
                {
                    proof {
                        lemma_field_nodes_index(fields@, fields@.len() as int, i as int);
                        assert(decreases_to!(*value => fields@));
                        assert(decreases_to!(fields@ => fields@[i as int]));
                        assert(decreases_to!(fields@[i as int] => fields@[i as int].1));
                    }
                    let field = &fields[i];
                    if self.first_in_seq {
                        self.first_in_seq = false;
                    } else {
                        self.write_break();
                    }
                    self.write_padded(field.0.as_str());
                    self.serialize_indented(&field.1);
                    proof {
                        assert(rendered_field(nodes[i as int], w, depth) == padded(
                            nodes[i as int].0,
                            w,
                        ) + rendered(nodes[i as int].1, w, depth + 1));
                        assert(self.output() =~= base + rendered_fields(
                            nodes,
                            i as int + 1,
                            w,
                            depth,
                        ));
                    }
                    i += 1;
                }
                self.first_in_seq = saved;
                proof {
                    assert(base + rendered_fields(nodes, fields@.len() as int, w, depth) =~= base
                        + rendered(value@, w, depth));
                }
            },
        }
    }

    /// Write one item of the enclosing frame: nothing before the first item,
    /// the item separator before every later one, then the value itself.
    pub fn serialize_item(&mut self, value: &Value)
        requires
            old(self).wf(),
        ensures
            final(self).wf(),
            final(self).output() == old(self).output() + (if old(self).at_first_item() {
                Seq::<char>::empty()
            } else {
                item_break(old(self).depth(), old(self).width())
            }) + rendered(value@, old(self).width(), old(self).depth()),
            final(self).width() == old(self).width(),
            final(self).depth() == old(self).depth(),
            !final(self).at_first_item(),
        decreases *value, 1int,
    {
        if self.first_in_seq {
            self.first_in_seq = false;
        } else {
            self.write_break();
        }
        self.serialize_value(value);
        proof {
            assert(self.output() =~= old(self).output() + (if old(self).at_first_item() {
                Seq::<char>::empty()
            } else {
                item_break(old(self).depth(), old(self).width())
            }) + rendered(value@, old(self).width(), old(self).depth()));
        }
    }

    /// Write one value one indentation level deeper than the current one:
    /// how the value side of a mapping entry or record field is entered.
    pub fn serialize_indented(&mut self, value: &Value)
        requires
            old(self).wf(),
        ensures
            final(self).wf(),
            final(self).output() == old(self).output() + rendered(
                value@,
                old(self).width(),
                old(self).depth() + 1,
            ),
            final(self).width() == old(self).width(),
            final(self).depth() == old(self).depth(),
            final(self).at_first_item() == old(self).at_first_item(),
        decreases *value, 1int,
    {
        let saved_blanks = self.blanks.clone();
        let ghost d = self.indentation@;
        let ghost w = self.width();
        let mut j: usize = 0;
        proof {
            assert(self.blanks@ + spaces(0) =~= self.blanks@);
        }
        while j < self.column_width
            invariant
                j <= self.column_width,
                self.blanks@ == saved_blanks@ + spaces(j as nat),
                self.out == old(self).out,
                self.column_width == old(self).column_width,
                self.indentation == old(self).indentation,
                self.first_in_seq == old(self).first_in_seq,
                saved_blanks@ == old(self).blanks@,
            decreases self.column_width - j,
        {
            self.blanks.append(" ");
            proof {
                reveal_strlit(" ");
                assert(saved_blanks@ + spaces(j as nat) + " "@ =~= saved_blanks@ + spaces(
                    (j + 1) as nat,
                ));
            }
            j += 1;
        }
        self.indentation = Ghost(d + 1);
        proof {
            assert((d + 1) * w == d * w + w) by (nonlinear_arith);
            assert(spaces(d * w) + spaces(w) =~= spaces(d * w + w));
            assert(self.blanks@ == spaces((d + 1) * w));
        }
        self.serialize_value(value);
        self.blanks = saved_blanks;
        self.indentation = Ghost(d);
    }
}

/// Render one value as a table body at the given column width: the text of
/// the depth-first traversal alone, no label and no trailing newlines.
pub fn render_to_string(value: &Value, column_width: usize) -> (r: String)
    ensures
        r@ == rendered(value@, column_width as nat, 0),
{
    let mut ser = Serializer::new(column_width);
    ser.serialize_value(value);
    proof {
        assert(ser.output() =~= rendered(value@, column_width as nat, 0));
    }
    ser.into_output()
}

/// Render one whole named report: the label line `name:`, the rendered
/// body, and two trailing newlines.
pub fn render_report(name: &str, value: &Value, column_width: usize) -> (r: String)
    ensures
        r@ == report(name@, value@, column_width as nat),
{
    let mut ser = Serializer::new(column_width);
    ser.out.append(name);
    ser.out.append(":\n");
    ser.serialize_value(value);
    ser.out.append("\n\n");
    proof {
        reveal_strlit(":\n");
        reveal_strlit("\n\n");
        assert(":\n"@ =~= seq![':', '\n']);
        assert("\n\n"@ =~= seq!['\n', '\n']);
        assert(ser.out@ =~= report(name@, value@, column_width as nat));
    }
    ser.into_output()
}

/// Padding is idempotent in width and never truncating: the padded token is
/// exactly `max(w, len(t))` characters long and begins with the token
/// itself, unmodified.
pub proof fn lemma_padding_never_truncates(t: Seq<char>, w: nat)
    ensures
        padded(t, w).len() == (if w <= t.len() {
            t.len()
        } else {
            w
        }),
        padded(t, w).subrange(0, t.len() as int) == t,
{
    assert(padded(t, w).subrange(0, t.len() as int) =~= t);
}

/// First-item rule for sequence frames: the first element is preceded by
/// nothing beyond what the frame's context already wrote, and each later
/// element is preceded by exactly one newline and `depth * w` spaces.
pub proof fn lemma_sequence_first_item_rule(items: Seq<Node>, n: int, w: nat, depth: nat)
    requires
        1 <= n <= items.len(),
    ensures
        rendered_items(items, 1, w, depth) == rendered(items[0], w, depth),
        n >= 2 ==> rendered_items(items, n, w, depth) == rendered_items(items, n - 1, w, depth)
            + seq!['\n'] + spaces(depth * w) + rendered(items[n - 1], w, depth),
{
    assert(rendered_items(items, 0, w, depth) == Seq::<char>::empty());
    assert(rendered_items(items, 1, w, depth) =~= rendered(items[0], w, depth));
    if n >= 2 {
        assert(rendered_items(items, n, w, depth) =~= rendered_items(items, n - 1, w, depth)
            + seq!['\n'] + spaces(depth * w) + rendered(items[n - 1], w, depth));
    }
}

/// First-item rule for mapping frames.
pub proof fn lemma_mapping_first_item_rule(pairs: Seq<(Node, Node)>, n: int, w: nat, depth: nat)
    requires
        1 <= n <= pairs.len(),
    ensures
        rendered_pairs(pairs, 1, w, depth) == rendered_pair(pairs[0], w, depth),
        n >= 2 ==> rendered_pairs(pairs, n, w, depth) == rendered_pairs(pairs, n - 1, w, depth)
            + seq!['\n'] + spaces(depth * w) + rendered_pair(pairs[n - 1], w, depth),
{
    assert(rendered_pairs(pairs, 0, w, depth) == Seq::<char>::empty());
    assert(rendered_pairs(pairs, 1, w, depth) =~= rendered_pair(pairs[0], w, depth));
    if n >= 2 {
        assert(rendered_pairs(pairs, n, w, depth) =~= rendered_pairs(pairs, n - 1, w, depth)
            + seq!['\n'] + spaces(depth * w) + rendered_pair(pairs[n - 1], w, depth));
    }
}

/// First-item rule for record frames.
pub proof fn lemma_record_first_item_rule(fields: Seq<(Seq<char>, Node)>, n: int, w: nat, depth: nat)
    requires
        1 <= n <= fields.len(),
    ensures
        rendered_fields(fields, 1, w, depth) == rendered_field(fields[0], w, depth),
        n >= 2 ==> rendered_fields(fields, n, w, depth) == rendered_fields(fields, n - 1, w, depth)
            + seq!['\n'] + spaces(depth * w) + rendered_field(fields[n - 1], w, depth),
{
    assert(rendered_fields(fields, 0, w, depth) == Seq::<char>::empty());
    assert(rendered_fields(fields, 1, w, depth) =~= rendered_field(fields[0], w, depth));
    if n >= 2 {
        assert(rendered_fields(fields, n, w, depth) =~= rendered_fields(fields, n - 1, w, depth)
            + seq!['\n'] + spaces(depth * w) + rendered_field(fields[n - 1], w, depth));
    }
}

/// Depth invariant: a mapping entry's value and a record field's value are
/// rendered exactly one level deeper than their key or field name, while a
/// sequence element is rendered at the depth of the sequence itself.
pub proof fn lemma_depth_invariant(
    p: (Node, Node),
    f: (Seq<char>, Node),
    items: Seq<Node>,
    i: int,
    w: nat,
    depth: nat,
)
    requires
        0 <= i < items.len(),
    ensures
        rendered_pair(p, w, depth) == rendered(p.0, w, depth) + rendered(p.1, w, depth + 1),
        rendered_field(f, w, depth) == padded(f.0, w) + rendered(f.1, w, depth + 1),
        rendered_items(items, i + 1, w, depth) == rendered_items(items, i, w, depth)
            + break_before(i, depth, w) + rendered(items[i], w, depth),
{
}

/// Transparency: a present optional value renders byte-identically to the
/// value alone, and a variant name renders byte-identically to the same
/// text as a scalar — in a body and in a whole named report.
pub proof fn lemma_transparency(n: Node, t: Seq<char>, name: Seq<char>, w: nat, depth: nat)
    ensures
        rendered(Node::Present(Box::new(n)), w, depth) == rendered(n, w, depth),
        rendered(Node::VariantName(t), w, depth) == rendered(Node::Scalar(t), w, depth),
        report(name, Node::Present(Box::new(n)), w) == report(name, n, w),
{
}

/// An empty sequence frame contributes nothing: zero item separators and
/// zero content.
pub proof fn lemma_empty_sequence(w: nat, depth: nat)
    ensures
        rendered(Node::Sequence(Seq::empty()), w, depth) == Seq::<char>::empty(),
{
    assert(rendered_items(Seq::<Node>::empty(), 0, w, depth) == Seq::<char>::empty());
}

} // verus!
