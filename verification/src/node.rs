//! One vertex of the serializable command graph and its wire codec. A node's
//! field layout on the wire is driven entirely by its flags byte: field
//! presence is re-derived from the flags alone, never from a sentinel value.

use vstd::prelude::*;
use vstd::string::*;
use vstd::utf8::{encode_utf8, valid_utf8};

use crate::error::DecodeError;
use crate::flags::BrigadierFlags;
use crate::parser::{Parser, SuggestionsType};
use crate::wire::{
    byte_read, decode_string, decode_varint, encode_string, encode_varint,
    lemma_string_round_trip, lemma_subrange_split, lemma_varint_round_trip, string_bytes,
    string_read, string_size, varint_bytes, varint_read, varint_size, MAX_STRING_LEN,
};

verus! {

/// A bounded node name: text whose UTF-8 form has at most `MAX_STRING_LEN`
/// bytes, encoded as a length-prefixed string.
#[derive(Clone, PartialEq, Eq, Debug)]
pub struct NodeName {
    text: String,
}

impl View for NodeName {
    type V = Seq<u8>;

    closed spec fn view(&self) -> Seq<u8> {
        encode_utf8(self.text@)
    }
}

/// Relies on `String::from_utf8`: it succeeds exactly on valid UTF-8 input,
/// returning a string whose bytes are exactly the input bytes.
#[verifier::external_body]
fn bytes_to_string(v: Vec<u8>) -> (r: Option<String>)
    ensures
        match r {
            Some(s) => encode_utf8(s@) == v@ && valid_utf8(v@),
            None => !valid_utf8(v@),
        },
{
    String::from_utf8(v).ok()
}

impl NodeName {
    /// The characters of this name.
    pub closed spec fn chars(self) -> Seq<char> {
        self.text@
    }

    /// Whether this name respects the wire bound.
    pub open spec fn wf(self) -> bool {
        self@.len() <= MAX_STRING_LEN
    }

    /// The name's bytes are the UTF-8 form of its characters, so they are
    /// always valid text.
    pub proof fn lemma_bytes_are_text(self)
        ensures
            self@ == encode_utf8(self.chars()),
            valid_utf8(self@),
    {
        broadcast use vstd::utf8::encode_utf8_valid_utf8;

    }

    /// Wraps the text `s` as a node name; `None` exactly when its UTF-8
    /// form exceeds the bound.
    pub fn new(s: &str) -> (r: Option<NodeName>)
        ensures
            match r {
                Some(n) => n@ == s.spec_bytes() && n.chars() == s@ && n.wf(),
                None => s.spec_bytes().len() > MAX_STRING_LEN,
            },
    {
        if s.as_bytes().len() <= MAX_STRING_LEN {
            Some(NodeName { text: s.to_owned() })
        } else {
            None
        }
    }

    /// Wraps raw bytes as a node name; `None` exactly when they exceed the
    /// bound or are not valid UTF-8 text.
    pub fn from_bytes(bytes: Vec<u8>) -> (r: Option<NodeName>)
        ensures
            match r {
                Some(n) => n@ == bytes@ && n.wf() && valid_utf8(bytes@),
                None => bytes@.len() > MAX_STRING_LEN || !valid_utf8(bytes@),
            },
    {
        if bytes.len() > MAX_STRING_LEN {
            return None;
        }
        match bytes_to_string(bytes) {
            Some(text) => Some(NodeName { text }),
            None => None,
        }
    }

    /// The bytes of this name.
    pub fn as_bytes(&self) -> (r: &[u8])
        ensures
            r@ == self@,
    {
        self.text.as_str().as_bytes()
    }

    /// The text of this name.
    pub fn as_str(&self) -> (r: &str)
        ensures
            r@ == self.chars(),
            r.spec_bytes() == self@,
    {
        self.text.as_str()
    }

    /// A fresh owned copy of the name's text.
    pub fn to_text(&self) -> (r: String)
        ensures
            r@ == self.chars(),
    {
        self.text.as_str().to_owned()
    }

    /// The byte length of this name.
    pub fn len(&self) -> (n: usize)
        ensures
            n == self@.len(),
    {
        self.text.as_str().as_bytes().len()
    }
}

/// The encoding of a sequence of variable-length integers, one after the
/// other.
pub open spec fn varints_bytes(s: Seq<u32>) -> Seq<u8>
    decreases s.len(),
{
    if s.len() == 0 {
        Seq::<u8>::empty()
    } else {
        varint_bytes(s[0]) + varints_bytes(s.drop_first())
    }
}

/// Reading `n` consecutive variable-length integers at `pos`.
pub open spec fn varints_read(bytes: Seq<u8>, pos: int, n: u32) -> Result<(Seq<u32>, int), DecodeError>
    decreases n,
{
    if n == 0 {
        Ok((Seq::<u32>::empty(), pos))
    } else {
        match varint_read(bytes, pos) {
            Err(e) => Err(e),
            Ok((v, p)) => match varints_read(bytes, p, (n - 1) as u32) {
                Err(e) => Err(e),
                Ok((rest, end)) => Ok((seq![v] + rest, end)),
            },
        }
    }
}

/// Appending one integer to a sequence appends its encoding to the
/// sequence's encoding.
pub proof fn lemma_varints_bytes_push(s: Seq<u32>, v: u32)
    ensures
        varints_bytes(s.push(v)) == varints_bytes(s) + varint_bytes(v),
    decreases s.len(),
{
    if s.len() == 0 {
        assert(s.push(v)[0] == v);
        assert(s.push(v).drop_first() =~= Seq::<u32>::empty());
        assert(varints_bytes(s.push(v).drop_first()) == Seq::<u8>::empty());
        assert(varints_bytes(s.push(v)) == varint_bytes(v) + Seq::<u8>::empty());
        assert(varints_bytes(s.push(v)) =~= varints_bytes(s) + varint_bytes(v));
    } else {
        assert(s.push(v)[0] == s[0]);
        assert(s.push(v).drop_first() =~= s.drop_first().push(v));
        lemma_varints_bytes_push(s.drop_first(), v);
        assert(varints_bytes(s.push(v)) == varint_bytes(s[0]) + (varints_bytes(s.drop_first())
            + varint_bytes(v)));
        assert(varints_bytes(s.push(v)) =~= varints_bytes(s) + varint_bytes(v));
    }
}

/// Decoding is a left inverse of encoding for integer sequences of known
/// count.
pub proof fn lemma_varints_round_trip(bytes: Seq<u8>, pos: int, s: Seq<u32>)
    requires
        0 <= pos,
        s.len() <= u32::MAX,
        pos + varints_bytes(s).len() <= bytes.len(),
        bytes.subrange(pos, pos + varints_bytes(s).len()) == varints_bytes(s),
    ensures
        varints_read(bytes, pos, s.len() as u32) == Ok::<(Seq<u32>, int), DecodeError>((
            s,
            pos + varints_bytes(s).len(),
        )),
    decreases s.len(),
{
    if s.len() == 0 {
        assert(s =~= Seq::<u32>::empty());
    } else {
        let head = varint_bytes(s[0]);
        let tail = varints_bytes(s.drop_first());
        lemma_subrange_split(bytes, pos, head, tail);
        lemma_varint_round_trip(bytes, pos, s[0]);
        lemma_varints_round_trip(bytes, pos + head.len(), s.drop_first());
        assert(seq![s[0]] + s.drop_first() =~= s);
    }
}

/// Appends the encodings of all integers in `vals`, in order.
pub fn encode_varints(vals: &Vec<u32>, out: &mut Vec<u8>)
    ensures
        final(out)@ == old(out)@ + varints_bytes(vals@),
{
    let ghost prev = out@;
    let n = vals.len();
    let mut i: usize = 0;
    while i < n
        invariant
            i <= n,
            n == vals@.len(),
            out@ == prev + varints_bytes(vals@.take(i as int)),
        decreases n - i,
    {
        encode_varint(vals[i], out);
        proof {
            lemma_varints_bytes_push(vals@.take(i as int), vals@[i as int]);
            assert(vals@.take(i + 1 as int) =~= vals@.take(i as int).push(vals@[i as int]));
            assert(prev + varints_bytes(vals@.take(i as int)) + varint_bytes(vals@[i as int])
                =~= prev + (varints_bytes(vals@.take(i as int)) + varint_bytes(vals@[i as int])));
        }
        i = i + 1;
    }
    assert(vals@.take(n as int) =~= vals@);
}

/// The total byte length of the encodings of all integers in `vals`.
pub fn varints_size(vals: &Vec<u32>) -> (r: u64)
    requires
        vals@.len() <= u32::MAX,
    ensures
        r == varints_bytes(vals@).len(),
        r <= 5 * vals@.len(),
{
    let n = vals.len();
    let mut i: usize = 0;
    let mut total: u64 = 0;
    while i < n
        invariant
            i <= n,
            n == vals@.len() <= u32::MAX,
            total == varints_bytes(vals@.take(i as int)).len(),
            total <= 5 * i,
        decreases n - i,
    {
        let s = varint_size(vals[i]);
        proof {
            lemma_varints_bytes_push(vals@.take(i as int), vals@[i as int]);
            assert(vals@.take(i + 1 as int) =~= vals@.take(i as int).push(vals@[i as int]));
        }
        total = total + s;
        i = i + 1;
    }
    assert(vals@.take(n as int) =~= vals@);
    total
}

/// Reads `n` consecutive variable-length integers at `pos`, as
/// `varints_read` describes.
pub fn decode_varints(bytes: &[u8], pos: usize, n: u32) -> (r: Result<(Vec<u32>, usize), DecodeError>)
    ensures
        match r {
            Ok((vals, end)) => varints_read(bytes@, pos as int, n) == Ok::<
                (Seq<u32>, int),
                DecodeError,
            >((vals@, end as int)) && vals@.len() == n,
            Err(e) => varints_read(bytes@, pos as int, n) == Err::<(Seq<u32>, int), DecodeError>(
                e,
            ),
        },
{
    let mut vals: Vec<u32> = Vec::new();
    let mut cur: usize = pos;
    let mut i: u32 = 0;
    while i < n
        invariant
            i <= n,
            vals@.len() == i,
            varints_read(bytes@, pos as int, n) == (match varints_read(
                bytes@,
                cur as int,
                (n - i) as u32,
            ) {
                Err(e) => Err::<(Seq<u32>, int), DecodeError>(e),
                Ok((rest, end)) => Ok::<(Seq<u32>, int), DecodeError>((vals@ + rest, end)),
            }),
        decreases n - i,
    {
        match decode_varint(bytes, cur) {
            Err(e) => {
                return Err(e);
            },
            Ok((v, p)) => {
                proof {
                    let ghost tail = varints_read(bytes@, p as int, (n - i - 1) as u32);
                    if tail is Ok {
                        let (rest, end) = tail->Ok_0;
                        assert(vals@ + (seq![v] + rest) =~= vals@.push(v) + rest);
                    }
                }
                vals.push(v);
                cur = p;
                i = i + 1;
            },
        }
    }
    assert(varints_read(bytes@, cur as int, 0) == Ok::<(Seq<u32>, int), DecodeError>((
        Seq::<u32>::empty(),
        cur as int,
    )));
    assert(vals@ + Seq::<u32>::empty() =~= vals@);
    Ok((vals, cur))
}

/// The mathematical content of a `Node`: what its fields hold, with
/// sequences in place of vectors.
pub struct NodeView {
    pub flags: BrigadierFlags,
    pub count: u32,
    pub children: Seq<u32>,
    pub redirect_node: Option<u32>,
    pub name: Option<Seq<u8>>,
    pub parser: Option<Parser>,
    pub suggestions_type: Option<SuggestionsType>,
}

impl NodeView {
    /// Whether the node is internally consistent: the stored child count
    /// matches the child list, and each optional field is present exactly
    /// when its flag bit says so.
    pub open spec fn wf(self) -> bool {
        &&& self.count == self.children.len()
        &&& (self.redirect_node is Some <==> self.flags.has_redirect)
        &&& (self.name is Some <==> !self.flags.spec_is_root())
        &&& (self.parser is Some <==> self.flags.node_argument)
        &&& (self.suggestions_type is Some <==> self.flags.has_suggestions_type)
        &&& (match self.name {
            Some(nm) => nm.len() <= MAX_STRING_LEN && valid_utf8(nm),
            None => true,
        })
        &&& (match self.parser {
            Some(p) => p.wf(),
            None => true,
        })
    }

    /// The bytes every node starts with: its flags byte, then the child
    /// count and the child indices.
    pub open spec fn head_bytes(self) -> Seq<u8> {
        seq![self.flags.spec_byte()] + varint_bytes(self.count) + varints_bytes(self.children)
    }

    /// The optional fields the flags gate, in layout order: redirect index,
    /// name, parser, suggestions type.
    pub open spec fn tail_bytes(self) -> Seq<u8> {
        (match self.redirect_node {
            Some(r) => varint_bytes(r),
            None => Seq::<u8>::empty(),
        }) + (match self.name {
            Some(nm) => string_bytes(nm),
            None => Seq::<u8>::empty(),
        }) + (match self.parser {
            Some(p) => p.spec_enc(),
            None => Seq::<u8>::empty(),
        }) + (match self.suggestions_type {
            Some(s) => s.spec_enc(),
            None => Seq::<u8>::empty(),
        })
    }

    /// The wire encoding of this node: flags byte, child count and child
    /// indices, then each optional field its flags call for, in layout
    /// order.
    pub open spec fn spec_enc(self) -> Seq<u8> {
        self.head_bytes() + self.tail_bytes()
    }
}

/// Reading the optional redirect index and every later field of a node.
pub open spec fn node_read_redirect(
    bytes: Seq<u8>,
    flags: BrigadierFlags,
    count: u32,
    children: Seq<u32>,
    p: int,
) -> Result<(NodeView, int), DecodeError> {
    if flags.has_redirect {
        match varint_read(bytes, p) {
            Err(e) => Err(e),
            Ok((r, p2)) => node_read_name(bytes, flags, count, children, Some(r), p2),
        }
    } else {
        node_read_name(bytes, flags, count, children, None, p)
    }
}

/// Reading the optional name and every later field of a node.
pub open spec fn node_read_name(
    bytes: Seq<u8>,
    flags: BrigadierFlags,
    count: u32,
    children: Seq<u32>,
    redirect_node: Option<u32>,
    p: int,
) -> Result<(NodeView, int), DecodeError> {
    if !flags.spec_is_root() {
        match string_read(bytes, p) {
            Err(e) => Err(e),
            Ok((nm, p2)) => {
                if valid_utf8(nm) {
                    node_read_parser(bytes, flags, count, children, redirect_node, Some(nm), p2)
                } else {
                    Err(DecodeError::InvalidText)
                }
            },
        }
    } else {
        node_read_parser(bytes, flags, count, children, redirect_node, None, p)
    }
}

/// Reading the optional parser and every later field of a node.
pub open spec fn node_read_parser(
    bytes: Seq<u8>,
    flags: BrigadierFlags,
    count: u32,
    children: Seq<u32>,
    redirect_node: Option<u32>,
    name: Option<Seq<u8>>,
    p: int,
) -> Result<(NodeView, int), DecodeError> {
    if flags.node_argument {
        match Parser::spec_read(bytes, p) {
            Err(e) => Err(e),
            Ok((pr, p2)) => node_read_suggestions(
                bytes,
                flags,
                count,
                children,
                redirect_node,
                name,
                Some(pr),
                p2,
            ),
        }
    } else {
        node_read_suggestions(bytes, flags, count, children, redirect_node, name, None, p)
    }
}

/// Reading the optional suggestions type, finishing a node.
pub open spec fn node_read_suggestions(
    bytes: Seq<u8>,
    flags: BrigadierFlags,
    count: u32,
    children: Seq<u32>,
    redirect_node: Option<u32>,
    name: Option<Seq<u8>>,
    parser: Option<Parser>,
    p: int,
) -> Result<(NodeView, int), DecodeError> {
    if flags.has_suggestions_type {
        match SuggestionsType::spec_read(bytes, p) {
            Err(e) => Err(e),
            Ok((s, p2)) => Ok(
                (
                    NodeView {
                        flags,
                        count,
                        children,
                        redirect_node,
                        name,
                        parser,
                        suggestions_type: Some(s),
                    },
                    p2,
                ),
            ),
        }
    } else {
        Ok(
            (
                NodeView {
                    flags,
                    count,
                    children,
                    redirect_node,
                    name,
                    parser,
                    suggestions_type: None,
                },
                p,
            ),
        )
    }
}

/// Reading a whole node at `pos`: the flags byte first, then exactly the
/// fields the flags call for. A field whose presence bit is unset never
/// consumes bytes.
pub open spec fn node_read(bytes: Seq<u8>, pos: int) -> Result<(NodeView, int), DecodeError> {
    match byte_read(bytes, pos) {
        Err(e) => Err(e),
        Ok((fb, p1)) => {
            let flags = BrigadierFlags::spec_from_byte(fb);
            match varint_read(bytes, p1) {
                Err(e) => Err(e),
                Ok((count, p2)) => match varints_read(bytes, p2, count) {
                    Err(e) => Err(e),
                    Ok((children, p3)) => node_read_redirect(bytes, flags, count, children, p3),
                },
            }
        },
    }
}

/// One vertex of the serializable command graph: flags, child indices, and
/// the optional fields the flags gate. Immutable once built; owned by the
/// flat array the builder returns.
#[derive(PartialEq, Eq, Debug)]
pub struct Node {
    pub flags: BrigadierFlags,
    pub children: (u32, Vec<u32>),
    pub redirect_node: Option<u32>,
    pub name: Option<NodeName>,
    pub parser: Option<Parser>,
    pub suggestions_type: Option<SuggestionsType>,
}

impl View for Node {
    type V = NodeView;

    open spec fn view(&self) -> NodeView {
        NodeView {
            flags: self.flags,
            count: self.children.0,
            children: self.children.1@,
            redirect_node: self.redirect_node,
            name: match self.name {
                Some(nm) => Some(nm@),
                None => None,
            },
            parser: self.parser,
            suggestions_type: self.suggestions_type,
        }
    }
}

impl Node {
    /// Whether this node is internally consistent, as `NodeView::wf` says.
    pub open spec fn wf(self) -> bool {
        self@.wf()
    }

    pub fn new(
        flags: BrigadierFlags,
        children: (u32, Vec<u32>),
        redirect_node: Option<u32>,
        name: Option<NodeName>,
        parser: Option<Parser>,
        suggestions_type: Option<SuggestionsType>,
    ) -> (r: Node)
        ensures
            r == (Node { flags, children, redirect_node, name, parser, suggestions_type }),
    {
        Node { flags, children, redirect_node, name, parser, suggestions_type }
    }

    /// Appends the wire encoding of this node.
    pub fn encode(&self, out: &mut Vec<u8>)
        requires
            self.wf(),
        ensures
            final(out)@ == old(out)@ + self@.spec_enc(),
    {
        let ghost prev = out@;
        let ghost rb = (match self@.redirect_node {
            Some(r) => varint_bytes(r),
            None => Seq::<u8>::empty(),
        });
        let ghost nb = (match self@.name {
            Some(nm) => string_bytes(nm),
            None => Seq::<u8>::empty(),
        });
        let ghost pb = (match self@.parser {
            Some(p) => p.spec_enc(),
            None => Seq::<u8>::empty(),
        });
        let ghost sb = (match self@.suggestions_type {
            Some(st) => st.spec_enc(),
            None => Seq::<u8>::empty(),
        });
        self.flags.encode(out);
        encode_varint(self.children.0, out);
        encode_varints(&self.children.1, out);
        assert(out@ =~= prev + self@.head_bytes());
        let ghost h0 = out@;
        match &self.redirect_node {
            Some(r) => encode_varint(*r, out),
            None => {},
        }
        assert(out@ =~= h0 + rb);
        let ghost h1 = out@;
        match &self.name {
            Some(nm) => encode_string(nm.as_bytes(), out),
            None => {},
        }
        assert(out@ =~= h1 + nb);
        let ghost h2 = out@;
        match &self.parser {
            Some(p) => p.encode(out),
            None => {},
        }
        assert(out@ =~= h2 + pb);
        let ghost h3 = out@;
        match &self.suggestions_type {
            Some(st) => st.encode(out),
            None => {},
        }
        assert(out@ =~= h3 + sb);
        assert(out@ =~= prev + self@.spec_enc());
    }

    /// The byte length of the wire encoding of this node.
    pub fn size(&self) -> (n: u64)
        requires
            self.wf(),
        ensures
            n == self@.spec_enc().len(),
    {
        proof {
            assert(self@.children.len() < 0x100000000);
        }
        let mut n: u64 = 1;
        n = n + varint_size(self.children.0);
        n = n + varints_size(&self.children.1);
        assert(n <= 6 + 5 * 0xffffffffu64);
        match &self.redirect_node {
            Some(r) => {
                n = n + varint_size(*r);
            },
            None => {},
        }
        match &self.name {
            Some(nm) => {
                n = n + string_size(nm.len());
            },
            None => {},
        }
        match &self.parser {
            Some(p) => {
                n = n + p.size();
            },
            None => {},
        }
        match &self.suggestions_type {
            Some(s) => {
                n = n + s.size();
            },
            None => {},
        }
        n
    }

    /// Reads a node at `pos`, as `node_read` describes. Whatever comes back
    /// is well formed.
    pub fn decode(bytes: &[u8], pos: usize) -> (r: Result<(Node, usize), DecodeError>)
        ensures
            match r {
                Ok((node, end)) => node_read(bytes@, pos as int) == Ok::<
                    (NodeView, int),
                    DecodeError,
                >((node@, end as int)) && node.wf(),
                Err(e) => node_read(bytes@, pos as int) == Err::<(NodeView, int), DecodeError>(e),
            },
    {
        let (fb, p1) = match crate::wire::decode_byte(bytes, pos) {
            Ok(v) => v,
            Err(e) => {
                return Err(e);
            },
        };
        let flags = BrigadierFlags::from_byte(fb);
        let (count, p2) = match decode_varint(bytes, p1) {
            Ok(v) => v,
            Err(e) => {
                return Err(e);
            },
        };
        let (children, p3) = match decode_varints(bytes, p2, count) {
            Ok(v) => v,
            Err(e) => {
                return Err(e);
            },
        };
        let (redirect_node, p4) = if flags.has_redirect {
            match decode_varint(bytes, p3) {
                Ok((r, p)) => (Some(r), p),
                Err(e) => {
                    return Err(e);
                },
            }
        } else {
            (None, p3)
        };
        let (name, p5) = if !flags.is_root() {
            match decode_string(bytes, p4) {
                Ok((nm, p)) => {
                    match bytes_to_string(nm) {
                        Some(text) => (Some(NodeName { text }), p),
                        None => {
                            return Err(DecodeError::InvalidText);
                        },
                    }
                },
                Err(e) => {
                    return Err(e);
                },
            }
        } else {
            (None, p4)
        };
        let (parser, p6) = if flags.is_argument() {
            match Parser::decode(bytes, p5) {
                Ok((pr, p)) => (Some(pr), p),
                Err(e) => {
                    return Err(e);
                },
            }
        } else {
            (None, p5)
        };
        let (suggestions_type, p7) = if flags.has_suggestions_type {
            match SuggestionsType::decode(bytes, p6) {
                Ok((s, p)) => (Some(s), p),
                Err(e) => {
                    return Err(e);
                },
            }
        } else {
            (None, p6)
        };
        Ok((Node { flags, children: (count, children), redirect_node, name, parser, suggestions_type }, p7))
    }
}

/// Reading the gated tail fields inverts encoding them, for a well-formed
/// node whose head has already been read.
#[verifier::rlimit(100)]
proof fn lemma_node_tail_round_trip(bytes: Seq<u8>, p3: int, v: NodeView)
    requires
        0 <= p3,
        v.wf(),
        p3 + v.tail_bytes().len() <= bytes.len(),
        bytes.subrange(p3, p3 + v.tail_bytes().len()) == v.tail_bytes(),
    ensures
        node_read_redirect(bytes, v.flags, v.count, v.children, p3) == Ok::<
            (NodeView, int),
            DecodeError,
        >((v, p3 + v.tail_bytes().len())),
{
    let rb = match v.redirect_node {
        Some(r) => varint_bytes(r),
        None => Seq::<u8>::empty(),
    };
    let nb = match v.name {
        Some(nm) => string_bytes(nm),
        None => Seq::<u8>::empty(),
    };
    let pb = match v.parser {
        Some(p) => p.spec_enc(),
        None => Seq::<u8>::empty(),
    };
    let sb = match v.suggestions_type {
        Some(s) => s.spec_enc(),
        None => Seq::<u8>::empty(),
    };
    lemma_subrange_split(bytes, p3, rb + nb + pb, sb);
    lemma_subrange_split(bytes, p3, rb + nb, pb);
    lemma_subrange_split(bytes, p3, rb, nb);
    match v.redirect_node {
        Some(r) => lemma_varint_round_trip(bytes, p3, r),
        None => {},
    }
    let p4 = p3 + rb.len();
    match v.name {
        Some(nm) => lemma_string_round_trip(bytes, p4, nm),
        None => {},
    }
    let p5 = p4 + nb.len();
    match v.parser {
        Some(p) => crate::parser::lemma_parser_round_trip(bytes, p5, p),
        None => {},
    }
    let p6 = p5 + pb.len();
    match v.suggestions_type {
        Some(s) => SuggestionsType::lemma_round_trip(bytes, p6, s),
        None => {},
    }
}

/// Decoding inverts encoding for every well-formed node: wherever an encoded
/// node sits inside a larger buffer, reading at its start yields a node with
/// the same field presence pattern and values, stopping exactly at its end.
pub proof fn lemma_node_round_trip(bytes: Seq<u8>, pos: int, v: NodeView)
    requires
        0 <= pos,
        v.wf(),
        pos + v.spec_enc().len() <= bytes.len(),
        bytes.subrange(pos, pos + v.spec_enc().len()) == v.spec_enc(),
    ensures
        node_read(bytes, pos) == Ok::<(NodeView, int), DecodeError>((v, pos + v.spec_enc().len())),
{
    let fb = seq![v.flags.spec_byte()];
    let cb = varint_bytes(v.count);
    let kb = varints_bytes(v.children);
    lemma_subrange_split(bytes, pos, v.head_bytes(), v.tail_bytes());
    lemma_subrange_split(bytes, pos, fb + cb, kb);
    lemma_subrange_split(bytes, pos, fb, cb);
    assert(bytes[pos] == v.flags.spec_byte()) by {
        assert(bytes.subrange(pos, pos + 1)[0] == fb[0]);
    }
    BrigadierFlags::lemma_round_trip(v.flags);
    let p1 = pos + 1;
    lemma_varint_round_trip(bytes, p1, v.count);
    let p2 = p1 + cb.len();
    lemma_varints_round_trip(bytes, p2, v.children);
    let p3 = p2 + kb.len();
    lemma_node_tail_round_trip(bytes, p3, v);
}

} // verus!
