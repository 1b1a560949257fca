//! The view layer: a closed set of view-tree node variants, a renderer
//! that turns a tree into an HTML string with text and attribute values
//! escaped, and the minification step the rendered page goes through
//! before it is served.

use vstd::prelude::*;

verus! {

/// One node of a view tree: literal text, an element with attributes
/// and children, or a bare sequence of nodes.
pub enum Node {
    Text(String),
    Element { tag: String, attrs: Vec<(String, String)>, children: Vec<Node> },
    Fragment(Vec<Node>),
}

/// How one character renders inside text or a quoted attribute value.
pub open spec fn escape_char(c: char) -> Seq<char> {
    if c == '&' {
        "&amp;"@
    } else if c == '<' {
        "&lt;"@
    } else if c == '>' {
        "&gt;"@
    } else if c == '"' {
        "&quot;"@
    } else {
        seq![c]
    }
}

/// How a string renders inside text or a quoted attribute value.
pub open spec fn escape_seq(s: Seq<char>) -> Seq<char>
    decreases s.len(),
{
    if s.len() == 0 {
        Seq::empty()
    } else {
        escape_char(s[0]) + escape_seq(s.drop_first())
    }
}

/// How one attribute renders: ` name="value"`, with the value escaped.
pub open spec fn attr_text(name: Seq<char>, value: Seq<char>) -> Seq<char> {
    " "@ + name + "=\""@ + escape_seq(value) + "\""@
}

/// How a list of attributes renders: each in order.
pub open spec fn attrs_text(attrs: Seq<(String, String)>) -> Seq<char>
    decreases attrs.len(),
{
    if attrs.len() == 0 {
        Seq::empty()
    } else {
        attr_text(attrs[0].0@, attrs[0].1@) + attrs_text(attrs.drop_first())
    }
}

/// How an element with already-rendered attributes and inner content
/// renders.
pub open spec fn elem_text(tag: Seq<char>, attrs: Seq<char>, inner: Seq<char>) -> Seq<char> {
    "<"@ + tag + attrs + ">"@ + inner + "</"@ + tag + ">"@
}

/// An element without attributes.
pub open spec fn elem_plain(tag: Seq<char>, inner: Seq<char>) -> Seq<char> {
    elem_text(tag, Seq::<char>::empty(), inner)
}

/// How one node renders to HTML.
pub open spec fn render_spec(n: Node) -> Seq<char>
    decreases n,
{
    match n {
        Node::Text(t) => escape_seq(t@),
        Node::Element { tag, attrs, children } => elem_text(
            tag@,
            attrs_text(attrs@),
            render_nodes(children@),
        ),
        Node::Fragment(children) => render_nodes(children@),
    }
}

/// How a sequence of nodes renders: each in order.
pub open spec fn render_nodes(ns: Seq<Node>) -> Seq<char>
    decreases ns,
{
    if ns.len() == 0 {
        Seq::empty()
    } else {
        render_spec(ns[0]) + render_nodes(ns.drop_first())
    }
}

proof fn lemma_escape_seq_push(t: Seq<char>, c: char)
    ensures
        escape_seq(t.push(c)) == escape_seq(t) + escape_char(c),
    decreases t.len(),
{
    if t.len() == 0 {
        assert(t.push(c)[0] == c);
        assert(t.push(c).drop_first() =~= t);
        assert(escape_char(c) + escape_seq(t) =~= escape_char(c));
    } else {
        lemma_escape_seq_push(t.drop_first(), c);
        assert(t.push(c).drop_first() =~= t.drop_first().push(c));
        assert(t.push(c)[0] == t[0]);
        assert(escape_char(t[0]) + (escape_seq(t.drop_first()) + escape_char(c)) =~= (escape_char(
            t[0],
        ) + escape_seq(t.drop_first())) + escape_char(c));
    }
}

proof fn lemma_attrs_text_push(t: Seq<(String, String)>, a: (String, String))
    ensures
        attrs_text(t.push(a)) == attrs_text(t) + attr_text(a.0@, a.1@),
    decreases t.len(),
{
    if t.len() == 0 {
        assert(t.push(a)[0] == a);
        assert(t.push(a).drop_first() =~= t);
        assert(attr_text(a.0@, a.1@) + attrs_text(t) =~= Seq::<char>::empty() + attr_text(
            a.0@,
            a.1@,
        ));
    } else {
        lemma_attrs_text_push(t.drop_first(), a);
        assert(t.push(a).drop_first() =~= t.drop_first().push(a));
        assert(t.push(a)[0] == t[0]);
        assert(attr_text(t[0].0@, t[0].1@) + (attrs_text(t.drop_first()) + attr_text(a.0@, a.1@))
            =~= (attr_text(t[0].0@, t[0].1@) + attrs_text(t.drop_first())) + attr_text(a.0@, a.1@));
    }
}

pub proof fn lemma_render_nodes_push(t: Seq<Node>, n: Node)
    ensures
        render_nodes(t.push(n)) == render_nodes(t) + render_spec(n),
    decreases t.len(),
{
    if t.len() == 0 {
        assert(t.push(n)[0] == n);
        assert(t.push(n).drop_first() =~= t);
        assert(render_spec(n) + render_nodes(t) =~= render_spec(n));
    } else {
        lemma_render_nodes_push(t.drop_first(), n);
        assert(t.push(n).drop_first() =~= t.drop_first().push(n));
        assert(t.push(n)[0] == t[0]);
        assert(render_spec(t[0]) + (render_nodes(t.drop_first()) + render_spec(n)) =~= (render_spec(
            t[0],
        ) + render_nodes(t.drop_first())) + render_spec(n));
    }
}

/// Relies on `String::push`: appends one character to the string.
#[verifier::external_body]
fn push_char(s: &mut String, c: char)
    ensures
        final(s)@ == old(s)@ + seq![c],
{
    s.push(c);
}

/// Appends the escaped form of `t` to `out`.
fn escape_into(t: &str, out: &mut String)
    ensures
        final(out)@ == old(out)@ + escape_seq(t@),
{
    let len = t.unicode_len();
    let ghost start = out@;
    let mut i: usize = 0;
    while i < len
        invariant
            len == t@.len(),
            i <= len,
            out@ == start + escape_seq(t@.subrange(0, i as int)),
        decreases len - i,
    {
        let c = t.get_char(i);
        if c == '&' {
            out.append("&amp;");
        } else if c == '<' {
            out.append("&lt;");
        } else if c == '>' {
            out.append("&gt;");
        } else if c == '"' {
            out.append("&quot;");
        } else {
            push_char(out, c);
        }
        proof {
            lemma_escape_seq_push(t@.subrange(0, i as int), t@[i as int]);
            assert(t@.subrange(0, i + 1) =~= t@.subrange(0, i as int).push(t@[i as int]));
            assert(out@ =~= start + escape_seq(t@.subrange(0, i + 1)));
        }
        i += 1;
    }
    proof {
        assert(t@.subrange(0, len as int) =~= t@);
    }
}

/// Appends the rendered attribute list to `out`.
fn attrs_into(attrs: &Vec<(String, String)>, out: &mut String)
    ensures
        final(out)@ == old(out)@ + attrs_text(attrs@),
{
    let ghost start = out@;
    let mut i: usize = 0;
    while i < attrs.len()
        invariant
            i <= attrs@.len(),
            out@ == start + attrs_text(attrs@.subrange(0, i as int)),
        decreases attrs@.len() - i,
    {
        out.append(" ");
        out.append(attrs[i].0.as_str());
        out.append("=\"");
        escape_into(attrs[i].1.as_str(), out);
        out.append("\"");
        proof {
            lemma_attrs_text_push(attrs@.subrange(0, i as int), attrs@[i as int]);
            assert(attrs@.subrange(0, i + 1) =~= attrs@.subrange(0, i as int).push(
                attrs@[i as int],
            ));
            assert(out@ =~= start + attrs_text(attrs@.subrange(0, i + 1)));
        }
        i += 1;
    }
    proof {
        assert(attrs@.subrange(0, attrs@.len() as int) =~= attrs@);
    }
}

/// Appends the rendered form of `n` to `out`.
#[verifier::loop_isolation(false)]
fn render_into(n: &Node, out: &mut String)
    ensures
        final(out)@ == old(out)@ + render_spec(*n),
    decreases *n,
{
    match n {
        Node::Text(t) => {
            escape_into(t.as_str(), out);
        },
        Node::Element { tag, attrs, children } => {
            out.append("<");
            out.append(tag.as_str());
            attrs_into(attrs, out);
            out.append(">");
            let ghost mid = out@;
            let mut i: usize = 0;
            while i < children.len()
                invariant
                    i <= children@.len(),
                    out@ == mid + render_nodes(children@.subrange(0, i as int)),
                decreases children@.len() - i,
            {
                proof {
                    broadcast use vstd::std_specs::vec::group_vec_axioms;

                    assert((*n)->Element_children == *children);
                    assert(decreases_to!(*n => (*n)->Element_children));
                    assert(decreases_to!(*children => children[i as int]));
                }
                render_into(&children[i], out);
                proof {
                    lemma_render_nodes_push(children@.subrange(0, i as int), children@[i as int]);
                    assert(children@.subrange(0, i + 1) =~= children@.subrange(0, i as int).push(
                        children@[i as int],
                    ));
                    assert(out@ =~= mid + render_nodes(children@.subrange(0, i + 1)));
                }
                i += 1;
            }
            proof {
                assert(children@.subrange(0, children@.len() as int) =~= children@);
            }
            out.append("</");
            out.append(tag.as_str());
            out.append(">");
            proof {
                assert(out@ =~= old(out)@ + render_spec(*n));
            }
        },
        Node::Fragment(children) => {
            let ghost mid = out@;
            let mut i: usize = 0;
            while i < children.len()
                invariant
                    i <= children@.len(),
                    out@ == mid + render_nodes(children@.subrange(0, i as int)),
                decreases children@.len() - i,
            {
                proof {
                    broadcast use vstd::std_specs::vec::group_vec_axioms;

                    assert((*n)->Fragment_0 == *children);
                    assert(decreases_to!(*n => (*n)->Fragment_0));
                    assert(decreases_to!(*children => children[i as int]));
                }
                render_into(&children[i], out);
                proof {
                    lemma_render_nodes_push(children@.subrange(0, i as int), children@[i as int]);
                    assert(children@.subrange(0, i + 1) =~= children@.subrange(0, i as int).push(
                        children@[i as int],
                    ));
                    assert(out@ =~= mid + render_nodes(children@.subrange(0, i + 1)));
                }
                i += 1;
            }
            proof {
                assert(children@.subrange(0, children@.len() as int) =~= children@);
                assert(out@ =~= old(out)@ + render_spec(*n));
            }
        },
    }
}

/// Renders a view tree to its HTML string.
pub fn render(n: &Node) -> (r: String)
    ensures
        r@ == render_spec(*n),
{
    let mut out = String::new();
    render_into(n, &mut out);
    proof {
        assert(out@ =~= render_spec(*n));
    }
    out
}

/// The minified form of an HTML string: what `minify_html::minify`
/// with the default configuration produces, decoded back from UTF-8
/// (lossily, though the minifier keeps valid UTF-8 valid).  A function
/// of the input alone.
pub uninterp spec fn minified_of(s: Seq<char>) -> Seq<char>;

/// Relies on `minify_html::minify` with the default configuration
/// (comments stripped, insignificant whitespace collapsed): the result
/// depends on the input bytes alone, so equal inputs give equal
/// results, in every process and on every machine.
#[verifier::external_body]
fn minify_trusted(s: &str) -> (r: String)
    ensures
        r@ == minified_of(s@),
{
    String::from_utf8_lossy(&minify_html::minify(s.as_bytes(), &minify_html::Cfg::new()))
        .into_owned()
}

/// Minifies an HTML string with the minifier's default configuration.
pub fn minify_html(html: String) -> (r: String)
    ensures
        r@ == minified_of(html@),
{
    minify_trusted(html.as_str())
}

/// Renders a view tree to an HTML string and minifies it.
pub fn htmlify(tree: &Node) -> (r: String)
    ensures
        r@ == minified_of(render_spec(*tree)),
{
    let ssr = render(tree);
    minify_html(ssr)
}


/// Rendering a concatenation of node lists concatenates the renderings.
pub proof fn lemma_render_nodes_concat(s: Seq<Node>, t: Seq<Node>)
    ensures
        render_nodes(s + t) == render_nodes(s) + render_nodes(t),
    decreases s.len(),
{
    if s.len() == 0 {
        assert(s + t =~= t);
        assert(Seq::<char>::empty() + render_nodes(t) =~= render_nodes(t));
    } else {
        lemma_render_nodes_concat(s.drop_first(), t);
        assert((s + t).drop_first() =~= s.drop_first() + t);
        assert((s + t)[0] == s[0]);
        assert(render_spec(s[0]) + (render_nodes(s.drop_first()) + render_nodes(t)) =~= (
        render_spec(s[0]) + render_nodes(s.drop_first())) + render_nodes(t));
    }
}

/// A single node renders as itself.
pub proof fn lemma_render_nodes_singleton(n: Node)
    ensures
        render_nodes(seq![n]) == render_spec(n),
{
    assert(seq![n][0] == n);
    assert(seq![n].drop_first() =~= Seq::<Node>::empty());
    assert(render_nodes(Seq::<Node>::empty()) == Seq::<char>::empty());
    assert(render_nodes(seq![n]) == render_spec(n) + Seq::<char>::empty());
    assert(render_spec(n) + Seq::<char>::empty() =~= render_spec(n));
}

/// Rendering a concatenation of attribute lists concatenates the
/// renderings.
pub proof fn lemma_attrs_text_concat(s: Seq<(String, String)>, t: Seq<(String, String)>)
    ensures
        attrs_text(s + t) == attrs_text(s) + attrs_text(t),
    decreases s.len(),
{
    if s.len() == 0 {
        assert(s + t =~= t);
        assert(Seq::<char>::empty() + attrs_text(t) =~= attrs_text(t));
    } else {
        lemma_attrs_text_concat(s.drop_first(), t);
        assert((s + t).drop_first() =~= s.drop_first() + t);
        assert((s + t)[0] == s[0]);
        assert(attr_text(s[0].0@, s[0].1@) + (attrs_text(s.drop_first()) + attrs_text(t)) =~= (
        attr_text(s[0].0@, s[0].1@) + attrs_text(s.drop_first())) + attrs_text(t));
    }
}

/// A single attribute renders as itself.
pub proof fn lemma_attrs_text_singleton(a: (String, String))
    ensures
        attrs_text(seq![a]) == attr_text(a.0@, a.1@),
{
    assert(seq![a][0] == a);
    assert(seq![a].drop_first() =~= Seq::<(String, String)>::empty());
    assert(attrs_text(Seq::<(String, String)>::empty()) == Seq::<char>::empty());
    assert(attrs_text(seq![a]) == attr_text(a.0@, a.1@) + Seq::<char>::empty());
    assert(attr_text(a.0@, a.1@) + Seq::<char>::empty() =~= attr_text(a.0@, a.1@));
}

/// Builds an element node over already-built attribute and child lists.
pub fn element(tag: &str, attrs: Vec<(String, String)>, children: Vec<Node>) -> (r: Node)
    ensures
        render_spec(r) == elem_text(tag@, attrs_text(attrs@), render_nodes(children@)),
{
    Node::Element { tag: String::from_str(tag), attrs, children }
}

/// Builds a text node from a literal.
pub fn text(t: &str) -> (r: Node)
    ensures
        render_spec(r) == escape_seq(t@),
{
    Node::Text(String::from_str(t))
}

/// Builds a text node from an owned string.
pub fn text_owned(t: String) -> (r: Node)
    ensures
        render_spec(r) == escape_seq(t@),
{
    Node::Text(t)
}

/// An empty attribute list.
pub fn attrs0() -> (r: Vec<(String, String)>)
    ensures
        attrs_text(r@) == Seq::<char>::empty(),
{
    let r: Vec<(String, String)> = Vec::new();
    r
}

/// One attribute.
pub fn attrs1(n1: &str, v1: String) -> (r: Vec<(String, String)>)
    ensures
        attrs_text(r@) == attr_text(n1@, v1@),
{
    let a1 = (String::from_str(n1), v1);
    let mut r: Vec<(String, String)> = Vec::new();
    r.push(a1);
    proof {
        assert(r@ =~= seq![a1]);
        lemma_attrs_text_singleton(a1);
    }
    r
}

/// Two attributes, in order.
pub fn attrs2(n1: &str, v1: String, n2: &str, v2: String) -> (r: Vec<(String, String)>)
    ensures
        attrs_text(r@) == attr_text(n1@, v1@) + attr_text(n2@, v2@),
{
    let a1 = (String::from_str(n1), v1);
    let a2 = (String::from_str(n2), v2);
    let mut r: Vec<(String, String)> = Vec::new();
    r.push(a1);
    r.push(a2);
    proof {
        assert(r@ =~= seq![a1] + seq![a2]);
        lemma_attrs_text_concat(seq![a1], seq![a2]);
        lemma_attrs_text_singleton(a1);
        lemma_attrs_text_singleton(a2);
    }
    r
}

/// Three attributes, in order.
pub fn attrs3(n1: &str, v1: String, n2: &str, v2: String, n3: &str, v3: String) -> (r: Vec<
    (String, String),
>)
    ensures
        attrs_text(r@) == attr_text(n1@, v1@) + attr_text(n2@, v2@) + attr_text(n3@, v3@),
{
    let a1 = (String::from_str(n1), v1);
    let a2 = (String::from_str(n2), v2);
    let a3 = (String::from_str(n3), v3);
    let mut r: Vec<(String, String)> = Vec::new();
    r.push(a1);
    r.push(a2);
    r.push(a3);
    proof {
        assert(r@ =~= (seq![a1] + seq![a2]) + seq![a3]);
        lemma_attrs_text_concat(seq![a1], seq![a2]);
        lemma_attrs_text_concat(seq![a1] + seq![a2], seq![a3]);
        lemma_attrs_text_singleton(a1);
        lemma_attrs_text_singleton(a2);
        lemma_attrs_text_singleton(a3);
    }
    r
}

/// An empty child list.
pub fn nodes0() -> (r: Vec<Node>)
    ensures
        render_nodes(r@) == Seq::<char>::empty(),
{
    let r: Vec<Node> = Vec::new();
    r
}

/// One child.
pub fn nodes1(c1: Node) -> (r: Vec<Node>)
    ensures
        render_nodes(r@) == render_spec(c1),
{
    let mut r: Vec<Node> = Vec::new();
    r.push(c1);
    proof {
        assert(r@ =~= seq![c1]);
        lemma_render_nodes_singleton(c1);
    }
    r
}

/// Two children, in order.
pub fn nodes2(c1: Node, c2: Node) -> (r: Vec<Node>)
    ensures
        render_nodes(r@) == render_spec(c1) + render_spec(c2),
{
    let mut r: Vec<Node> = Vec::new();
    r.push(c1);
    r.push(c2);
    proof {
        assert(r@ =~= seq![c1] + seq![c2]);
        lemma_render_nodes_concat(seq![c1], seq![c2]);
        lemma_render_nodes_singleton(c1);
        lemma_render_nodes_singleton(c2);
    }
    r
}

/// Eight children, in order.
pub fn nodes8(
    c1: Node,
    c2: Node,
    c3: Node,
    c4: Node,
    c5: Node,
    c6: Node,
    c7: Node,
    c8: Node,
) -> (r: Vec<Node>)
    ensures
        render_nodes(r@) == render_spec(c1) + render_spec(c2) + render_spec(c3) + render_spec(c4)
            + render_spec(c5) + render_spec(c6) + render_spec(c7) + render_spec(c8),
{
    let mut r: Vec<Node> = Vec::new();
    r.push(c1);
    r.push(c2);
    r.push(c3);
    r.push(c4);
    r.push(c5);
    r.push(c6);
    r.push(c7);
    r.push(c8);
    proof {
        lemma_render_nodes_singleton(c1);
        lemma_render_nodes_singleton(c2);
        lemma_render_nodes_singleton(c3);
        lemma_render_nodes_singleton(c4);
        lemma_render_nodes_singleton(c5);
        lemma_render_nodes_singleton(c6);
        lemma_render_nodes_singleton(c7);
        lemma_render_nodes_singleton(c8);
        lemma_render_nodes_concat(seq![c1], seq![c2]);
        lemma_render_nodes_concat(seq![c1] + seq![c2], seq![c3]);
        lemma_render_nodes_concat(seq![c1] + seq![c2] + seq![c3], seq![c4]);
        lemma_render_nodes_concat(seq![c1] + seq![c2] + seq![c3] + seq![c4], seq![c5]);
        lemma_render_nodes_concat(seq![c1] + seq![c2] + seq![c3] + seq![c4] + seq![c5], seq![c6]);
        lemma_render_nodes_concat(
            seq![c1] + seq![c2] + seq![c3] + seq![c4] + seq![c5] + seq![c6],
            seq![c7],
        );
        lemma_render_nodes_concat(
            seq![c1] + seq![c2] + seq![c3] + seq![c4] + seq![c5] + seq![c6] + seq![c7],
            seq![c8],
        );
        assert(r@ =~= seq![c1] + seq![c2] + seq![c3] + seq![c4] + seq![c5] + seq![c6] + seq![c7]
            + seq![c8]);
    }
    r
}

/// Rendering the same view tree twice yields byte-identical minified
/// output: the page a tree produces is a function of the tree alone.
pub proof fn lemma_htmlify_deterministic(a: Node, b: Node)
    requires
        a == b,
    ensures
        minified_of(render_spec(a)) == minified_of(render_spec(b)),
{
}

} // verus!
