//! The renderer: maps an expression node to its canonical textual form.
//!
//! [`render`] is the specification: a recursive function from a node to the
//! exact character sequence of its rendering. [`translate`] is the verified
//! executable renderer, and requires the tree to be [`renderable`]: free of
//! string literals holding a single quote, the one kind of payload the
//! target grammar cannot express (its single-quoted strings are literal,
//! with no escape mechanism at all). [`try_translate`] checks that
//! precondition and rejects offending trees instead.

use vstd::prelude::*;
use vstd::string::StrSliceExecFns;
use vstd::string::StringExecFns;
use crate::ast::{BinaryOp, Expr, UnaryOp};
use crate::numerals::{dec_chars, float_chars, format_float, u64_to_decimal};

verus! {

/// The surface token of a unary operator, including the space that separates
/// the word form `not` from its operand.
pub open spec fn unary_op_token(op: UnaryOp) -> Seq<char> {
    match op {
        UnaryOp::Neg => "-"@,
        UnaryOp::Not => "not "@,
        UnaryOp::Inv => "~"@,
    }
}

/// The surface token of a binary operator: symbolic forms for arithmetic,
/// comparison and bitwise operators, word forms for the logical ones.
pub open spec fn binary_op_token(op: BinaryOp) -> Seq<char> {
    match op {
        BinaryOp::Add => "+"@,
        BinaryOp::Sub => "-"@,
        BinaryOp::Mul => "*"@,
        BinaryOp::Div => "/"@,
        BinaryOp::Rem => "%"@,
        BinaryOp::Eq => "=="@,
        BinaryOp::Ne => "!="@,
        BinaryOp::Lt => "<"@,
        BinaryOp::Le => "<="@,
        BinaryOp::Gt => ">"@,
        BinaryOp::Ge => ">="@,
        BinaryOp::And => "and"@,
        BinaryOp::Or => "or"@,
        BinaryOp::BitOr => "|"@,
        BinaryOp::BitXor => "^"@,
        BinaryOp::BitAnd => "&"@,
        BinaryOp::Shl => "<<"@,
        BinaryOp::Shr => ">>"@,
    }
}

/// `s` holds at least one single-quote character.
pub open spec fn has_single_quote(s: Seq<char>) -> bool {
    exists|i: int| 0 <= i < s.len() && s[i] == '\''
}

/// The tree holds no string literal with an embedded single quote; every
/// such tree renders.
pub open spec fn renderable(e: Expr) -> bool
    decreases e,
{
    match e {
        Expr::Str(s) => !has_single_quote(s@),
        Expr::EnumMember { .. } => true,
        Expr::List(items) => forall|i: int|
            0 <= i < items@.len() ==> renderable(#[trigger] items@[i]),
        Expr::Attribute { value, .. } => renderable(*value),
        Expr::MethodCall { value, args, .. } => renderable(*value) && (forall|i: int|
            0 <= i < args@.len() ==> renderable(#[trigger] args@[i])),
        Expr::UnaryOp { v, .. } => renderable(*v),
        Expr::BinaryOp { l, r, .. } => renderable(*l) && renderable(*r),
        Expr::CondOp { cond, if_true, if_false } => renderable(*cond) && renderable(*if_true)
            && renderable(*if_false),
        Expr::Subscript { value, idx } => renderable(*value) && renderable(*idx),
        _ => true,
    }
}

/// The renderings of the elements of `items`, joined by `, `.
pub open spec fn render_all(items: Seq<Expr>) -> Seq<char>
    decreases items,
{
    if items.len() == 0 {
        Seq::empty()
    } else if items.len() == 1 {
        render(items[0])
    } else {
        render_all(items.drop_last()) + ", "@ + render(items.last())
    }
}

/// The path prefix of an enum member reference: every segment followed by
/// the scope separator `::`.
pub open spec fn path_prefix_chars(parts: Seq<Seq<char>>) -> Seq<char>
    decreases parts,
{
    if parts.len() == 0 {
        Seq::empty()
    } else {
        path_prefix_chars(parts.drop_last()) + parts.last() + "::"@
    }
}

/// The canonical textual form of a node. Every unary, binary and
/// conditional expression is parenthesized unconditionally, so the output
/// is unambiguous without any operator precedence computation.
pub open spec fn render(e: Expr) -> Seq<char>
    decreases e,
{
    match e {
        Expr::Int(x) => dec_chars(x as nat),
        Expr::Float(f) => float_chars(f.spec_bits()),
        Expr::Str(s) => "'"@ + s@ + "'"@,
        Expr::Bool(b) => if b {
            "true"@
        } else {
            "false"@
        },
        Expr::EnumMember { enum_path, label } => path_prefix_chars(enum_path.deep_view())
            + label@,
        Expr::List(items) => "["@ + render_all(items@) + "]"@,
        Expr::Name(name) => name@,
        Expr::Attribute { value, attr_name } => render(*value) + "."@ + attr_name@,
        Expr::MethodCall { value, method_name, args } => render(*value) + "."@ + method_name@
            + "("@ + render_all(args@) + ")"@,
        Expr::UnaryOp { op, v } => "("@ + unary_op_token(op) + render(*v) + ")"@,
        Expr::BinaryOp { l, op, r } => "("@ + render(*l) + " "@ + binary_op_token(op) + " "@
            + render(*r) + ")"@,
        Expr::CondOp { cond, if_true, if_false } => "("@ + render(*cond) + " ? "@ + render(
            *if_true,
        ) + " : "@ + render(*if_false) + ")"@,
        Expr::Subscript { value, idx } => render(*value) + "["@ + render(*idx) + "]"@,
    }
}

/// Renders a unary operator tag to its token.
pub fn translate_unary_op(op: &UnaryOp) -> (token: &'static str)
    ensures
        token@ == unary_op_token(*op),
{
    match op {
        UnaryOp::Neg => "-",
        UnaryOp::Not => "not ",
        UnaryOp::Inv => "~",
    }
}

/// Renders a binary operator tag to its token.
pub fn translate_binary_op(op: &BinaryOp) -> (token: &'static str)
    ensures
        token@ == binary_op_token(*op),
{
    match op {
        BinaryOp::Add => "+",
        BinaryOp::Sub => "-",
        BinaryOp::Mul => "*",
        BinaryOp::Div => "/",
        BinaryOp::Rem => "%",
        BinaryOp::Eq => "==",
        BinaryOp::Ne => "!=",
        BinaryOp::Lt => "<",
        BinaryOp::Le => "<=",
        BinaryOp::Gt => ">",
        BinaryOp::Ge => ">=",
        BinaryOp::And => "and",
        BinaryOp::Or => "or",
        BinaryOp::BitOr => "|",
        BinaryOp::BitXor => "^",
        BinaryOp::BitAnd => "&",
        BinaryOp::Shl => "<<",
        BinaryOp::Shr => ">>",
    }
}

/// Renders one node into the exact character sequence that [`render`] gives
/// it. The caller must hand in a [`renderable`] tree; [`try_translate`]
/// checks that instead of requiring it.
pub fn translate(expr: &Expr) -> (s: String)
    requires
        renderable(*expr),
    ensures
        s@ == render(*expr),
    decreases expr,
{
    match expr {
        Expr::Int(x) => u64_to_decimal(*x),
        Expr::Float(f) => format_float(f.value()),
        Expr::Str(x) => {
            let mut s = "'".to_owned();
            s.append(x.as_str());
            s.append("'");
            proof {
                assert(s@ =~= render(*expr));
            }
            s
        },
        Expr::Bool(b) => {
            if *b {
                "true".to_owned()
            } else {
                "false".to_owned()
            }
        },
        Expr::EnumMember { enum_path, label } => {
            let ghost parts = enum_path.deep_view();
            let n = enum_path.len();
            let mut s = String::new();
            let mut i: usize = 0;
            while i < n
                invariant
                    i <= n,
                    n == enum_path@.len(),
                    parts == enum_path.deep_view(),
                    s@ == path_prefix_chars(parts.subrange(0, i as int)),
                decreases n - i,
            {
                s.append(enum_path[i].as_str());
                s.append("::");
                proof {
                    assert(parts.subrange(0, i + 1).drop_last() =~= parts.subrange(0, i as int));
                    assert(parts.subrange(0, i + 1).last() == parts[i as int]);
                    assert(parts[i as int] == enum_path@[i as int]@);
                    assert(s@ =~= path_prefix_chars(parts.subrange(0, i + 1)));
                }
                i += 1;
            }
            s.append(label.as_str());
            proof {
                assert(parts.subrange(0, n as int) =~= parts);
                assert(s@ =~= render(*expr));
            }
            s
        },
        Expr::List(items) => {
            let mut s = "[".to_owned();
            s.append(translate_items(items).as_str());
            s.append("]");
            proof {
                assert(s@ =~= render(*expr));
            }
            s
        },
        Expr::Name(name) => name.clone(),
        Expr::Attribute { value, attr_name } => {
            let mut s = translate(value);
            s.append(".");
            s.append(attr_name.as_str());
            proof {
                assert(s@ =~= render(*expr));
            }
            s
        },
        Expr::MethodCall { value, method_name, args } => {
            let mut s = translate(value);
            s.append(".");
            s.append(method_name.as_str());
            s.append("(");
            s.append(translate_items(args).as_str());
            s.append(")");
            proof {
                assert(s@ =~= render(*expr));
            }
            s
        },
        Expr::UnaryOp { op, v } => {
            let mut s = "(".to_owned();
            s.append(translate_unary_op(op));
            s.append(translate(v).as_str());
            s.append(")");
            proof {
                assert(s@ =~= render(*expr));
            }
            s
        },
        Expr::BinaryOp { l, op, r } => {
            let mut s = "(".to_owned();
            s.append(translate(l).as_str());
            s.append(" ");
            s.append(translate_binary_op(op));
            s.append(" ");
            s.append(translate(r).as_str());
            s.append(")");
            proof {
                assert(s@ =~= render(*expr));
            }
            s
        },
        Expr::CondOp { cond, if_true, if_false } => {
            let mut s = "(".to_owned();
            s.append(translate(cond).as_str());
            s.append(" ? ");
            s.append(translate(if_true).as_str());
            s.append(" : ");
            s.append(translate(if_false).as_str());
            s.append(")");
            proof {
                assert(s@ =~= render(*expr));
            }
            s
        },
        Expr::Subscript { value, idx } => {
            let mut s = translate(value);
            s.append("[");
            s.append(translate(idx).as_str());
            s.append("]");
            proof {
                assert(s@ =~= render(*expr));
            }
            s
        },
    }
}

/// Renders every element of `items` and joins the results with `, `.
fn translate_items(items: &Vec<Expr>) -> (s: String)
    requires
        forall|i: int| 0 <= i < items@.len() ==> renderable(#[trigger] items@[i]),
    ensures
        s@ == render_all(items@),
    decreases items@,
{
    let n = items.len();
    let mut s = String::new();
    let mut i: usize = 0;
    while i < n
        invariant
            i <= n,
            n == items@.len(),
            forall|k: int| 0 <= k < items@.len() ==> renderable(#[trigger] items@[k]),
            s@ == render_all(items@.subrange(0, i as int)),
        decreases n - i,
    {
        if i > 0 {
            s.append(", ");
        }
        let t = translate(&items[i]);
        s.append(t.as_str());
        proof {
            let pre = items@.subrange(0, i as int);
            let post = items@.subrange(0, i + 1);
            assert(post.drop_last() =~= pre);
            assert(post.last() == items@[i as int]);
            assert(s@ =~= render_all(post));
        }
        i += 1;
    }
    proof {
        assert(items@.subrange(0, n as int) =~= items@);
    }
    s
}

fn str_has_single_quote(s: &str) -> (b: bool)
    ensures
        b == has_single_quote(s@),
{
    let n = s.unicode_len();
    let mut i: usize = 0;
    while i < n
        invariant
            i <= n,
            n == s@.len(),
            forall|j: int| 0 <= j < i ==> s@[j] != '\'',
        decreases n - i,
    {
        if s.get_char(i) == '\'' {
            return true;
        }
        i += 1;
    }
    false
}

fn all_renderable(items: &Vec<Expr>) -> (b: bool)
    ensures
        b == (forall|i: int| 0 <= i < items@.len() ==> renderable(#[trigger] items@[i])),
    decreases items@,
{
    let n = items.len();
    let mut i: usize = 0;
    while i < n
        invariant
            i <= n,
            n == items@.len(),
            forall|k: int| 0 <= k < i ==> renderable(#[trigger] items@[k]),
        decreases n - i,
    {
        if !is_renderable(&items[i]) {
            return false;
        }
        i += 1;
    }
    true
}

/// Decides whether the tree renders: no string literal in it may hold an
/// embedded single quote.
pub fn is_renderable(expr: &Expr) -> (b: bool)
    ensures
        b == renderable(*expr),
    decreases expr,
{
    match expr {
        Expr::Str(x) => !str_has_single_quote(x.as_str()),
        Expr::List(items) => all_renderable(items),
        Expr::Attribute { value, .. } => is_renderable(value),
        Expr::MethodCall { value, args, .. } => is_renderable(value) && all_renderable(args),
        Expr::UnaryOp { v, .. } => is_renderable(v),
        Expr::BinaryOp { l, r, .. } => is_renderable(l) && is_renderable(r),
        Expr::CondOp { cond, if_true, if_false } => is_renderable(cond) && is_renderable(if_true)
            && is_renderable(if_false),
        Expr::Subscript { value, idx } => is_renderable(value) && is_renderable(idx),
        _ => true,
    }
}

/// Renders one node, rejecting a tree that holds a string literal with an
/// embedded single quote: the target grammar has no escape for it, so such
/// a tree is refused outright rather than silently re-encoded.
pub fn try_translate(expr: &Expr) -> (result: Option<String>)
    ensures
        renderable(*expr) ==> (result matches Some(s) && s@ == render(*expr)),
        !renderable(*expr) ==> result is None,
{
    if is_renderable(expr) {
        Some(translate(expr))
    } else {
        None
    }
}

/// Unconditional parenthesization: the rendering of any unary, binary or
/// conditional expression begins with `(` and ends with `)`, regardless of
/// nesting depth or operand kind.
pub proof fn lemma_unconditional_parentheses(e: Expr)
    requires
        (e is UnaryOp || e is BinaryOp || e is CondOp),
    ensures
        render(e).len() >= 2,
        render(e).first() == '(',
        render(e).last() == ')',
{
    reveal_strlit("(");
    reveal_strlit(")");
}

/// String rendering is a byte-identity wrap in single quotes: for a string
/// without an embedded single quote, the node is renderable and renders as
/// the string itself between one leading and one trailing quote.
pub proof fn lemma_str_render_identity(s: String)
    requires
        !has_single_quote(s@),
    ensures
        renderable(Expr::Str(s)),
        render(Expr::Str(s)) == "'"@ + s@ + "'"@,
{
}

/// A string literal holding an embedded single quote is rejected outright:
/// no tree containing it is renderable, so `try_translate` returns `None`
/// rather than any re-encoded output.
pub proof fn lemma_single_quote_rejected(s: String)
    requires
        has_single_quote(s@),
    ensures
        !renderable(Expr::Str(s)),
{
}

/// Idempotence: rendering is a function of the immutable tree alone, so any
/// two renderings of the same tree are byte-identical.
pub proof fn lemma_render_deterministic(e: Expr, s1: Seq<char>, s2: Seq<char>)
    requires
        s1 == render(e),
        s2 == render(e),
    ensures
        s1 == s2,
{
}

} // verus!
