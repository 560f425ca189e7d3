use vstd::prelude::*;

use crate::node::Node;
use crate::rng::UNIT;

verus! {

/// The numeral of a single decimal digit.
pub open spec fn digit_text(d: nat) -> Seq<char> {
    if d == 0 {
        "0"@
    } else if d == 1 {
        "1"@
    } else if d == 2 {
        "2"@
    } else if d == 3 {
        "3"@
    } else if d == 4 {
        "4"@
    } else if d == 5 {
        "5"@
    } else if d == 6 {
        "6"@
    } else if d == 7 {
        "7"@
    } else if d == 8 {
        "8"@
    } else {
        "9"@
    }
}

/// The decimal numeral of `n`, without leading zeros.
pub open spec fn decimal_text(n: nat) -> Seq<char>
    decreases n,
{
    if n < 10 {
        digit_text(n)
    } else {
        decimal_text(n / 10) + digit_text(n % 10)
    }
}

/// The last `width` decimal digits of `n`, with leading zeros.
pub open spec fn padded_text(n: nat, width: nat) -> Seq<char>
    decreases width,
{
    if width == 0 {
        Seq::empty()
    } else {
        padded_text(n / 10, (width - 1) as nat) + digit_text(n % 10)
    }
}

/// The last `width` decimal digits of `n`, with leading zeros, less their
/// trailing zeros: at least one digit stays.
pub open spec fn fraction_text(n: nat, width: nat) -> Seq<char>
    decreases width,
{
    if width > 1 && n % 10 == 0 {
        fraction_text(n / 10, (width - 1) as nat)
    } else {
        padded_text(n, width)
    }
}

/// The number of fractional digits of a fixed-point number.
pub const FRACTION_DIGITS: u64 = 9;

/// The magnitude of a fixed-point number, in billionths.
pub open spec fn magnitude(v: i64) -> nat {
    if v < 0 {
        (-v) as nat
    } else {
        v as nat
    }
}

/// A fixed-point number as a decimal fraction without trailing zeros, one
/// fractional digit at least: `-0.14320678` for `-143206780`, `1.0` for
/// `1000000000`.
pub open spec fn number_text(v: i64) -> Seq<char> {
    (if v < 0 {
        "-"@
    } else {
        Seq::empty()
    }) + decimal_text(magnitude(v) / UNIT as nat) + "."@ + fraction_text(
        magnitude(v) % UNIT as nat,
        FRACTION_DIGITS as nat,
    )
}

/// The canonical text of a tree: each node as its variant's name with its
/// operands in parentheses, `Add(X, Sin(Number(0.5)))`.
pub open spec fn node_text(n: Node) -> Seq<char>
    decreases n,
{
    match n {
        Node::X => "X"@,
        Node::Y => "Y"@,
        Node::Random => "Random"@,
        Node::Rule(i) => "Rule("@ + decimal_text(i as nat) + ")"@,
        Node::Number(v) => "Number("@ + number_text(v) + ")"@,
        Node::Boolean(b) => if b {
            "Boolean(true)"@
        } else {
            "Boolean(false)"@
        },
        Node::Sqrt(a) => "Sqrt("@ + node_text(*a) + ")"@,
        Node::Sin(a) => "Sin("@ + node_text(*a) + ")"@,
        Node::Cos(a) => "Cos("@ + node_text(*a) + ")"@,
        Node::Exp(a) => "Exp("@ + node_text(*a) + ")"@,
        Node::Add(a, b) => "Add("@ + node_text(*a) + ", "@ + node_text(*b) + ")"@,
        Node::Mult(a, b) => "Mult("@ + node_text(*a) + ", "@ + node_text(*b) + ")"@,
        Node::Div(a, b) => "Div("@ + node_text(*a) + ", "@ + node_text(*b) + ")"@,
        Node::Modulo(a, b) => "Modulo("@ + node_text(*a) + ", "@ + node_text(*b) + ")"@,
        Node::Gt(a, b) => "Gt("@ + node_text(*a) + ", "@ + node_text(*b) + ")"@,
        Node::Triple(a, b, c) => "Triple("@ + node_text(*a) + ", "@ + node_text(*b) + ", "@
            + node_text(*c) + ")"@,
        Node::If { cond, then_node, else_node } => "If { cond: "@ + node_text(*cond)
            + ", then: "@ + node_text(*then_node) + ", elze: "@ + node_text(
            *else_node,
        ) + " }"@,
        Node::Mix(a, b, c, d) => "Mix("@ + node_text(*a) + ", "@ + node_text(*b) + ", "@
            + node_text(*c) + ", "@ + node_text(*d) + ")"@,
    }
}

fn push_digit(out: &mut String, d: u64)
    requires
        d < 10,
    ensures
        final(out)@ == old(out)@ + digit_text(d as nat),
{
    if d == 0 {
        out.append("0");
    } else if d == 1 {
        out.append("1");
    } else if d == 2 {
        out.append("2");
    } else if d == 3 {
        out.append("3");
    } else if d == 4 {
        out.append("4");
    } else if d == 5 {
        out.append("5");
    } else if d == 6 {
        out.append("6");
    } else if d == 7 {
        out.append("7");
    } else if d == 8 {
        out.append("8");
    } else {
        out.append("9");
    }
}

fn push_decimal(out: &mut String, n: u64)
    ensures
        final(out)@ == old(out)@ + decimal_text(n as nat),
    decreases n,
{
    if n < 10 {
        push_digit(out, n);
    } else {
        push_decimal(out, n / 10);
        push_digit(out, n % 10);
        assert(final(out)@ =~= old(out)@ + decimal_text(n as nat));
    }
}

fn push_padded(out: &mut String, n: u64, width: u64)
    ensures
        final(out)@ == old(out)@ + padded_text(n as nat, width as nat),
    decreases width,
{
    if width == 0 {
        assert(final(out)@ =~= old(out)@ + padded_text(n as nat, width as nat));
    } else {
        push_padded(out, n / 10, width - 1);
        push_digit(out, n % 10);
        assert(final(out)@ =~= old(out)@ + padded_text(n as nat, width as nat));
    }
}

fn push_fraction(out: &mut String, n: u64, width: u64)
    ensures
        final(out)@ == old(out)@ + fraction_text(n as nat, width as nat),
    decreases width,
{
    if width > 1 && n % 10 == 0 {
        push_fraction(out, n / 10, width - 1);
    } else {
        push_padded(out, n, width);
    }
}

fn push_number(out: &mut String, v: i64)
    ensures
        final(out)@ == old(out)@ + number_text(v),
{
    let ghost start = out@;
    let m: u64 = if v < 0 {
        (0i128 - v as i128) as u64
    } else {
        v as u64
    };
    if v < 0 {
        out.append("-");
    }
    let ghost signed = out@;
    push_decimal(out, m / UNIT);
    out.append(".");
    push_fraction(out, m % UNIT, FRACTION_DIGITS);
    assert(out@ =~= start + number_text(v));
}

impl Node {
    /// Appends the canonical text of the tree to `out`.
    pub fn write_text(&self, out: &mut String)
        ensures
            final(out)@ == old(out)@ + node_text(*self),
        decreases self.size(), 1nat,
    {
        match self {
            Node::X => out.append("X"),
            Node::Y => out.append("Y"),
            Node::Random => out.append("Random"),
            Node::Rule(i) => {
                let ghost start = out@;
                out.append("Rule(");
                push_decimal(out, *i as u64);
                out.append(")");
                assert(out@ =~= start + node_text(*self));
            },
            Node::Number(v) => {
                let ghost start = out@;
                out.append("Number(");
                push_number(out, *v);
                out.append(")");
                assert(out@ =~= start + node_text(*self));
            },
            Node::Boolean(b) => {
                if *b {
                    out.append("Boolean(true)");
                } else {
                    out.append("Boolean(false)");
                }
            },
            Node::Sqrt(a) => write_unary("Sqrt(", a, out),
            Node::Sin(a) => write_unary("Sin(", a, out),
            Node::Cos(a) => write_unary("Cos(", a, out),
            Node::Exp(a) => write_unary("Exp(", a, out),
            Node::Add(a, b) => write_binary("Add(", a, b, out),
            Node::Mult(a, b) => write_binary("Mult(", a, b, out),
            Node::Div(a, b) => write_binary("Div(", a, b, out),
            Node::Modulo(a, b) => write_binary("Modulo(", a, b, out),
            Node::Gt(a, b) => write_binary("Gt(", a, b, out),
            Node::Triple(a, b, c) => write_ternary("Triple(", ", ", ", ", ")", a, b, c, out),
            Node::If { cond, then_node, else_node } => write_ternary(
                "If { cond: ",
                ", then: ",
                ", elze: ",
                " }",
                cond,
                then_node,
                else_node,
                out,
            ),
            Node::Mix(a, b, c, d) => write_quaternary("Mix(", a, b, c, d, out),
        }
    }

    /// The canonical text of the tree.
    pub fn to_text(&self) -> (r: String)
        ensures
            r@ == node_text(*self),
    {
        let mut out = String::new();
        self.write_text(&mut out);
        assert(out@ =~= node_text(*self));
        out
    }

    /// The canonical texts of the three channels of a colour program.
    ///
    /// The tree must be a `Triple`: anything else is a program that yields
    /// no colour, and a caller that holds one has broken the grammar's
    /// contract.
    pub fn extract_channels_from_triple(&self) -> (r: (String, String, String))
        requires
            self is Triple,
        ensures
            r.0@ == node_text(*self->Triple_0),
            r.1@ == node_text(*self->Triple_1),
            r.2@ == node_text(*self->Triple_2),
    {
        match self {
            Node::Triple(red, green, blue) => (red.to_text(), green.to_text(), blue.to_text()),
            _ => (String::new(), String::new(), String::new()),
        }
    }
}

/// Appends `open`, the text of one operand, and a closing parenthesis.
fn write_unary(open: &str, a: &Node, out: &mut String)
    ensures
        final(out)@ == old(out)@ + (open@ + node_text(*a) + ")"@),
    decreases a.size(), 2nat,
{
    let ghost start = out@;
    out.append(open);
    a.write_text(out);
    out.append(")");
    assert(out@ =~= start + (open@ + node_text(*a) + ")"@));
}

/// Appends `open` and the texts of two operands, comma-separated and
/// closed by a parenthesis.
fn write_binary(open: &str, a: &Node, b: &Node, out: &mut String)
    ensures
        final(out)@ == old(out)@ + (open@ + node_text(*a) + ", "@ + node_text(*b) + ")"@),
    decreases a.size() + b.size(), 2nat,
{
    let ghost start = out@;
    out.append(open);
    a.write_text(out);
    out.append(", ");
    b.write_text(out);
    out.append(")");
    assert(out@ =~= start + (open@ + node_text(*a) + ", "@ + node_text(*b) + ")"@));
}

/// Appends the texts of three operands, each after its own opening text,
/// and the closing text.
fn write_ternary(
    open: &str,
    second: &str,
    third: &str,
    close: &str,
    a: &Node,
    b: &Node,
    c: &Node,
    out: &mut String,
)
    ensures
        final(out)@ == old(out)@ + (open@ + node_text(*a) + second@ + node_text(*b) + third@
            + node_text(*c) + close@),
    decreases a.size() + b.size() + c.size(), 2nat,
{
    let ghost start = out@;
    out.append(open);
    a.write_text(out);
    out.append(second);
    b.write_text(out);
    out.append(third);
    c.write_text(out);
    out.append(close);
    assert(out@ =~= start + (open@ + node_text(*a) + second@ + node_text(*b) + third@
        + node_text(*c) + close@));
}

/// Appends `open` and the texts of four operands, comma-separated and
/// closed by a parenthesis.
fn write_quaternary(open: &str, a: &Node, b: &Node, c: &Node, d: &Node, out: &mut String)
    ensures
        final(out)@ == old(out)@ + (open@ + node_text(*a) + ", "@ + node_text(*b) + ", "@
            + node_text(*c) + ", "@ + node_text(*d) + ")"@),
    decreases a.size() + b.size() + c.size() + d.size(), 2nat,
{
    let ghost start = out@;
    out.append(open);
    a.write_text(out);
    out.append(", ");
    b.write_text(out);
    out.append(", ");
    c.write_text(out);
    out.append(", ");
    d.write_text(out);
    out.append(")");
    assert(out@ =~= start + (open@ + node_text(*a) + ", "@ + node_text(*b) + ", "@ + node_text(
        *c,
    ) + ", "@ + node_text(*d) + ")"@));
}

} // verus!
