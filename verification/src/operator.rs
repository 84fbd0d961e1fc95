//! Python operators on JavaScript values: which JavaScript operator each one
//! runs, the function source that runs it, and the warning given when the
//! operands' types differ.
use vstd::prelude::*;
use crate::kind::{ValueKind, operator_type};
use crate::text::append_str;

verus! {

/// A binary JavaScript operator.
#[derive(Clone, Copy, Debug, PartialEq, Eq, Structural)]
pub enum BinaryOperator {
    Add,
    Sub,
    Mul,
    Div,
    Rem,
    Pow,
    BitAnd,
    BitOr,
    BitXor,
    Shl,
    Shr,
    Eq,
    Ne,
    Lt,
    Le,
    Gt,
    Ge,
}

/// The operator's JavaScript symbol.
pub open spec fn binary_symbol(op: BinaryOperator) -> Seq<char> {
    match op {
        BinaryOperator::Add => "+"@,
        BinaryOperator::Sub => "-"@,
        BinaryOperator::Mul => "*"@,
        BinaryOperator::Div => "/"@,
        BinaryOperator::Rem => "%"@,
        BinaryOperator::Pow => "**"@,
        BinaryOperator::BitAnd => "&"@,
        BinaryOperator::BitOr => "|"@,
        BinaryOperator::BitXor => "^"@,
        BinaryOperator::Shl => "<<"@,
        BinaryOperator::Shr => ">>"@,
        BinaryOperator::Eq => "=="@,
        BinaryOperator::Ne => "!="@,
        BinaryOperator::Lt => "<"@,
        BinaryOperator::Le => "<="@,
        BinaryOperator::Gt => ">"@,
        BinaryOperator::Ge => ">="@,
    }
}

/// The source of the JavaScript function that applies the operator to its
/// two arguments.
pub open spec fn binary_source(op: BinaryOperator) -> Seq<char> {
    match op {
        BinaryOperator::Add => "(function(a, b) { return a + b; })"@,
        BinaryOperator::Sub => "(function(a, b) { return a - b; })"@,
        BinaryOperator::Mul => "(function(a, b) { return a * b; })"@,
        BinaryOperator::Div => "(function(a, b) { return a / b; })"@,
        BinaryOperator::Rem => "(function(a, b) { return a % b; })"@,
        BinaryOperator::Pow => "(function(a, b) { return a ** b; })"@,
        BinaryOperator::BitAnd => "(function(a, b) { return a & b; })"@,
        BinaryOperator::BitOr => "(function(a, b) { return a | b; })"@,
        BinaryOperator::BitXor => "(function(a, b) { return a ^ b; })"@,
        BinaryOperator::Shl => "(function(a, b) { return a << b; })"@,
        BinaryOperator::Shr => "(function(a, b) { return a >> b; })"@,
        BinaryOperator::Eq => "(function(a, b) { return a == b; })"@,
        BinaryOperator::Ne => "(function(a, b) { return a != b; })"@,
        BinaryOperator::Lt => "(function(a, b) { return a < b; })"@,
        BinaryOperator::Le => "(function(a, b) { return a <= b; })"@,
        BinaryOperator::Gt => "(function(a, b) { return a > b; })"@,
        BinaryOperator::Ge => "(function(a, b) { return a >= b; })"@,
    }
}

impl BinaryOperator {
    /// The operator's JavaScript symbol.
    pub fn symbol(self) -> (r: &'static str)
        ensures
            r@ == binary_symbol(self),
    {
        match self {
            BinaryOperator::Add => "+",
            BinaryOperator::Sub => "-",
            BinaryOperator::Mul => "*",
            BinaryOperator::Div => "/",
            BinaryOperator::Rem => "%",
            BinaryOperator::Pow => "**",
            BinaryOperator::BitAnd => "&",
            BinaryOperator::BitOr => "|",
            BinaryOperator::BitXor => "^",
            BinaryOperator::Shl => "<<",
            BinaryOperator::Shr => ">>",
            BinaryOperator::Eq => "==",
            BinaryOperator::Ne => "!=",
            BinaryOperator::Lt => "<",
            BinaryOperator::Le => "<=",
            BinaryOperator::Gt => ">",
            BinaryOperator::Ge => ">=",
        }
    }

    /// The source of the function that applies the operator.
    pub fn source(self) -> (r: &'static str)
        ensures
            r@ == binary_source(self),
    {
        match self {
            BinaryOperator::Add => "(function(a, b) { return a + b; })",
            BinaryOperator::Sub => "(function(a, b) { return a - b; })",
            BinaryOperator::Mul => "(function(a, b) { return a * b; })",
            BinaryOperator::Div => "(function(a, b) { return a / b; })",
            BinaryOperator::Rem => "(function(a, b) { return a % b; })",
            BinaryOperator::Pow => "(function(a, b) { return a ** b; })",
            BinaryOperator::BitAnd => "(function(a, b) { return a & b; })",
            BinaryOperator::BitOr => "(function(a, b) { return a | b; })",
            BinaryOperator::BitXor => "(function(a, b) { return a ^ b; })",
            BinaryOperator::Shl => "(function(a, b) { return a << b; })",
            BinaryOperator::Shr => "(function(a, b) { return a >> b; })",
            BinaryOperator::Eq => "(function(a, b) { return a == b; })",
            BinaryOperator::Ne => "(function(a, b) { return a != b; })",
            BinaryOperator::Lt => "(function(a, b) { return a < b; })",
            BinaryOperator::Le => "(function(a, b) { return a <= b; })",
            BinaryOperator::Gt => "(function(a, b) { return a > b; })",
            BinaryOperator::Ge => "(function(a, b) { return a >= b; })",
        }
    }
}

/// A unary JavaScript operator.
#[derive(Clone, Copy, Debug, PartialEq, Eq, Structural)]
pub enum UnaryOperator {
    Pos,
    Neg,
    Invert,
}

/// The source of the JavaScript function that applies the unary operator.
pub open spec fn unary_source(op: UnaryOperator) -> Seq<char> {
    match op {
        UnaryOperator::Pos => "(function(a) { return +a; })"@,
        UnaryOperator::Neg => "(function(a) { return -a; })"@,
        UnaryOperator::Invert => "(function(a) { return ~a; })"@,
    }
}

impl UnaryOperator {
    /// The source of the function that applies the operator.
    pub fn source(self) -> (r: &'static str)
        ensures
            r@ == unary_source(self),
    {
        match self {
            UnaryOperator::Pos => "(function(a) { return +a; })",
            UnaryOperator::Neg => "(function(a) { return -a; })",
            UnaryOperator::Invert => "(function(a) { return ~a; })",
        }
    }
}

/// Each binary operator is the JavaScript operator of the same name: `Add`
/// is `+`, `Sub` is `-`, `Mul` is `*`, `Div` is `/`, `Rem` is `%`, `Pow` is
/// `**`, the bitwise ones are `&`, `|`, `^`, `<<` and `>>`, and the
/// comparisons are `==`, `!=`, `<`, `<=`, `>` and `>=`; no two operators share
/// a symbol.
pub proof fn binary_symbols_are_javascript_operators(op: BinaryOperator, other: BinaryOperator)
    ensures
        op == BinaryOperator::Add ==> binary_symbol(op) == "+"@,
        op == BinaryOperator::Sub ==> binary_symbol(op) == "-"@,
        op == BinaryOperator::Mul ==> binary_symbol(op) == "*"@,
        op == BinaryOperator::Div ==> binary_symbol(op) == "/"@,
        op == BinaryOperator::Rem ==> binary_symbol(op) == "%"@,
        op == BinaryOperator::Pow ==> binary_symbol(op) == "**"@,
        op == BinaryOperator::BitAnd ==> binary_symbol(op) == "&"@,
        op == BinaryOperator::BitOr ==> binary_symbol(op) == "|"@,
        op == BinaryOperator::BitXor ==> binary_symbol(op) == "^"@,
        op == BinaryOperator::Shl ==> binary_symbol(op) == "<<"@,
        op == BinaryOperator::Shr ==> binary_symbol(op) == ">>"@,
        op == BinaryOperator::Eq ==> binary_symbol(op) == "=="@,
        op == BinaryOperator::Ne ==> binary_symbol(op) == "!="@,
        op == BinaryOperator::Lt ==> binary_symbol(op) == "<"@,
        op == BinaryOperator::Le ==> binary_symbol(op) == "<="@,
        op == BinaryOperator::Gt ==> binary_symbol(op) == ">"@,
        op == BinaryOperator::Ge ==> binary_symbol(op) == ">="@,
        binary_symbol(op) == binary_symbol(other) ==> op == other,
{
    reveal_strlit("+");
    reveal_strlit("-");
    reveal_strlit("*");
    reveal_strlit("/");
    reveal_strlit("%");
    reveal_strlit("**");
    reveal_strlit("&");
    reveal_strlit("|");
    reveal_strlit("^");
    reveal_strlit("<<");
    reveal_strlit(">>");
    reveal_strlit("==");
    reveal_strlit("!=");
    reveal_strlit("<");
    reveal_strlit("<=");
    reveal_strlit(">");
    reveal_strlit(">=");
    if binary_symbol(op) == binary_symbol(other) {
        let x = binary_symbol(op);
        let y = binary_symbol(other);
        assert(x.len() == y.len());
        assert(x[0] == y[0]);
        if x.len() > 1 {
            assert(x[1] == y[1]);
        }
    }
}

/// Each binary operator's function source is the same two-argument
/// function around the operator's symbol: it applies exactly that operator.
pub proof fn binary_source_applies_symbol(op: BinaryOperator)
    ensures
        binary_source(op) == "(function(a, b) { return a "@ + binary_symbol(op) + " b; })"@,
{
    let head = "(function(a, b) { return a "@;
    let tail = " b; })"@;
    reveal_strlit("(function(a, b) { return a ");
    reveal_strlit(" b; })");
    match op {
        BinaryOperator::Add => {
            reveal_strlit("(function(a, b) { return a + b; })");
            reveal_strlit("+");
            assert(binary_source(op) =~= head + binary_symbol(op) + tail);
        },
        BinaryOperator::Sub => {
            reveal_strlit("(function(a, b) { return a - b; })");
            reveal_strlit("-");
            assert(binary_source(op) =~= head + binary_symbol(op) + tail);
        },
        BinaryOperator::Mul => {
            reveal_strlit("(function(a, b) { return a * b; })");
            reveal_strlit("*");
            assert(binary_source(op) =~= head + binary_symbol(op) + tail);
        },
        BinaryOperator::Div => {
            reveal_strlit("(function(a, b) { return a / b; })");
            reveal_strlit("/");
            assert(binary_source(op) =~= head + binary_symbol(op) + tail);
        },
        BinaryOperator::Rem => {
            reveal_strlit("(function(a, b) { return a % b; })");
            reveal_strlit("%");
            assert(binary_source(op) =~= head + binary_symbol(op) + tail);
        },
        BinaryOperator::Pow => {
            reveal_strlit("(function(a, b) { return a ** b; })");
            reveal_strlit("**");
            assert(binary_source(op) =~= head + binary_symbol(op) + tail);
        },
        BinaryOperator::BitAnd => {
            reveal_strlit("(function(a, b) { return a & b; })");
            reveal_strlit("&");
            assert(binary_source(op) =~= head + binary_symbol(op) + tail);
        },
        BinaryOperator::BitOr => {
            reveal_strlit("(function(a, b) { return a | b; })");
            reveal_strlit("|");
            assert(binary_source(op) =~= head + binary_symbol(op) + tail);
        },
        BinaryOperator::BitXor => {
            reveal_strlit("(function(a, b) { return a ^ b; })");
            reveal_strlit("^");
            assert(binary_source(op) =~= head + binary_symbol(op) + tail);
        },
        BinaryOperator::Shl => {
            reveal_strlit("(function(a, b) { return a << b; })");
            reveal_strlit("<<");
            assert(binary_source(op) =~= head + binary_symbol(op) + tail);
        },
        BinaryOperator::Shr => {
            reveal_strlit("(function(a, b) { return a >> b; })");
            reveal_strlit(">>");
            assert(binary_source(op) =~= head + binary_symbol(op) + tail);
        },
        BinaryOperator::Eq => {
            reveal_strlit("(function(a, b) { return a == b; })");
            reveal_strlit("==");
            assert(binary_source(op) =~= head + binary_symbol(op) + tail);
        },
        BinaryOperator::Ne => {
            reveal_strlit("(function(a, b) { return a != b; })");
            reveal_strlit("!=");
            assert(binary_source(op) =~= head + binary_symbol(op) + tail);
        },
        BinaryOperator::Lt => {
            reveal_strlit("(function(a, b) { return a < b; })");
            reveal_strlit("<");
            assert(binary_source(op) =~= head + binary_symbol(op) + tail);
        },
        BinaryOperator::Le => {
            reveal_strlit("(function(a, b) { return a <= b; })");
            reveal_strlit("<=");
            assert(binary_source(op) =~= head + binary_symbol(op) + tail);
        },
        BinaryOperator::Gt => {
            reveal_strlit("(function(a, b) { return a > b; })");
            reveal_strlit(">");
            assert(binary_source(op) =~= head + binary_symbol(op) + tail);
        },
        BinaryOperator::Ge => {
            reveal_strlit("(function(a, b) { return a >= b; })");
            reveal_strlit(">=");
            assert(binary_source(op) =~= head + binary_symbol(op) + tail);
        },
    }
}

/// The JavaScript symbol of a unary operator.
pub open spec fn unary_symbol(op: UnaryOperator) -> Seq<char> {
    match op {
        UnaryOperator::Pos => "+"@,
        UnaryOperator::Neg => "-"@,
        UnaryOperator::Invert => "~"@,
    }
}

/// Each unary operator is the JavaScript prefix operator of the same name:
/// `Pos` is `+`, `Neg` is `-` and `Invert` is `~`; no two share a symbol.
pub proof fn unary_symbols_are_javascript_operators(op: UnaryOperator, other: UnaryOperator)
    ensures
        op == UnaryOperator::Pos ==> unary_symbol(op) == "+"@,
        op == UnaryOperator::Neg ==> unary_symbol(op) == "-"@,
        op == UnaryOperator::Invert ==> unary_symbol(op) == "~"@,
        unary_symbol(op) == unary_symbol(other) ==> op == other,
{
    reveal_strlit("+");
    reveal_strlit("-");
    reveal_strlit("~");
    if unary_symbol(op) == unary_symbol(other) {
        assert(unary_symbol(op)[0] == unary_symbol(other)[0]);
    }
}

/// Each unary operator's function source is the same one-argument function
/// around the operator's symbol.
pub proof fn unary_source_applies_symbol(op: UnaryOperator)
    ensures
        unary_source(op) == "(function(a) { return "@ + unary_symbol(op) + "a; })"@,
{
    let head = "(function(a) { return "@;
    let tail = "a; })"@;
    reveal_strlit("(function(a) { return ");
    reveal_strlit("a; })");
    match op {
        UnaryOperator::Pos => {
            reveal_strlit("(function(a) { return +a; })");
            reveal_strlit("+");
            assert(unary_source(op) =~= head + unary_symbol(op) + tail);
        },
        UnaryOperator::Neg => {
            reveal_strlit("(function(a) { return -a; })");
            reveal_strlit("-");
            assert(unary_source(op) =~= head + unary_symbol(op) + tail);
        },
        UnaryOperator::Invert => {
            reveal_strlit("(function(a) { return ~a; })");
            reveal_strlit("~");
            assert(unary_source(op) =~= head + unary_symbol(op) + tail);
        },
    }
}

/// The operands' kinds in the order JavaScript sees them: a reflected Python
/// operator (`__radd__` and the like) has the Python value on the left.
pub open spec fn ordered_operands<T>(lhs: T, rhs: T, reverse: bool) -> (T, T) {
    if reverse {
        (rhs, lhs)
    } else {
        (lhs, rhs)
    }
}

/// Orders the two operands of a binary operator.
pub fn order_operands<T>(lhs: T, rhs: T, reverse: bool) -> (r: (T, T))
    ensures
        r == ordered_operands(lhs, rhs, reverse),
{
    if reverse {
        (rhs, lhs)
    } else {
        (lhs, rhs)
    }
}

/// The text of the warning for operands of different operator types.
pub open spec fn mixed_operands_text(op: BinaryOperator, left: ValueKind, right: ValueKind) -> Seq<
    char,
> {
    "JavaScript operator '"@ + binary_symbol(op) + "' was used with mixed operand types '"@
        + operator_type(left) + "' and '"@ + operator_type(right)
        + "'; JavaScript coercion semantics were applied."@
}

/// The warning to give before applying `op` to operands of the given kinds:
/// none when they have the same operator type, else a message that names the
/// operator and both types.
pub fn mixed_operand_warning(op: BinaryOperator, left: ValueKind, right: ValueKind) -> (r: Option<
    String,
>)
    ensures
        r is None <==> operator_type(left) == operator_type(right),
        r matches Some(m) ==> m@ == mixed_operands_text(op, left, right),
{
    if left.has_same_operator_type(right) {
        return None;
    }
    let mut message = String::from_str("JavaScript operator '");
    append_str(&mut message, op.symbol());
    append_str(&mut message, "' was used with mixed operand types '");
    append_str(&mut message, left.operator_type_name());
    append_str(&mut message, "' and '");
    append_str(&mut message, right.operator_type_name());
    append_str(&mut message, "'; JavaScript coercion semantics were applied.");
    Some(message)
}

/// A comparison operator's result was not a boolean.
#[derive(Clone, Copy, Debug, PartialEq, Eq, Structural)]
pub struct NotABoolean;

/// The result of a comparison operator: its boolean value, or an error when
/// the engine returned something else.
pub fn comparison_result(is_boolean: bool, value: bool) -> (r: Result<bool, NotABoolean>)
    ensures
        r == (if is_boolean {
            Ok::<bool, NotABoolean>(value)
        } else {
            Err::<bool, NotABoolean>(NotABoolean)
        }),
{
    if !is_boolean {
        return Err(NotABoolean);
    }
    Ok(value)
}

} // verus!
