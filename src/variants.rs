//! Tagged unions: each operation matches every variant, and its contract
//! names the result for each one.
use vstd::prelude::*;
use crate::decimal::{decimal, push_decimal, push_signed_decimal, signed_decimal};
use crate::functions::trunc_quot;

verus! {

/// A compass direction.
#[derive(Clone, Copy, Debug, PartialEq, Eq, Structural)]
pub enum Direction {
    North,
    South,
    East,
    West,
}

/// The line that announces travel in a direction.
pub open spec fn heading_text(d: Direction) -> Seq<char> {
    match d {
        Direction::North => "Heading North"@,
        Direction::South => "Heading South"@,
        Direction::East => "Heading East"@,
        Direction::West => "Heading West"@,
    }
}

impl Direction {
    /// The line that announces travel in this direction.
    pub fn heading(&self) -> (r: &'static str)
        ensures
            r@ == heading_text(*self),
    {
        match self {
            Direction::North => "Heading North",
            Direction::South => "Heading South",
            Direction::East => "Heading East",
            Direction::West => "Heading West",
        }
    }

    /// Whether the direction runs north-south.
    pub fn is_vertical(&self) -> (r: bool)
        ensures
            r == (*self == Direction::North || *self == Direction::South),
    {
        match self {
            Direction::North | Direction::South => true,
            Direction::East | Direction::West => false,
        }
    }
}

/// The state of a user account.
#[derive(Clone, Copy, Debug, PartialEq, Eq, Structural)]
pub enum Status {
    Active,
    Inactive,
    Pending,
}

/// The sentence that describes a status.
pub open spec fn status_text(s: Status) -> Seq<char> {
    match s {
        Status::Active => "User is active"@,
        Status::Inactive => "User is inactive"@,
        Status::Pending => "User status is pending"@,
    }
}

impl Status {
    /// Whether this is the active status.
    pub fn is_active(&self) -> (r: bool)
        ensures
            r == (*self == Status::Active),
    {
        matches!(self, Status::Active)
    }

    /// The sentence that describes this status.
    pub fn description(&self) -> (r: &'static str)
        ensures
            r@ == status_text(*self),
    {
        match self {
            Status::Active => "User is active",
            Status::Inactive => "User is inactive",
            Status::Pending => "User status is pending",
        }
    }
}

/// A colour, named or given by its components.
#[derive(Clone, Copy, Debug, PartialEq, Eq, Structural)]
pub enum Color {
    Red,
    Green,
    Blue,
    Rgb(u8, u8, u8),
    Hsv { h: u16, s: u8, v: u8 },
}

/// Three components written as `(x, y, z)` in decimal.
pub open spec fn triple_text(x: nat, y: nat, z: nat) -> Seq<char> {
    "("@ + decimal(x) + ", "@ + decimal(y) + ", "@ + decimal(z) + ")"@
}

/// The text that names a colour.
pub open spec fn color_text(c: Color) -> Seq<char> {
    match c {
        Color::Red => "Red"@,
        Color::Green => "Green"@,
        Color::Blue => "Blue"@,
        Color::Rgb(r, g, b) => "RGB"@ + triple_text(r as nat, g as nat, b as nat),
        Color::Hsv { h, s, v } => "HSV"@ + triple_text(h as nat, s as nat, v as nat),
    }
}

/// Appends `(x, y, z)` to `out`.
fn push_triple(out: &mut String, x: u64, y: u64, z: u64)
    ensures
        final(out)@ == old(out)@ + triple_text(x as nat, y as nat, z as nat),
{
    out.append("(");
    push_decimal(out, x);
    out.append(", ");
    push_decimal(out, y);
    out.append(", ");
    push_decimal(out, z);
    out.append(")");
}

impl Color {
    /// The colour with the given red, green and blue components.
    pub fn new_rgb(r: u8, g: u8, b: u8) -> (c: Color)
        ensures
            c == Color::Rgb(r, g, b),
    {
        Color::Rgb(r, g, b)
    }

    /// The text that names this colour.
    pub fn to_string(&self) -> (r: String)
        ensures
            r@ == color_text(*self),
    {
        match self {
            Color::Red => String::from_str("Red"),
            Color::Green => String::from_str("Green"),
            Color::Blue => String::from_str("Blue"),
            Color::Rgb(r, g, b) => {
                let mut out = String::from_str("RGB");
                push_triple(&mut out, *r as u64, *g as u64, *b as u64);
                out
            },
            Color::Hsv { h, s, v } => {
                let mut out = String::from_str("HSV");
                push_triple(&mut out, *h as u64, *s as u64, *v as u64);
                out
            },
        }
    }
}

/// The outcome of an arithmetic operation: a value, or the reason there is none.
#[derive(Clone, Copy, Debug, PartialEq, Eq, Structural)]
pub enum OperationResult {
    Success(i32),
    DivisionByZero,
    NegativeNumber,
    Overflow,
}

/// The line that reports an outcome.
pub open spec fn outcome_text(o: OperationResult) -> Seq<char> {
    match o {
        OperationResult::Success(v) => "Result: "@ + signed_decimal(v as int),
        OperationResult::DivisionByZero => "Error: Division by zero"@,
        OperationResult::NegativeNumber => "Error: Negative number"@,
        OperationResult::Overflow => "Error: Overflow"@,
    }
}

impl OperationResult {
    /// The line that reports this outcome.
    pub fn message(&self) -> (r: String)
        ensures
            r@ == outcome_text(*self),
    {
        match self {
            OperationResult::Success(v) => {
                let mut out = String::from_str("Result: ");
                push_signed_decimal(&mut out, *v as i64);
                out
            },
            OperationResult::DivisionByZero => String::from_str("Error: Division by zero"),
            OperationResult::NegativeNumber => String::from_str("Error: Negative number"),
            OperationResult::Overflow => String::from_str("Error: Overflow"),
        }
    }
}

/// `a / b` rounded toward zero, or `DivisionByZero` when `b` is zero.
pub fn divide(a: i32, b: i32) -> (r: OperationResult)
    requires
        !(a == i32::MIN && b == -1),
    ensures
        b == 0 ==> r == OperationResult::DivisionByZero,
        b != 0 ==> r == OperationResult::Success(trunc_quot(a as int, b as int) as i32),
{
    if b == 0 {
        OperationResult::DivisionByZero
    } else {
        OperationResult::Success(crate::functions::divide(a, b).0)
    }
}

/// A traffic light, which steps through its colours in a fixed cycle.
#[derive(Clone, Copy, Debug, PartialEq, Eq, Structural)]
pub enum TrafficLight {
    Red,
    Yellow,
    Green,
}

/// The light that follows `l`: red turns green, green turns yellow, yellow turns red.
pub open spec fn next_light(l: TrafficLight) -> TrafficLight {
    match l {
        TrafficLight::Red => TrafficLight::Green,
        TrafficLight::Yellow => TrafficLight::Red,
        TrafficLight::Green => TrafficLight::Yellow,
    }
}

impl TrafficLight {
    /// The light that follows this one.
    pub fn next(&self) -> (r: TrafficLight)
        ensures
            r == next_light(*self),
    {
        match self {
            TrafficLight::Red => TrafficLight::Green,
            TrafficLight::Yellow => TrafficLight::Red,
            TrafficLight::Green => TrafficLight::Yellow,
        }
    }
}

/// Each direction has a heading line of its own: two different directions
/// never announce the same line.
pub proof fn lemma_heading_text_distinct(a: Direction, b: Direction)
    requires
        a != b,
    ensures
        heading_text(a) != heading_text(b),
{
    reveal_strlit("Heading North");
    reveal_strlit("Heading South");
    reveal_strlit("Heading East");
    reveal_strlit("Heading West");
    if heading_text(a) == heading_text(b) {
        assert(heading_text(a)[8] == heading_text(b)[8]);
    }
}

/// Each status has a sentence of its own: two different statuses are never
/// described alike.
pub proof fn lemma_status_text_distinct(a: Status, b: Status)
    requires
        a != b,
    ensures
        status_text(a) != status_text(b),
{
    reveal_strlit("User is active");
    reveal_strlit("User is inactive");
    reveal_strlit("User status is pending");
    if status_text(a) == status_text(b) {
        assert(status_text(a).len() == status_text(b).len());
    }
}

/// Each failure reason has a line of its own, and none of them reads like a
/// reported value.
pub proof fn lemma_outcome_text_distinct(a: OperationResult, b: OperationResult)
    requires
        a != b,
    ensures
        outcome_text(a) != outcome_text(b),
{
    reveal_strlit("Result: ");
    reveal_strlit("Error: Division by zero");
    reveal_strlit("Error: Negative number");
    reveal_strlit("Error: Overflow");
    if outcome_text(a) == outcome_text(b) {
        assert(outcome_text(a)[0] == outcome_text(b)[0]);
        assert(outcome_text(a).len() == outcome_text(b).len());
        if a is Success && b is Success {
            assert(signed_decimal(a->Success_0 as int) == outcome_text(a).skip(8));
            assert(signed_decimal(b->Success_0 as int) == outcome_text(b).skip(8));
            crate::decimal::lemma_signed_decimal_injective(a->Success_0 as int, b->Success_0 as int);
        }
    }
}

/// Three steps of the traffic light bring it back to where it started.
pub proof fn lemma_light_cycle(l: TrafficLight)
    ensures
        next_light(next_light(next_light(l))) == l,
        next_light(l) != l,
{
}

} // verus!
