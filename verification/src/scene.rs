//! What there is to draw: the match as a short list of rectangles and one
//! line of text, in the order in which they are to be painted.

use crate::geometry::{within, Extent, Field, Point, Vec2, Vector, COORD_LIMIT, UNIT};
use crate::state::{MainState, MatchModel};
use crate::state::{BALL_SIZE_HALF, MIDDLE_LINE_WIDTH, PADDLE_HEIGHT_HALF, PADDLE_WIDTH_HALF};
use crate::step::{ball_half, paddle_half};
use vstd::prelude::*;
use vstd::string::StringExecFns;

verus! {

/// Distance between the top of the field and the top of the score.
pub const SCORE_TOP: i64 = 16 * UNIT;

/// What a `Primitive` stands for.
pub enum Shape {
    Rect { x: int, y: int, width: int, height: int },
    Text { content: Seq<char>, x: int, y: int },
}

/// Something to draw. A rectangle is filled; `x` and `y` are its top left
/// corner. A text begins with its top left corner at `x` and `y`.
#[derive(Debug, PartialEq, Eq)]
pub enum Primitive {
    Rect { x: i64, y: i64, width: i64, height: i64 },
    Text { content: String, x: i64, y: i64 },
}

impl View for Primitive {
    type V = Shape;

    open spec fn view(&self) -> Shape {
        match self {
            Primitive::Rect { x, y, width, height } => Shape::Rect {
                x: *x as int,
                y: *y as int,
                width: *width as int,
                height: *height as int,
            },
            Primitive::Text { content, x, y } => Shape::Text {
                content: content@,
                x: *x as int,
                y: *y as int,
            },
        }
    }
}

/// The character that stands for the digit `d`.
pub open spec fn digit_char(d: nat) -> char {
    if d == 0 {
        '0'
    } else if d == 1 {
        '1'
    } else if d == 2 {
        '2'
    } else if d == 3 {
        '3'
    } else if d == 4 {
        '4'
    } else if d == 5 {
        '5'
    } else if d == 6 {
        '6'
    } else if d == 7 {
        '7'
    } else if d == 8 {
        '8'
    } else {
        '9'
    }
}

/// `n` written in base ten, without leading zeros.
pub open spec fn decimal(n: nat) -> Seq<char>
    decreases n,
{
    if n < 10 {
        seq![digit_char(n)]
    } else {
        decimal(n / 10).push(digit_char(n % 10))
    }
}

/// The digit that the character `c` stands for; zero for any other
/// character.
pub open spec fn digit_value(c: char) -> nat {
    if c == '1' {
        1
    } else if c == '2' {
        2
    } else if c == '3' {
        3
    } else if c == '4' {
        4
    } else if c == '5' {
        5
    } else if c == '6' {
        6
    } else if c == '7' {
        7
    } else if c == '8' {
        8
    } else if c == '9' {
        9
    } else {
        0
    }
}

/// The number that the digits of `s` write in base ten.
pub open spec fn decimal_value(s: Seq<char>) -> nat
    decreases s.len(),
{
    if s.len() == 0 {
        0
    } else {
        decimal_value(s.drop_last()) * 10 + digit_value(s.last())
    }
}

/// What `decimal` writes reads back as the number written, and begins with
/// a zero only where the number is zero.
pub proof fn lemma_decimal_reads_back(n: nat)
    ensures
        decimal(n).len() >= 1,
        decimal_value(decimal(n)) == n,
        n > 0 ==> decimal(n)[0] != '0',
    decreases n,
{
    let digits = decimal(n);
    if n < 10 {
        assert(digits.drop_last() =~= Seq::<char>::empty());
        assert(decimal_value(digits.drop_last()) == 0);
        assert(digit_value(digits.last()) == n);
    } else {
        lemma_decimal_reads_back(n / 10);
        assert(digits.drop_last() =~= decimal(n / 10));
        assert(digit_value(digits.last()) == n % 10);
    }
}

/// The ten blanks that stand between the two scores.
pub open spec fn score_gap() -> Seq<char> {
    Seq::new(10, |i: int| ' ')
}

/// The line that shows the two scores.
pub open spec fn label_of(left: nat, right: nat) -> Seq<char> {
    decimal(left) + score_gap() + decimal(right)
}

/// The rectangle with the given centre and half extents.
pub open spec fn box_around(center: Vec2, half: Vec2) -> Shape {
    Shape::Rect {
        x: center.x - half.x,
        y: center.y - half.y,
        width: 2 * half.x,
        height: 2 * half.y,
    }
}

/// All there is to draw of the match `m` on `field`, where the line of the
/// scores is `label_width` wide: the left paddle, the right paddle, the ball,
/// the line that divides the field, and the scores, centred near the top.
pub open spec fn scene_of(m: MatchModel, field: Extent, label_width: int) -> Seq<Shape> {
    seq![
        box_around(m.paddle_left_pos, paddle_half()),
        box_around(m.paddle_right_pos, paddle_half()),
        box_around(m.ball_pos, ball_half()),
        Shape::Rect {
            x: field.width / 2 - MIDDLE_LINE_WIDTH / 2,
            y: 0,
            width: MIDDLE_LINE_WIDTH as int,
            height: field.height,
        },
        Shape::Text {
            content: label_of(m.score_left, m.score_right),
            x: field.width / 2 - label_width / 2,
            y: SCORE_TOP as int,
        },
    ]
}

/// What each primitive of `list` stands for.
pub open spec fn shapes(list: Seq<Primitive>) -> Seq<Shape> {
    list.map_values(|p: Primitive| p@)
}

/// The digit `d` as text.
fn digit(d: u32) -> (r: &'static str)
    requires
        d < 10,
    ensures
        r@ == seq![digit_char(d as nat)],
{
    proof {
        reveal_strlit("0");
        reveal_strlit("1");
        reveal_strlit("2");
        reveal_strlit("3");
        reveal_strlit("4");
        reveal_strlit("5");
        reveal_strlit("6");
        reveal_strlit("7");
        reveal_strlit("8");
        reveal_strlit("9");
    }
    let r = match d {
        0 => "0",
        1 => "1",
        2 => "2",
        3 => "3",
        4 => "4",
        5 => "5",
        6 => "6",
        7 => "7",
        8 => "8",
        _ => "9",
    };
    assert(r@ =~= seq![digit_char(d as nat)]);
    r
}

/// Writes `n` in base ten at the end of `text`.
pub fn push_decimal(text: &mut String, n: u32)
    ensures
        final(text)@ == old(text)@ + decimal(n as nat),
    decreases n,
{
    if n >= 10 {
        push_decimal(text, n / 10);
    }
    text.append(digit(n % 10));
}

/// The line that shows the two scores: the left one, ten blanks, the right
/// one.
pub fn score_label(left: u32, right: u32) -> (label: String)
    ensures
        label@ == label_of(left as nat, right as nat),
{
    let mut label = String::new();
    push_decimal(&mut label, left);
    proof {
        reveal_strlit("          ");
    }
    label.append("          ");
    push_decimal(&mut label, right);
    label
}

/// The filled rectangle with the given centre and half extents.
pub fn rect_around(center: Point, half: Vector) -> (r: Primitive)
    requires
        center.in_range(),
        within(half@, COORD_LIMIT as int),
    ensures
        r@ == box_around(center@, half@),
{
    Primitive::Rect {
        x: center.x - half.x,
        y: center.y - half.y,
        width: 2 * half.x,
        height: 2 * half.y,
    }
}

/// Lists what there is to draw of `state` on `field`, in painting order.
/// `label_width` is the width that the host has measured for the line of
/// the scores, which is centred on the middle of the field.
pub fn scene(state: &MainState, field: Field, label_width: i64) -> (list: Vec<Primitive>)
    requires
        state.in_range(),
        field.in_range(),
        0 <= label_width <= COORD_LIMIT,
    ensures
        shapes(list@) == scene_of(state@, field@, label_width as int),
{
    let paddle = Vector { x: PADDLE_WIDTH_HALF, y: PADDLE_HEIGHT_HALF };
    let ball = Vector { x: BALL_SIZE_HALF, y: BALL_SIZE_HALF };
    let middle = field.width / 2;
    let mut list: Vec<Primitive> = Vec::new();
    list.push(rect_around(state.paddle_left_pos, paddle));
    list.push(rect_around(state.paddle_right_pos, paddle));
    list.push(rect_around(state.ball_pos, ball));
    list.push(
        Primitive::Rect {
            x: middle - MIDDLE_LINE_WIDTH / 2,
            y: 0,
            width: MIDDLE_LINE_WIDTH,
            height: field.height,
        },
    );
    list.push(
        Primitive::Text {
            content: score_label(state.score_left, state.score_right),
            x: middle - label_width / 2,
            y: SCORE_TOP,
        },
    );
    assert(shapes(list@) =~= scene_of(state@, field@, label_width as int));
    list
}

} // verus!
