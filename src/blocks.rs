//! Statements, blocks and expressions.
use vstd::prelude::*;

verus! {

/// Sum of `x + shift` over the elements `x` of `s`.
pub open spec fn shifted_sum(s: Seq<i32>, shift: int) -> int
    decreases s.len(),
{
    if s.len() == 0 {
        0
    } else {
        shifted_sum(s.drop_last(), shift) + s.last() + shift
    }
}

/// A statement may span several lines: the eight numbers one to eight, each
/// raised by three, are summed. Returns the string binding and the sum.
pub fn semi_colon_statements() -> (r: (&'static str, i32))
    ensures
        r.0@ == "bar"@,
        r.1 == shifted_sum(seq![1i32, 2, 3, 4, 5, 6, 7, 8], 3),
        r.1 == 60,
{
    let foo = "bar";
    let v: Vec<i32> = vec![1, 2, 3, 4, 5, 6, 7, 8];
    let ghost items = seq![1i32, 2, 3, 4, 5, 6, 7, 8];
    assert(v@ =~= items);
    assert forall|j: int| 0 <= j < items.len() implies 1 <= #[trigger] items[j] <= 8 by {}
    let mut total: i32 = 0;
    let mut i: usize = 0;
    while i < v.len()
        invariant
            v@ == items,
            forall|j: int| 0 <= j < items.len() ==> 1 <= #[trigger] items[j] <= 8,
            i <= v@.len(),
            v@.len() == 8,
            total == shifted_sum(v@.take(i as int), 3),
            0 <= total <= 11 * i,
        decreases v.len() - i,
    {
        assert(v@.take(i as int + 1).drop_last() =~= v@.take(i as int));
        total = total + (v[i] + 3);
        i = i + 1;
    }
    assert(v@.take(8) =~= items);
    proof {
        reveal_with_fuel(shifted_sum, 9);
    }
    (foo, total)
}

/// An inner block binds its own `x`, which hides the outer one until the block
/// ends. Returns the value seen inside the block, then the one seen after it.
pub fn block_scoping() -> (r: (&'static str, &'static str))
    ensures
        r.0@ == "inside"@,
        r.1@ == "out"@,
{
    let x = "out";
    let seen_inside = {
        let x = "inside";
        x
    };
    (seen_inside, x)
}

/// A block is an expression: `{ 42 }` has the value 42.
pub fn blocks_are_expressions() -> (r: (i32, i32))
    ensures
        r == (42i32, 42i32),
{
    let x: i32 = 42;
    let x2: i32 = { 42 };
    (x, x2)
}

/// A block of several statements has the value of its last expression.
pub fn multiple_statement_blocks() -> (r: i32)
    ensures
        r == 3,
{
    let x: i32 = {
        let y: i32 = 1;
        let z: i32 = 2;
        y + z
    };
    x
}

/// Returns with an explicit `return` statement.
pub fn fair_dice_roll() -> (r: i32)
    ensures
        r == 5,
{
    return 5;
}

/// Returns the value of its final expression.
pub fn fair_dice_roll_imp() -> (r: i32)
    ensures
        r == 5,
{
    5
}

/// An `if` is an expression: seven when feeling lucky, four otherwise.
pub fn fair_dice_roll_conditional() -> (r: i32)
    ensures
        r == 7,
{
    let feeling_lucky = true;
    if feeling_lucky {
        7
    } else {
        4
    }
}

/// A `match` is an expression too: eight when feeling lucky, four otherwise.
pub fn expressions() -> (r: i32)
    ensures
        r == 4,
{
    let feeling_lucky = false;
    let is_lucky: i32 = match feeling_lucky {
        true => 8,
        false => 4,
    };
    is_lucky
}

} // verus!
