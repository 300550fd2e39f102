use vstd::prelude::*;

verus! {

/// The first of 4, 3 and 2 that divides `number`, if any does.
pub fn divisor_of(number: u32) -> (r: Option<u32>)
    ensures
        r == if number % 4 == 0 {
            Some(4u32)
        } else if number % 3 == 0 {
            Some(3u32)
        } else if number % 2 == 0 {
            Some(2u32)
        } else {
            None
        },
{
    if number % 4 == 0 {
        Some(4)
    } else if number % 3 == 0 {
        Some(3)
    } else if number % 2 == 0 {
        Some(2)
    } else {
        None
    }
}

/// The values `from`, `from - 1`, ..., `1`, counted down in a loop.
pub fn countdown(from: u32) -> (r: Vec<u32>)
    ensures
        r@.len() == from,
        forall|k: int| 0 <= k < from ==> r@[k] == from - k,
{
    let mut r: Vec<u32> = Vec::new();
    let mut x: u32 = from;
    while x > 0
        invariant
            x <= from,
            r@.len() == from - x,
            forall|k: int| 0 <= k < r@.len() ==> r@[k] == from - k,
        decreases x,
    {
        r.push(x);
        x -= 1;
    }
    r
}

/// Counts up to ten in a loop and leaves it with twice the count.
pub fn loop_return_val() -> (r: u32)
    ensures
        r == 20,
{
    let mut counter: u32 = 0;
    let result: u32;
    loop
        invariant_except_break
            counter < 10,
        ensures
            result == 20,
        decreases 10 - counter,
    {
        counter += 1;
        if counter == 10 {
            result = counter * 2;
            break;
        }
    }
    result
}

/// A line printed by the nested counting loops.
#[derive(PartialEq, Eq, Structural, Clone, Copy, Debug)]
pub enum LoopTrace {
    Count(u32),
    Remaining(u32),
}

/// What the nested loops print: each pass of the outer loop prints its count
/// and counts `remaining` down from 10 to 9; the third pass leaves both loops
/// at once.
pub open spec fn nested_trace() -> Seq<LoopTrace> {
    seq![
        LoopTrace::Count(0), LoopTrace::Remaining(10), LoopTrace::Remaining(9),
        LoopTrace::Count(1), LoopTrace::Remaining(10), LoopTrace::Remaining(9),
        LoopTrace::Count(2), LoopTrace::Remaining(10),
    ]
}

/// Runs the nested counting loops and returns the lines they print, in order.
pub fn nested_loop() -> (r: Vec<LoopTrace>)
    ensures
        r@ == nested_trace(),
{
    let mut r: Vec<LoopTrace> = Vec::new();
    let mut count: u32 = 0;
    let mut done = false;
    while !done
        invariant
            count <= 2,
            !done ==> r@ == nested_trace().subrange(0, 3 * count as int),
            done ==> r@ == nested_trace(),
        decreases 3 - count - if done { 1int } else { 0int },
    {
        r.push(LoopTrace::Count(count));
        assert(r@ =~= nested_trace().subrange(0, 3 * count + 1));
        let mut remaining: u32 = 10;
        loop
            invariant_except_break
                count <= 2,
                9 <= remaining <= 10,
                count == 2 ==> remaining == 10,
                !done,
                r@ == nested_trace().subrange(0, 3 * count + 1 + (10 - remaining)),
            ensures
                count <= 2,
                !done ==> count < 2 && r@ == nested_trace().subrange(0, 3 * count + 3),
                done ==> r@ == nested_trace(),
            decreases remaining,
        {
            r.push(LoopTrace::Remaining(remaining));
            assert(r@ =~= nested_trace().subrange(0, 3 * count + 2 + (10 - remaining)));
            if remaining == 9 {
                break;
            }
            if count == 2 {
                assert(r@ =~= nested_trace());
                done = true;
                break;
            }
            remaining -= 1;
        }
        if !done {
            count += 1;
        }
    }
    r
}

} // verus!
