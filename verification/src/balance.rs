//! The stack-discipline law: a strictly balanced interleaving of pushes
//! and pops never underflows and leaves the stack exactly as it found it.
//!
//! The law is stated over an abstract interpreter for push/pop sequences
//! and proved once for every entry type; `run_width_ops` ties the
//! interpreter to the real item-width stack operations, so the law speaks
//! about what the library actually does.

use vstd::prelude::*;

verus! {

use crate::UiError;
use crate::context::{ImGui, PushPop};
use crate::session::{session_error, unchanged_except_width, Ui};

/// One stack operation.
#[derive(Clone, Copy, Debug, PartialEq, Eq)]
pub enum StackOp<T> {
    Push(T),
    Pop,
}

/// How one operation moves the stack depth.
pub open spec fn op_delta<T>(op: StackOp<T>) -> int {
    match op {
        StackOp::Push(_) => 1,
        StackOp::Pop => -1,
    }
}

/// Net depth change of a whole sequence.
pub open spec fn depth<T>(ops: Seq<StackOp<T>>) -> int
    decreases ops.len(),
{
    if ops.len() == 0 {
        0
    } else {
        depth(ops.drop_last()) + op_delta(ops.last())
    }
}

/// How many operations are pushes.
pub open spec fn count_pushes<T>(ops: Seq<StackOp<T>>) -> int
    decreases ops.len(),
{
    if ops.len() == 0 {
        0
    } else {
        count_pushes(ops.drop_last()) + (if ops.last() is Push {
            1int
        } else {
            0int
        })
    }
}

/// How many operations are pops.
pub open spec fn count_pops<T>(ops: Seq<StackOp<T>>) -> int
    decreases ops.len(),
{
    if ops.len() == 0 {
        0
    } else {
        count_pops(ops.drop_last()) + (if ops.last() is Pop {
            1int
        } else {
            0int
        })
    }
}

/// Pushes and pops together account for every operation.
pub proof fn lemma_counts_split<T>(ops: Seq<StackOp<T>>)
    ensures
        count_pushes(ops) >= 0,
        count_pops(ops) >= 0,
        count_pushes(ops) + count_pops(ops) == ops.len(),
        depth(ops) == count_pushes(ops) - count_pops(ops),
    decreases ops.len(),
{
    if ops.len() > 0 {
        lemma_counts_split(ops.drop_last());
    }
}

/// A sequence is stack-legal, or balanced: no prefix pops more than was
/// pushed before it, and overall the pushes and pops cancel out.
pub open spec fn balanced<T>(ops: Seq<StackOp<T>>) -> bool {
    &&& forall|i: int| 0 <= i <= ops.len() ==> depth(#[trigger] ops.take(i)) >= 0
    &&& depth(ops) == 0
}

/// What running a sequence of operations does to a stack: `None` exactly
/// when some pop hits an empty stack.
pub open spec fn apply_ops<T>(stack: Seq<T>, ops: Seq<StackOp<T>>) -> Option<Seq<T>>
    decreases ops.len(),
{
    if ops.len() == 0 {
        Some(stack)
    } else {
        match ops[0] {
            StackOp::Push(v) => apply_ops(stack.push(v), ops.drop_first()),
            StackOp::Pop => if stack.len() > 0 {
                apply_ops(stack.drop_last(), ops.drop_first())
            } else {
                None
            },
        }
    }
}

/// Running one operation, spelled out.
pub proof fn lemma_apply_one<T>(stack: Seq<T>, op: StackOp<T>)
    ensures
        apply_ops(stack, seq![op]) == (match op {
            StackOp::Push(v) => Some(stack.push(v)),
            StackOp::Pop => if stack.len() > 0 {
                Some(stack.drop_last())
            } else {
                None::<Seq<T>>
            },
        }),
{
    reveal_with_fuel(apply_ops, 3);
    assert(seq![op].len() == 1);
    assert(seq![op][0] == op);
    assert(seq![op].drop_first() =~= Seq::<StackOp<T>>::empty());
}

/// Running a concatenation runs the two halves in order; a failure in the
/// first half is final.
pub proof fn lemma_apply_append<T>(stack: Seq<T>, a: Seq<StackOp<T>>, b: Seq<StackOp<T>>)
    ensures
        apply_ops(stack, a + b) == (match apply_ops(stack, a) {
            Some(t) => apply_ops(t, b),
            None => None::<Seq<T>>,
        }),
    decreases a.len(),
{
    if a.len() == 0 {
        assert(a + b =~= b);
    } else {
        assert((a + b)[0] == a[0]);
        assert((a + b).drop_first() =~= a.drop_first() + b);
        match a[0] {
            StackOp::Push(v) => {
                lemma_apply_append(stack.push(v), a.drop_first(), b);
            },
            StackOp::Pop => {
                if stack.len() > 0 {
                    lemma_apply_append(stack.drop_last(), a.drop_first(), b);
                }
            },
        }
    }
}

/// Depth seen from the front: the first operation's change plus the rest.
proof fn lemma_depth_drop_first<T>(ops: Seq<StackOp<T>>)
    requires
        ops.len() > 0,
    ensures
        depth(ops) == op_delta(ops[0]) + depth(ops.drop_first()),
    decreases ops.len(),
{
    if ops.len() == 1 {
        assert(ops.drop_first() =~= Seq::<StackOp<T>>::empty());
        assert(ops.drop_last() =~= Seq::<StackOp<T>>::empty());
    } else {
        lemma_depth_drop_first(ops.drop_last());
        assert(ops.drop_last()[0] == ops[0]);
        assert(ops.drop_first().drop_last() =~= ops.drop_last().drop_first());
        assert(ops.drop_first().last() == ops.last());
        assert(depth(ops.drop_first()) == depth(ops.drop_first().drop_last()) + op_delta(
            ops.drop_first().last(),
        ));
    }
}

/// The workhorse induction: as long as every prefix keeps the running
/// depth from digging below the bottom mark `b`, the run never fails, the
/// final depth is the net depth, and the bottom `b` entries are never
/// touched.
proof fn lemma_apply_preserves_bottom<T>(stack: Seq<T>, ops: Seq<StackOp<T>>, b: int)
    requires
        0 <= b <= stack.len(),
        forall|i: int| 0 <= i <= ops.len() ==> stack.len() + depth(#[trigger] ops.take(i)) >= b,
    ensures
        apply_ops(stack, ops) is Some,
        apply_ops(stack, ops)->Some_0.len() == stack.len() + depth(ops),
        apply_ops(stack, ops)->Some_0.take(b) == stack.take(b),
    decreases ops.len(),
{
    if ops.len() == 0 {
        assert(ops.take(0) =~= ops);
    } else {
        let rest = ops.drop_first();
        assert(ops.take(ops.len() as int) =~= ops);
        lemma_depth_drop_first(ops);
        assert forall|i: int| 0 <= i <= rest.len() implies op_delta(ops[0]) + depth(
            #[trigger] rest.take(i),
        ) == depth(ops.take(i + 1)) by {
            lemma_depth_drop_first(ops.take(i + 1));
            assert(ops.take(i + 1)[0] == ops[0]);
            assert(ops.take(i + 1).drop_first() =~= rest.take(i));
        }
        match ops[0] {
            StackOp::Push(v) => {
                let stack2 = stack.push(v);
                assert forall|i: int| 0 <= i <= rest.len() implies stack2.len() + depth(
                    #[trigger] rest.take(i),
                ) >= b by {
                    assert(stack.len() + depth(ops.take(i + 1)) >= b);
                }
                lemma_apply_preserves_bottom(stack2, rest, b);
                assert(stack2.take(b) =~= stack.take(b));
            },
            StackOp::Pop => {
                assert(stack.len() + depth(ops.take(1)) >= b);
                reveal_with_fuel(depth, 3);
                assert(ops.take(1).len() == 1);
                assert(ops.take(1).drop_last() =~= Seq::<StackOp<T>>::empty());
                assert(ops.take(1).last() == ops[0]);
                assert(depth(ops.take(1)) == -1);
                assert(stack.len() >= b + 1);
                let stack2 = stack.drop_last();
                assert forall|i: int| 0 <= i <= rest.len() implies stack2.len() + depth(
                    #[trigger] rest.take(i),
                ) >= b by {
                    assert(stack.len() + depth(ops.take(i + 1)) >= b);
                }
                lemma_apply_preserves_bottom(stack2, rest, b);
                assert(stack2.take(b) =~= stack.take(b));
            },
        }
    }
}

/// The stack-discipline law: a balanced sequence of operations never
/// underflows, and the stack it leaves behind is exactly the stack it
/// started from — whatever was on it before the sequence began.
pub proof fn lemma_balanced_ops_preserve_stack<T>(stack: Seq<T>, ops: Seq<StackOp<T>>)
    requires
        balanced(ops),
    ensures
        apply_ops(stack, ops) == Some(stack),
{
    assert forall|i: int| 0 <= i <= ops.len() implies stack.len() + depth(
        #[trigger] ops.take(i),
    ) >= stack.len() by {
        assert(depth(ops.take(i)) >= 0);
    }
    lemma_apply_preserves_bottom(stack, ops, stack.len() as int);
    let t = apply_ops(stack, ops)->Some_0;
    assert(t.take(stack.len() as int) =~= t);
    assert(stack.take(stack.len() as int) =~= stack);
    assert(t =~= stack);
}

/// The same law read from an empty stack: a balanced run ends with the
/// stack empty and raises no underflow.
pub proof fn lemma_balanced_ops_from_empty<T>(ops: Seq<StackOp<T>>)
    requires
        balanced(ops),
    ensures
        apply_ops(Seq::<T>::empty(), ops) == Some(Seq::<T>::empty()),
{
    lemma_balanced_ops_preserve_stack(Seq::<T>::empty(), ops);
}

impl Ui {
    /// Replays a recorded sequence of push/pop operations against the
    /// item-width stack. Succeeds exactly when the interpreter does; on
    /// success the stack is what the interpreter computes, and the
    /// counters record every push and pop performed.
    pub fn run_width_ops(&self, ctx: &mut ImGui, ops: &Vec<StackOp<i32>>) -> (r: Result<
        (),
        UiError,
    >)
        requires
            old(ctx).wf(),
            old(ctx).width_ops.pushes + ops@.len() <= u64::MAX,
        ensures
            final(ctx).wf(),
            !old(ctx).is_current(*self) ==> r == Err::<(), UiError>(session_error(*old(ctx), *self))
                && *final(ctx) == *old(ctx),
            old(ctx).is_current(*self) ==> {
                &&& (r is Ok <==> apply_ops(old(ctx).width_stack@, ops@) is Some)
                &&& r is Err ==> r == Err::<(), UiError>(UiError::StackUnderflow)
                &&& r is Ok ==> final(ctx).width_stack@ == apply_ops(
                    old(ctx).width_stack@,
                    ops@,
                )->Some_0
                &&& r is Ok ==> final(ctx).width_ops == (PushPop {
                    pushes: (old(ctx).width_ops.pushes + count_pushes(ops@)) as u64,
                    pops: (old(ctx).width_ops.pops + count_pops(ops@)) as u64,
                })
                &&& unchanged_except_width(*old(ctx), *final(ctx))
            },
    {
        if !ctx.frame_active {
            return Err(UiError::NoActiveFrame);
        }
        if self.generation != ctx.generation {
            return Err(UiError::StaleSession);
        }
        let ghost orig: ImGui = *ctx;
        let n: usize = ops.len();
        let mut i: usize = 0;
        while i < n
            invariant
                n == ops@.len(),
                0 <= i <= n,
                ctx.wf(),
                orig.wf(),
                ctx.frame_active,
                orig == *old(ctx),
                old(ctx).is_current(*self),
                orig.width_ops.pushes + n <= u64::MAX,
                apply_ops(orig.width_stack@, ops@.take(i as int)) == Some(ctx.width_stack@),
                ctx.width_ops.pushes == orig.width_ops.pushes + count_pushes(ops@.take(i as int)),
                ctx.width_ops.pops == orig.width_ops.pops + count_pops(ops@.take(i as int)),
                unchanged_except_width(orig, *ctx),
            decreases n - i,
        {
            proof {
                lemma_counts_split(ops@.take(i as int));
                lemma_counts_split(ops@.take(i + 1));
                assert(ops@.take(i + 1) =~= ops@.take(i as int) + seq![ops@[i as int]]);
                assert(ops@.take(i + 1).drop_last() =~= ops@.take(i as int));
                lemma_apply_append(orig.width_stack@, ops@.take(i as int), seq![ops@[i as int]]);
                lemma_apply_one(ctx.width_stack@, ops@[i as int]);
            }
            match ops[i] {
                StackOp::Push(w) => {
                    ctx.width_stack.push(w);
                    ctx.width_ops.pushes = ctx.width_ops.pushes + 1;
                },
                StackOp::Pop => {
                    if ctx.width_stack.len() == 0 {
                        proof {
                            assert(apply_ops(orig.width_stack@, ops@.take(i + 1)) is None);
                            assert(ops@ =~= ops@.take(i + 1) + ops@.skip(i + 1));
                            lemma_apply_append(
                                orig.width_stack@,
                                ops@.take(i + 1),
                                ops@.skip(i + 1),
                            );
                        }
                        return Err(UiError::StackUnderflow);
                    }
                    ctx.width_stack.pop();
                    ctx.width_ops.pops = ctx.width_ops.pops + 1;
                },
            }
            i += 1;
        }
        proof {
            assert(ops@.take(n as int) =~= ops@);
        }
        Ok(())
    }
}

} // verus!
