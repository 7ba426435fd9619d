//! Matrix stacks. A stack always keeps its base element: a pop that would
//! remove it does nothing.

use vstd::prelude::*;

verus! {

/// A stack after a push.
pub open spec fn pushed(stack: Seq<glam::Mat4>, m: glam::Mat4) -> Seq<glam::Mat4> {
    stack.push(m)
}

/// A stack after a pop: the base element is never removed.
pub open spec fn popped(stack: Seq<glam::Mat4>) -> Seq<glam::Mat4> {
    if stack.len() > 1 {
        stack.drop_last()
    } else {
        stack
    }
}

/// A stack with its top element replaced.
pub open spec fn with_top(stack: Seq<glam::Mat4>, m: glam::Mat4) -> Seq<glam::Mat4> {
    stack.update(stack.len() - 1, m)
}

/// One operation on a matrix stack.
pub enum StackOp {
    /// Push this matrix.
    Push(glam::Mat4),
    /// Pop the top, unless it is the base element.
    Pop,
}

/// The stack after the operations have been carried out, first to last.
pub open spec fn after_ops(stack: Seq<glam::Mat4>, ops: Seq<StackOp>) -> Seq<glam::Mat4>
    decreases ops.len(),
{
    if ops.len() == 0 {
        stack
    } else {
        match ops.last() {
            StackOp::Push(m) => pushed(after_ops(stack, ops.drop_last()), m),
            StackOp::Pop => popped(after_ops(stack, ops.drop_last())),
        }
    }
}

/// The number of pushes among the operations.
pub open spec fn pushes(ops: Seq<StackOp>) -> nat
    decreases ops.len(),
{
    if ops.len() == 0 {
        0
    } else {
        pushes(ops.drop_last()) + if ops.last() is Push {
            1nat
        } else {
            0nat
        }
    }
}

/// The number of pops among the operations.
pub open spec fn pops(ops: Seq<StackOp>) -> nat
    decreases ops.len(),
{
    if ops.len() == 0 {
        0
    } else {
        pops(ops.drop_last()) + if ops.last() is Pop {
            1nat
        } else {
            0nat
        }
    }
}

/// No pop finds the stack with only its base element: at every point, the
/// pops so far are covered by the elements above the base and the pushes so
/// far.
pub open spec fn pops_are_covered(len: nat, ops: Seq<StackOp>) -> bool {
    forall|k: int|
        0 <= k <= ops.len() ==> #[trigger] pops(ops.take(k)) + 1 <= len + pushes(ops.take(k))
}

/// A stack never loses its base element, whatever is done to it.
pub proof fn lemma_stack_never_empty(stack: Seq<glam::Mat4>, ops: Seq<StackOp>)
    requires
        stack.len() >= 1,
    ensures
        after_ops(stack, ops).len() >= 1,
        after_ops(stack, ops).len() + pops(ops) >= stack.len() + pushes(ops),
    decreases ops.len(),
{
    if ops.len() > 0 {
        lemma_stack_never_empty(stack, ops.drop_last());
    }
}

/// Popping a stack that holds only its base element leaves it as it is.
pub proof fn lemma_pop_keeps_base(stack: Seq<glam::Mat4>)
    requires
        stack.len() == 1,
    ensures
        popped(stack) == stack,
        popped(stack).len() == 1,
{
}

/// After pushes and pops in any order, of which no pop found the stack with
/// only its base element, the stack is longer by the number of pushes and
/// shorter by the number of pops. Starting from the base element alone, `n`
/// pushes and `m` pops leave `1 + n - m` elements.
pub proof fn lemma_stack_length(stack: Seq<glam::Mat4>, ops: Seq<StackOp>)
    requires
        stack.len() >= 1,
        pops_are_covered(stack.len(), ops),
    ensures
        after_ops(stack, ops).len() == stack.len() + pushes(ops) - pops(ops),
    decreases ops.len(),
{
    if ops.len() > 0 {
        let front = ops.drop_last();
        assert forall|k: int| 0 <= k <= front.len() implies #[trigger] pops(front.take(k)) + 1
            <= stack.len() + pushes(front.take(k)) by {
            assert(front.take(k) == ops.take(k));
        }
        lemma_stack_length(stack, front);
        assert(ops.take(ops.len() as int) == ops);
        assert(pops(ops.take(ops.len() as int)) + 1 <= stack.len() + pushes(
            ops.take(ops.len() as int),
        ));
    }
}

} // verus!
