//! The frame session: the capability that must be held to issue
//! frame-scoped calls.
//!
//! `ImGui::frame` hands out a fresh `Ui` each tick and bumps the context's
//! generation; a `Ui` whose generation no longer matches the context is
//! stale, and every operation checks this before touching engine state.
//! Stack operations keep per-frame push/pop counts so that balance is both
//! provable and observable.

use vstd::prelude::*;

verus! {

use crate::{ImId, UiError};
use crate::context::{ImGui, PushPop};
use crate::draw::DrawData;
use crate::style::{color_entries_of, style_entries_of, ColorEntry, StyleVar};

/// Capability token for the current frame. At most one token can match the
/// context's generation at a time, so at most one session is ever active.
#[derive(Debug)]
pub struct Ui {
    pub generation: u64,
}

/// `post` differs from `pre` at most in the identifier stack and its
/// counters.
pub open spec fn unchanged_except_id(pre: ImGui, post: ImGui) -> bool {
    post == (ImGui { id_stack: post.id_stack, id_ops: post.id_ops, ..pre })
}

/// `post` differs from `pre` at most in the style-variable stack and its
/// counters.
pub open spec fn unchanged_except_style(pre: ImGui, post: ImGui) -> bool {
    post == (ImGui { style_stack: post.style_stack, style_ops: post.style_ops, ..pre })
}

/// `post` differs from `pre` at most in the color stack and its counters.
pub open spec fn unchanged_except_color(pre: ImGui, post: ImGui) -> bool {
    post == (ImGui { color_stack: post.color_stack, color_ops: post.color_ops, ..pre })
}

/// `post` differs from `pre` at most in the item-width stack and its
/// counters.
pub open spec fn unchanged_except_width(pre: ImGui, post: ImGui) -> bool {
    post == (ImGui { width_stack: post.width_stack, width_ops: post.width_ops, ..pre })
}

/// `post` differs from `pre` at most in the style and color stacks and
/// their counters.
pub open spec fn unchanged_except_style_color(pre: ImGui, post: ImGui) -> bool {
    post == (ImGui {
        style_stack: post.style_stack,
        style_ops: post.style_ops,
        color_stack: post.color_stack,
        color_ops: post.color_ops,
        ..pre
    })
}

/// The error a frame-scoped call reports when its session is not the
/// context's current one: no frame at all, or a handle whose generation
/// the context has moved past.
pub open spec fn session_error(pre: ImGui, sess: Ui) -> UiError {
    if pre.frame_active && sess.generation != pre.generation {
        UiError::StaleSession
    } else {
        UiError::NoActiveFrame
    }
}

impl Ui {
    /// Whether the engine claims the pointer this tick.
    pub fn want_capture_mouse(&self, ctx: &ImGui) -> (r: bool)
        ensures
            r == ctx.io.want_capture_mouse,
    {
        ctx.io.want_capture_mouse
    }

    /// Whether the engine claims the keyboard this tick.
    pub fn want_capture_keyboard(&self, ctx: &ImGui) -> (r: bool)
        ensures
            r == ctx.io.want_capture_keyboard,
    {
        ctx.io.want_capture_keyboard
    }

    /// Pushes an identifier onto the identifier stack.
    pub fn push_id(&self, ctx: &mut ImGui, id: ImId) -> (r: Result<(), UiError>)
        requires
            old(ctx).wf(),
            old(ctx).id_ops.pushes < u64::MAX,
        ensures
            final(ctx).wf(),
            !old(ctx).is_current(*self) ==> r == Err::<(), UiError>(session_error(*old(ctx), *self))
                && *final(ctx) == *old(ctx),
            old(ctx).is_current(*self) ==> {
                &&& r is Ok
                &&& final(ctx).id_stack@ == old(ctx).id_stack@.push(id)
                &&& final(ctx).id_ops == (PushPop {
                    pushes: (old(ctx).id_ops.pushes + 1) as u64,
                    pops: old(ctx).id_ops.pops,
                })
                &&& unchanged_except_id(*old(ctx), *final(ctx))
            },
    {
        if !ctx.frame_active {
            return Err(UiError::NoActiveFrame);
        }
        if self.generation != ctx.generation {
            return Err(UiError::StaleSession);
        }
        ctx.id_stack.push(id);
        ctx.id_ops.pushes = ctx.id_ops.pushes + 1;
        Ok(())
    }

    /// Pops the identifier stack. Popping an empty stack would corrupt the
    /// engine beyond recovery, so it is refused and reported instead.
    pub fn pop_id(&self, ctx: &mut ImGui) -> (r: Result<(), UiError>)
        requires
            old(ctx).wf(),
        ensures
            final(ctx).wf(),
            !old(ctx).is_current(*self) ==> r == Err::<(), UiError>(session_error(*old(ctx), *self))
                && *final(ctx) == *old(ctx),
            old(ctx).is_current(*self) && old(ctx).id_stack@.len() == 0 ==> r == Err::<(),
                UiError,
            >(UiError::StackUnderflow) && *final(ctx) == *old(ctx),
            old(ctx).is_current(*self) && old(ctx).id_stack@.len() > 0 ==> {
                &&& r is Ok
                &&& final(ctx).id_stack@ == old(ctx).id_stack@.drop_last()
                &&& final(ctx).id_ops == (PushPop {
                    pushes: old(ctx).id_ops.pushes,
                    pops: (old(ctx).id_ops.pops + 1) as u64,
                })
                &&& unchanged_except_id(*old(ctx), *final(ctx))
            },
    {
        if !ctx.frame_active {
            return Err(UiError::NoActiveFrame);
        }
        if self.generation != ctx.generation {
            return Err(UiError::StaleSession);
        }
        if ctx.id_stack.len() == 0 {
            return Err(UiError::StackUnderflow);
        }
        ctx.id_stack.pop();
        ctx.id_ops.pops = ctx.id_ops.pops + 1;
        Ok(())
    }

    /// Runs `f` with an identifier temporarily pushed. Whatever `f`
    /// returns, the pop happens: pops performed equal pushes performed,
    /// and the stack comes back as it was.
    pub fn with_id<E, F: FnOnce() -> Result<(), E>>(
        &self,
        ctx: &mut ImGui,
        id: ImId,
        f: F,
    ) -> (r: Result<Result<(), E>, UiError>)
        requires
            old(ctx).wf(),
            old(ctx).id_ops.pushes < u64::MAX,
            call_requires(f, ()),
        ensures
            final(ctx).wf(),
            !old(ctx).is_current(*self) ==> r == Err::<Result<(), E>, UiError>(
                session_error(*old(ctx), *self),
            ) && *final(ctx) == *old(ctx),
            old(ctx).is_current(*self) ==> {
                &&& r matches Ok(inner) && call_ensures(f, (), inner)
                &&& final(ctx).id_stack@ == old(ctx).id_stack@
                &&& final(ctx).id_ops == (PushPop {
                    pushes: (old(ctx).id_ops.pushes + 1) as u64,
                    pops: (old(ctx).id_ops.pops + 1) as u64,
                })
                &&& unchanged_except_id(*old(ctx), *final(ctx))
            },
    {
        if !ctx.frame_active {
            return Err(UiError::NoActiveFrame);
        }
        if self.generation != ctx.generation {
            return Err(UiError::StaleSession);
        }
        ctx.id_stack.push(id);
        ctx.id_ops.pushes = ctx.id_ops.pushes + 1;
        let inner = f();
        ctx.id_stack.pop();
        ctx.id_ops.pops = ctx.id_ops.pops + 1;
        Ok(inner)
    }

    /// Pushes a value onto the item-width stack, in thousandths.
    pub fn push_item_width(&self, ctx: &mut ImGui, width_milli: i32) -> (r: Result<(), UiError>)
        requires
            old(ctx).wf(),
            old(ctx).width_ops.pushes < u64::MAX,
        ensures
            final(ctx).wf(),
            !old(ctx).is_current(*self) ==> r == Err::<(), UiError>(session_error(*old(ctx), *self))
                && *final(ctx) == *old(ctx),
            old(ctx).is_current(*self) ==> {
                &&& r is Ok
                &&& final(ctx).width_stack@ == old(ctx).width_stack@.push(width_milli)
                &&& final(ctx).width_ops == (PushPop {
                    pushes: (old(ctx).width_ops.pushes + 1) as u64,
                    pops: old(ctx).width_ops.pops,
                })
                &&& unchanged_except_width(*old(ctx), *final(ctx))
            },
    {
        if !ctx.frame_active {
            return Err(UiError::NoActiveFrame);
        }
        if self.generation != ctx.generation {
            return Err(UiError::StaleSession);
        }
        ctx.width_stack.push(width_milli);
        ctx.width_ops.pushes = ctx.width_ops.pushes + 1;
        Ok(())
    }

    /// Pops the item-width stack, refusing underflow.
    pub fn pop_item_width(&self, ctx: &mut ImGui) -> (r: Result<(), UiError>)
        requires
            old(ctx).wf(),
        ensures
            final(ctx).wf(),
            !old(ctx).is_current(*self) ==> r == Err::<(), UiError>(session_error(*old(ctx), *self))
                && *final(ctx) == *old(ctx),
            old(ctx).is_current(*self) && old(ctx).width_stack@.len() == 0 ==> r == Err::<(),
                UiError,
            >(UiError::StackUnderflow) && *final(ctx) == *old(ctx),
            old(ctx).is_current(*self) && old(ctx).width_stack@.len() > 0 ==> {
                &&& r is Ok
                &&& final(ctx).width_stack@ == old(ctx).width_stack@.drop_last()
                &&& final(ctx).width_ops == (PushPop {
                    pushes: old(ctx).width_ops.pushes,
                    pops: (old(ctx).width_ops.pops + 1) as u64,
                })
                &&& unchanged_except_width(*old(ctx), *final(ctx))
            },
    {
        if !ctx.frame_active {
            return Err(UiError::NoActiveFrame);
        }
        if self.generation != ctx.generation {
            return Err(UiError::StaleSession);
        }
        if ctx.width_stack.len() == 0 {
            return Err(UiError::StackUnderflow);
        }
        ctx.width_stack.pop();
        ctx.width_ops.pops = ctx.width_ops.pops + 1;
        Ok(())
    }

    /// Runs `f` with an item width temporarily pushed; the pop is
    /// guaranteed whatever `f` returns.
    pub fn with_item_width<E, F: FnOnce() -> Result<(), E>>(
        &self,
        ctx: &mut ImGui,
        width_milli: i32,
        f: F,
    ) -> (r: Result<Result<(), E>, UiError>)
        requires
            old(ctx).wf(),
            old(ctx).width_ops.pushes < u64::MAX,
            call_requires(f, ()),
        ensures
            final(ctx).wf(),
            !old(ctx).is_current(*self) ==> r == Err::<Result<(), E>, UiError>(
                session_error(*old(ctx), *self),
            ) && *final(ctx) == *old(ctx),
            old(ctx).is_current(*self) ==> {
                &&& r matches Ok(inner) && call_ensures(f, (), inner)
                &&& final(ctx).width_stack@ == old(ctx).width_stack@
                &&& final(ctx).width_ops == (PushPop {
                    pushes: (old(ctx).width_ops.pushes + 1) as u64,
                    pops: (old(ctx).width_ops.pops + 1) as u64,
                })
                &&& unchanged_except_width(*old(ctx), *final(ctx))
            },
    {
        if !ctx.frame_active {
            return Err(UiError::NoActiveFrame);
        }
        if self.generation != ctx.generation {
            return Err(UiError::StaleSession);
        }
        ctx.width_stack.push(width_milli);
        ctx.width_ops.pushes = ctx.width_ops.pushes + 1;
        let inner = f();
        ctx.width_stack.pop();
        ctx.width_ops.pops = ctx.width_ops.pops + 1;
        Ok(inner)
    }

    /// Runs `f` with one style variable temporarily overridden; the pop is
    /// guaranteed whatever `f` returns.
    pub fn with_style_var<E, F: FnOnce() -> Result<(), E>>(
        &self,
        ctx: &mut ImGui,
        style_var: StyleVar,
        f: F,
    ) -> (r: Result<Result<(), E>, UiError>)
        requires
            old(ctx).wf(),
            old(ctx).style_ops.pushes < u64::MAX,
            call_requires(f, ()),
        ensures
            final(ctx).wf(),
            !old(ctx).is_current(*self) ==> r == Err::<Result<(), E>, UiError>(
                session_error(*old(ctx), *self),
            ) && *final(ctx) == *old(ctx),
            old(ctx).is_current(*self) ==> {
                &&& r matches Ok(inner) && call_ensures(f, (), inner)
                &&& final(ctx).style_stack@ == old(ctx).style_stack@
                &&& final(ctx).style_ops == (PushPop {
                    pushes: (old(ctx).style_ops.pushes + 1) as u64,
                    pops: (old(ctx).style_ops.pops + 1) as u64,
                })
                &&& unchanged_except_style(*old(ctx), *final(ctx))
            },
    {
        if !ctx.frame_active {
            return Err(UiError::NoActiveFrame);
        }
        if self.generation != ctx.generation {
            return Err(UiError::StaleSession);
        }
        let e = style_var.to_entry();
        ctx.style_stack.push(e);
        ctx.style_ops.pushes = ctx.style_ops.pushes + 1;
        let inner = f();
        ctx.style_stack.pop();
        ctx.style_ops.pops = ctx.style_ops.pops + 1;
        Ok(inner)
    }

    /// Runs `f` with a batch of style variables temporarily overridden:
    /// all of them are pushed in order, and exactly as many pops happen on
    /// the way out, whatever `f` returns.
    pub fn with_style_vars<E, F: FnOnce() -> Result<(), E>>(
        &self,
        ctx: &mut ImGui,
        style_vars: &Vec<StyleVar>,
        f: F,
    ) -> (r: Result<Result<(), E>, UiError>)
        requires
            old(ctx).wf(),
            old(ctx).style_ops.pushes + style_vars@.len() <= u64::MAX,
            call_requires(f, ()),
        ensures
            final(ctx).wf(),
            !old(ctx).is_current(*self) ==> r == Err::<Result<(), E>, UiError>(
                session_error(*old(ctx), *self),
            ) && *final(ctx) == *old(ctx),
            old(ctx).is_current(*self) ==> {
                &&& r matches Ok(inner) && call_ensures(f, (), inner)
                &&& final(ctx).style_stack@ == old(ctx).style_stack@
                &&& final(ctx).style_ops == (PushPop {
                    pushes: (old(ctx).style_ops.pushes + style_vars@.len()) as u64,
                    pops: (old(ctx).style_ops.pops + style_vars@.len()) as u64,
                })
                &&& unchanged_except_style(*old(ctx), *final(ctx))
            },
    {
        if !ctx.frame_active {
            return Err(UiError::NoActiveFrame);
        }
        if self.generation != ctx.generation {
            return Err(UiError::StaleSession);
        }
        let ghost orig: ImGui = *ctx;
        let n: usize = style_vars.len();
        let mut i: usize = 0;
        while i < n
            invariant
                n == style_vars@.len(),
                0 <= i <= n,
                ctx.wf(),
                orig.wf(),
                ctx.frame_active,
                orig.style_ops.pushes + n <= u64::MAX,
                ctx.style_stack@ =~= orig.style_stack@ + style_entries_of(style_vars@.take(i as int)),
                ctx.style_ops.pushes == orig.style_ops.pushes + i,
                ctx.style_ops.pops == orig.style_ops.pops,
                unchanged_except_style(orig, *ctx),
            decreases n - i,
        {
            let e = style_vars[i].to_entry();
            ctx.style_stack.push(e);
            ctx.style_ops.pushes = ctx.style_ops.pushes + 1;
            proof {
                assert(style_vars@.take(i + 1) =~= style_vars@.take(i as int).push(
                    style_vars@[i as int],
                ));
                assert(style_entries_of(style_vars@.take(i + 1)) =~= style_entries_of(
                    style_vars@.take(i as int),
                ).push(style_vars@[i as int].entry_spec()));
            }
            i += 1;
        }
        let inner = f();
        let mut j: usize = 0;
        while j < n
            invariant
                n == style_vars@.len(),
                0 <= j <= n,
                ctx.wf(),
                orig.wf(),
                orig.style_ops.pushes + n <= u64::MAX,
                ctx.style_stack@ =~= orig.style_stack@ + style_entries_of(
                    style_vars@.take((n - j) as int),
                ),
                ctx.style_ops.pushes == orig.style_ops.pushes + n,
                ctx.style_ops.pops == orig.style_ops.pops + j,
                unchanged_except_style(orig, *ctx),
            decreases n - j,
        {
            ctx.style_stack.pop();
            ctx.style_ops.pops = ctx.style_ops.pops + 1;
            proof {
                assert(style_vars@.take((n - j) as int).drop_last() =~= style_vars@.take(
                    (n - j - 1) as int,
                ));
                assert((orig.style_stack@ + style_entries_of(
                    style_vars@.take((n - j) as int),
                )).drop_last() =~= orig.style_stack@ + style_entries_of(
                    style_vars@.take((n - j - 1) as int),
                ));
            }
            j += 1;
        }
        proof {
            assert(ctx.style_stack@ =~= orig.style_stack@);
        }
        Ok(inner)
    }

    /// Runs `f` with one color target temporarily overridden; the pop is
    /// guaranteed whatever `f` returns.
    pub fn with_color_var<E, F: FnOnce() -> Result<(), E>>(
        &self,
        ctx: &mut ImGui,
        var: u32,
        color: u32,
        f: F,
    ) -> (r: Result<Result<(), E>, UiError>)
        requires
            old(ctx).wf(),
            old(ctx).color_ops.pushes < u64::MAX,
            call_requires(f, ()),
        ensures
            final(ctx).wf(),
            !old(ctx).is_current(*self) ==> r == Err::<Result<(), E>, UiError>(
                session_error(*old(ctx), *self),
            ) && *final(ctx) == *old(ctx),
            old(ctx).is_current(*self) ==> {
                &&& r matches Ok(inner) && call_ensures(f, (), inner)
                &&& final(ctx).color_stack@ == old(ctx).color_stack@
                &&& final(ctx).color_ops == (PushPop {
                    pushes: (old(ctx).color_ops.pushes + 1) as u64,
                    pops: (old(ctx).color_ops.pops + 1) as u64,
                })
                &&& unchanged_except_color(*old(ctx), *final(ctx))
            },
    {
        if !ctx.frame_active {
            return Err(UiError::NoActiveFrame);
        }
        if self.generation != ctx.generation {
            return Err(UiError::StaleSession);
        }
        ctx.color_stack.push(ColorEntry { target: var, rgba: color });
        ctx.color_ops.pushes = ctx.color_ops.pushes + 1;
        let inner = f();
        ctx.color_stack.pop();
        ctx.color_ops.pops = ctx.color_ops.pops + 1;
        Ok(inner)
    }

    /// Runs `f` with a batch of color targets temporarily overridden:
    /// all pushed in order, exactly as many pops on the way out.
    pub fn with_color_vars<E, F: FnOnce() -> Result<(), E>>(
        &self,
        ctx: &mut ImGui,
        color_vars: &Vec<(u32, u32)>,
        f: F,
    ) -> (r: Result<Result<(), E>, UiError>)
        requires
            old(ctx).wf(),
            old(ctx).color_ops.pushes + color_vars@.len() <= u64::MAX,
            call_requires(f, ()),
        ensures
            final(ctx).wf(),
            !old(ctx).is_current(*self) ==> r == Err::<Result<(), E>, UiError>(
                session_error(*old(ctx), *self),
            ) && *final(ctx) == *old(ctx),
            old(ctx).is_current(*self) ==> {
                &&& r matches Ok(inner) && call_ensures(f, (), inner)
                &&& final(ctx).color_stack@ == old(ctx).color_stack@
                &&& final(ctx).color_ops == (PushPop {
                    pushes: (old(ctx).color_ops.pushes + color_vars@.len()) as u64,
                    pops: (old(ctx).color_ops.pops + color_vars@.len()) as u64,
                })
                &&& unchanged_except_color(*old(ctx), *final(ctx))
            },
    {
        if !ctx.frame_active {
            return Err(UiError::NoActiveFrame);
        }
        if self.generation != ctx.generation {
            return Err(UiError::StaleSession);
        }
        let ghost orig: ImGui = *ctx;
        let n: usize = color_vars.len();
        let mut i: usize = 0;
        while i < n
            invariant
                n == color_vars@.len(),
                0 <= i <= n,
                ctx.wf(),
                orig.wf(),
                ctx.frame_active,
                orig.color_ops.pushes + n <= u64::MAX,
                ctx.color_stack@ =~= orig.color_stack@ + color_entries_of(color_vars@.take(i as int)),
                ctx.color_ops.pushes == orig.color_ops.pushes + i,
                ctx.color_ops.pops == orig.color_ops.pops,
                unchanged_except_color(orig, *ctx),
            decreases n - i,
        {
            let pair = color_vars[i];
            ctx.color_stack.push(ColorEntry { target: pair.0, rgba: pair.1 });
            ctx.color_ops.pushes = ctx.color_ops.pushes + 1;
            proof {
                assert(color_vars@.take(i + 1) =~= color_vars@.take(i as int).push(
                    color_vars@[i as int],
                ));
                assert(color_entries_of(color_vars@.take(i + 1)) =~= color_entries_of(
                    color_vars@.take(i as int),
                ).push(ColorEntry { target: color_vars@[i as int].0, rgba: color_vars@[i as int].1 }));
            }
            i += 1;
        }
        let inner = f();
        let mut j: usize = 0;
        while j < n
            invariant
                n == color_vars@.len(),
                0 <= j <= n,
                ctx.wf(),
                orig.wf(),
                orig.color_ops.pushes + n <= u64::MAX,
                ctx.color_stack@ =~= orig.color_stack@ + color_entries_of(
                    color_vars@.take((n - j) as int),
                ),
                ctx.color_ops.pushes == orig.color_ops.pushes + n,
                ctx.color_ops.pops == orig.color_ops.pops + j,
                unchanged_except_color(orig, *ctx),
            decreases n - j,
        {
            ctx.color_stack.pop();
            ctx.color_ops.pops = ctx.color_ops.pops + 1;
            proof {
                assert(color_vars@.take((n - j) as int).drop_last() =~= color_vars@.take(
                    (n - j - 1) as int,
                ));
                assert((orig.color_stack@ + color_entries_of(
                    color_vars@.take((n - j) as int),
                )).drop_last() =~= orig.color_stack@ + color_entries_of(
                    color_vars@.take((n - j - 1) as int),
                ));
            }
            j += 1;
        }
        proof {
            assert(ctx.color_stack@ =~= orig.color_stack@);
        }
        Ok(inner)
    }

    /// Runs `f` with a batch of style variables and a batch of color
    /// targets temporarily overridden. Styles are pushed first, colors
    /// second, and both are fully popped in reverse on the way out,
    /// whatever `f` returns.
    pub fn with_style_and_color_vars<E, F: FnOnce() -> Result<(), E>>(
        &self,
        ctx: &mut ImGui,
        style_vars: &Vec<StyleVar>,
        color_vars: &Vec<(u32, u32)>,
        f: F,
    ) -> (r: Result<Result<(), E>, UiError>)
        requires
            old(ctx).wf(),
            old(ctx).style_ops.pushes + style_vars@.len() <= u64::MAX,
            old(ctx).color_ops.pushes + color_vars@.len() <= u64::MAX,
            call_requires(f, ()),
        ensures
            final(ctx).wf(),
            !old(ctx).is_current(*self) ==> r == Err::<Result<(), E>, UiError>(
                session_error(*old(ctx), *self),
            ) && *final(ctx) == *old(ctx),
            old(ctx).is_current(*self) ==> {
                &&& r matches Ok(inner) && call_ensures(f, (), inner)
                &&& final(ctx).style_stack@ == old(ctx).style_stack@
                &&& final(ctx).color_stack@ == old(ctx).color_stack@
                &&& final(ctx).style_ops == (PushPop {
                    pushes: (old(ctx).style_ops.pushes + style_vars@.len()) as u64,
                    pops: (old(ctx).style_ops.pops + style_vars@.len()) as u64,
                })
                &&& final(ctx).color_ops == (PushPop {
                    pushes: (old(ctx).color_ops.pushes + color_vars@.len()) as u64,
                    pops: (old(ctx).color_ops.pops + color_vars@.len()) as u64,
                })
                &&& unchanged_except_style_color(*old(ctx), *final(ctx))
            },
    {
        if !ctx.frame_active {
            return Err(UiError::NoActiveFrame);
        }
        if self.generation != ctx.generation {
            return Err(UiError::StaleSession);
        }
        let ghost orig: ImGui = *ctx;
        let ns: usize = style_vars.len();
        let nc: usize = color_vars.len();
        let mut i: usize = 0;
        while i < ns
            invariant
                ns == style_vars@.len(),
                0 <= i <= ns,
                ctx.wf(),
                orig.wf(),
                orig.style_ops.pushes + ns <= u64::MAX,
                ctx.style_stack@ =~= orig.style_stack@ + style_entries_of(style_vars@.take(i as int)),
                ctx.style_ops.pushes == orig.style_ops.pushes + i,
                ctx.style_ops.pops == orig.style_ops.pops,
                unchanged_except_style(orig, *ctx),
            decreases ns - i,
        {
            let e = style_vars[i].to_entry();
            ctx.style_stack.push(e);
            ctx.style_ops.pushes = ctx.style_ops.pushes + 1;
            proof {
                assert(style_vars@.take(i + 1) =~= style_vars@.take(i as int).push(
                    style_vars@[i as int],
                ));
                assert(style_entries_of(style_vars@.take(i + 1)) =~= style_entries_of(
                    style_vars@.take(i as int),
                ).push(style_vars@[i as int].entry_spec()));
            }
            i += 1;
        }
        let ghost mid: ImGui = *ctx;
        let mut i2: usize = 0;
        while i2 < nc
            invariant
                nc == color_vars@.len(),
                0 <= i2 <= nc,
                ctx.wf(),
                mid.wf(),
                mid.color_ops.pushes + nc <= u64::MAX,
                ctx.color_stack@ =~= mid.color_stack@ + color_entries_of(color_vars@.take(i2 as int)),
                ctx.color_ops.pushes == mid.color_ops.pushes + i2,
                ctx.color_ops.pops == mid.color_ops.pops,
                unchanged_except_color(mid, *ctx),
            decreases nc - i2,
        {
            let pair = color_vars[i2];
            ctx.color_stack.push(ColorEntry { target: pair.0, rgba: pair.1 });
            ctx.color_ops.pushes = ctx.color_ops.pushes + 1;
            proof {
                assert(color_vars@.take(i2 + 1) =~= color_vars@.take(i2 as int).push(
                    color_vars@[i2 as int],
                ));
                assert(color_entries_of(color_vars@.take(i2 + 1)) =~= color_entries_of(
                    color_vars@.take(i2 as int),
                ).push(ColorEntry {
                    target: color_vars@[i2 as int].0,
                    rgba: color_vars@[i2 as int].1,
                }));
            }
            i2 += 1;
        }
        let inner = f();
        let mut j: usize = 0;
        while j < nc
            invariant
                nc == color_vars@.len(),
                0 <= j <= nc,
                ctx.wf(),
                mid.wf(),
                mid.color_ops.pushes + nc <= u64::MAX,
                ctx.color_stack@ =~= mid.color_stack@ + color_entries_of(
                    color_vars@.take((nc - j) as int),
                ),
                ctx.color_ops.pushes == mid.color_ops.pushes + nc,
                ctx.color_ops.pops == mid.color_ops.pops + j,
                unchanged_except_color(mid, *ctx),
            decreases nc - j,
        {
            ctx.color_stack.pop();
            ctx.color_ops.pops = ctx.color_ops.pops + 1;
            proof {
                assert(color_vars@.take((nc - j) as int).drop_last() =~= color_vars@.take(
                    (nc - j - 1) as int,
                ));
                assert((mid.color_stack@ + color_entries_of(
                    color_vars@.take((nc - j) as int),
                )).drop_last() =~= mid.color_stack@ + color_entries_of(
                    color_vars@.take((nc - j - 1) as int),
                ));
            }
            j += 1;
        }
        proof {
            assert(ctx.color_stack@ =~= mid.color_stack@);
        }
        let mut j2: usize = 0;
        while j2 < ns
            invariant
                ns == style_vars@.len(),
                0 <= j2 <= ns,
                ctx.wf(),
                orig.wf(),
                orig.style_ops.pushes + ns <= u64::MAX,
                ctx.style_stack@ =~= orig.style_stack@ + style_entries_of(
                    style_vars@.take((ns - j2) as int),
                ),
                ctx.style_ops.pushes == orig.style_ops.pushes + ns,
                ctx.style_ops.pops == orig.style_ops.pops + j2,
                ctx.color_stack@ =~= orig.color_stack@,
                ctx.color_ops.pushes == orig.color_ops.pushes + nc,
                ctx.color_ops.pops == orig.color_ops.pops + nc,
                unchanged_except_style_color(orig, *ctx),
            decreases ns - j2,
        {
            ctx.style_stack.pop();
            ctx.style_ops.pops = ctx.style_ops.pops + 1;
            proof {
                assert(style_vars@.take((ns - j2) as int).drop_last() =~= style_vars@.take(
                    (ns - j2 - 1) as int,
                ));
                assert((orig.style_stack@ + style_entries_of(
                    style_vars@.take((ns - j2) as int),
                )).drop_last() =~= orig.style_stack@ + style_entries_of(
                    style_vars@.take((ns - j2 - 1) as int),
                ));
            }
            j2 += 1;
        }
        proof {
            assert(ctx.style_stack@ =~= orig.style_stack@);
        }
        Ok(inner)
    }

    /// Finishes the frame: the session is consumed, the context goes back
    /// to idle, and the engine's draw output — handed in after its render
    /// step — is passed through to the backend. Output whose validity
    /// flag is down yields an empty buffer rather than an error: a frame
    /// may legitimately draw nothing.
    pub fn render(self, ctx: &mut ImGui, raw: DrawData) -> (r: Result<DrawData, UiError>)
        requires
            old(ctx).wf(),
            raw.wf(),
        ensures
            final(ctx).wf(),
            !old(ctx).is_current(self) ==> r == Err::<DrawData, UiError>(
                session_error(*old(ctx), self),
            ) && *final(ctx) == *old(ctx),
            old(ctx).is_current(self) ==> {
                &&& !final(ctx).frame_active
                &&& *final(ctx) == (ImGui { frame_active: false, ..*old(ctx) })
                &&& r matches Ok(d) && d.wf() && (if raw.valid {
                    d == raw
                } else {
                    !d.valid && d.cmd_lists@.len() == 0
                })
            },
    {
        if !ctx.frame_active {
            return Err(UiError::NoActiveFrame);
        }
        if self.generation != ctx.generation {
            return Err(UiError::StaleSession);
        }
        ctx.frame_active = false;
        if raw.valid {
            Ok(raw)
        } else {
            Ok(DrawData::empty())
        }
    }
}

/// Two sessions can only both be current if they are the same session:
/// their generations coincide, so at most one distinct session is ever
/// active on a context.
pub proof fn lemma_at_most_one_current(ctx: ImGui, a: Ui, b: Ui)
    requires
        ctx.is_current(a),
        ctx.is_current(b),
    ensures
        a.generation == b.generation,
{
}

/// Beginning a new frame invalidates every session handed out before it:
/// once the context's generation has moved past a session's, that session
/// can never be current again.
pub proof fn lemma_new_frame_invalidates(ctx: ImGui, old_sess: Ui)
    requires
        old_sess.generation < ctx.generation,
    ensures
        !ctx.is_current(old_sess),
{
}

} // verus!
