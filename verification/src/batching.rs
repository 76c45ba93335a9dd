//! What batching guarantees: laws of the renderer, stated over the value
//! model of [`crate::back_end`].
//!
//! Batching may merge consecutive triangle lists of one draw state into one
//! draw command. It never loses, duplicates or reorders a vertex, never
//! issues an empty or an oversized batch, and never merges across a change
//! of draw state.

use vstd::prelude::*;
use vstd::arithmetic::div_mod::{lemma_fundamental_div_mod, lemma_fundamental_div_mod_converse};
use crate::back_end::{spec_plain_vertices, CommandView, DrawOpView, PlainVertex, Renderer};
use crate::draw_parameters::Color;
use crate::draw_state::spec_convert_draw_state;
use crate::state::DrawState;

verus! {

/// The colored vertices that a command draws.
pub open spec fn spec_command_vertices(command: CommandView) -> Seq<PlainVertex> {
    match command {
        CommandView::DrawColored { vertices, .. } => vertices,
        _ => Seq::empty(),
    }
}

/// The colored vertices that a list of commands draws, in order.
pub open spec fn spec_drawn(commands: Seq<CommandView>) -> Seq<PlainVertex>
    decreases commands.len(),
{
    if commands.len() == 0 {
        Seq::empty()
    } else {
        spec_drawn(commands.drop_last()) + spec_command_vertices(commands.last())
    }
}

/// The number of colored draw commands in a list of commands.
pub open spec fn spec_colored_draws(commands: Seq<CommandView>) -> nat
    decreases commands.len(),
{
    if commands.len() == 0 {
        0
    } else {
        spec_colored_draws(commands.drop_last()) + if commands.last() is DrawColored {
            1nat
        } else {
            0nat
        }
    }
}

/// The colored vertices that one drawing operation submits.
pub open spec fn spec_op_vertices(op: DrawOpView) -> Seq<PlainVertex> {
    match op {
        DrawOpView::TriList { color, vertices, .. } => spec_plain_vertices(color, vertices),
        _ => Seq::empty(),
    }
}

/// The colored vertices that a list of drawing operations submits, in order.
pub open spec fn spec_submitted(ops: Seq<DrawOpView>) -> Seq<PlainVertex>
    decreases ops.len(),
{
    if ops.len() == 0 {
        Seq::empty()
    } else {
        spec_submitted(ops.drop_last()) + spec_op_vertices(ops.last())
    }
}

/// Every colored draw command holds at least one vertex and at most
/// `capacity`.
pub open spec fn spec_batches_fit(commands: Seq<CommandView>, capacity: nat) -> bool {
    forall|i: int|
        0 <= i < commands.len() ==> match #[trigger] commands[i] {
            CommandView::DrawColored { vertices, .. } => 0 < vertices.len() <= capacity,
            _ => true,
        }
}

/// Every operation is a triangle list of `count` vertices under the draw
/// state `draw_state`.
pub open spec fn spec_uniform(ops: Seq<DrawOpView>, draw_state: DrawState, count: nat) -> bool {
    forall|i: int|
        0 <= i < ops.len() ==> match #[trigger] ops[i] {
            DrawOpView::TriList { draw_state: d, vertices, .. } => d == draw_state && vertices.len()
                / 2 == count,
            _ => false,
        }
}

/// The number of triangle lists of `count` vertices that fit one batch.
pub open spec fn spec_lists_per_batch(capacity: nat, count: nat) -> int {
    (capacity as int) / (count as int)
}

/// The quotient of `n` by `d`, rounded up.
pub open spec fn spec_ceil_div(n: nat, d: nat) -> nat {
    ((n + d - 1) / (d as int)) as nat
}

/// All colored vertices that a renderer has seen and not lost: those drawn
/// and those that wait in the buffer.
pub open spec fn spec_held(r: Renderer) -> Seq<PlainVertex> {
    spec_drawn(r.issued) + r.system.buffered
}

proof fn lemma_drawn_push(commands: Seq<CommandView>, command: CommandView)
    ensures
        spec_drawn(commands.push(command)) == spec_drawn(commands) + spec_command_vertices(command),
        spec_colored_draws(commands.push(command)) == spec_colored_draws(commands)
            + if command is DrawColored {
            1nat
        } else {
            0nat
        },
{
    assert(commands.push(command).drop_last() =~= commands);
    assert(commands.push(command).last() == command);
}

proof fn lemma_fit_push(commands: Seq<CommandView>, command: CommandView, capacity: nat)
    requires
        spec_batches_fit(commands, capacity),
        match command {
            CommandView::DrawColored { vertices, .. } => 0 < vertices.len() <= capacity,
            _ => true,
        },
    ensures
        spec_batches_fit(commands.push(command), capacity),
{
    let pushed = commands.push(command);
    assert forall|i: int| 0 <= i < pushed.len() implies match #[trigger] pushed[i] {
        CommandView::DrawColored { vertices, .. } => 0 < vertices.len() <= capacity,
        _ => true,
    } by {
        if i < commands.len() {
            assert(pushed[i] == commands[i]);
        }
    }
}

/// A flush draws what was buffered and nothing else.
proof fn lemma_flush(r: Renderer)
    requires
        r.system.well_formed(),
        spec_batches_fit(r.issued, r.system.capacity),
    ensures
        spec_held(r.flush()) == spec_held(r),
        r.flush().system.buffered.len() == 0,
        spec_batches_fit(r.flush().issued, r.system.capacity),
        spec_colored_draws(r.flush().issued) == spec_colored_draws(r.issued)
            + if r.system.buffered.len() == 0 {
            0nat
        } else {
            1nat
        },
{
    if r.system.buffered.len() == 0 {
        assert(spec_held(r.flush()) =~= spec_held(r));
    } else {
        let command = CommandView::DrawColored {
            vertices: r.system.buffered,
            params: spec_convert_draw_state(r.system.draw_state),
        };
        lemma_drawn_push(r.issued, command);
        lemma_fit_push(r.issued, command, r.system.capacity);
        assert(spec_held(r.flush()) =~= spec_held(r));
    }
}

/// One operation adds the vertices it submits to those held, keeps the
/// buffer within its capacity and every batch within bounds.
proof fn lemma_apply(r: Renderer, op: DrawOpView)
    requires
        r.system.well_formed(),
        spec_batches_fit(r.issued, r.system.capacity),
        op.fits(r.system),
    ensures
        spec_held(r.apply(op)) == spec_held(r) + spec_op_vertices(op),
        r.apply(op).system.well_formed(),
        r.apply(op).system.capacity == r.system.capacity,
        r.apply(op).system.textured_capacity == r.system.textured_capacity,
        spec_batches_fit(r.apply(op).issued, r.system.capacity),
{
    lemma_flush(r);
    match op {
        DrawOpView::ClearColor { color } => {
            let command = CommandView::ClearColor { color };
            lemma_drawn_push(r.flush().issued, command);
            lemma_fit_push(r.flush().issued, command, r.system.capacity);
            assert(spec_held(r.apply(op)) =~= spec_held(r) + spec_op_vertices(op));
        },
        DrawOpView::ClearStencil { value } => {
            let command = CommandView::ClearStencil { value: value as i32 };
            lemma_drawn_push(r.issued, command);
            lemma_fit_push(r.issued, command, r.system.capacity);
            assert(spec_held(r.apply(op)) =~= spec_held(r) + spec_op_vertices(op));
        },
        DrawOpView::TriList { draw_state, color, vertices } => {
            let adopted = r.adopt(draw_state);
            assert(spec_held(adopted) == spec_held(r));
            lemma_flush(adopted);
            let new_vertices = spec_plain_vertices(color, vertices);
            let ready = adopted.reserve(new_vertices.len());
            assert(spec_held(ready) == spec_held(r));
            assert(spec_held(ready.append(new_vertices)) =~= spec_held(ready) + new_vertices);
        },
        DrawOpView::TriListUv { draw_state, color, texture, vertices, texture_coords } => {
            let command = r.apply(op).issued.last();
            assert(r.apply(op).issued == r.flush().issued.push(command));
            lemma_drawn_push(r.flush().issued, command);
            lemma_fit_push(r.flush().issued, command, r.system.capacity);
            assert(spec_held(r.apply(op)) =~= spec_held(r) + spec_op_vertices(op));
        },
    }
}

/// Vertex conservation. After any sequence of drawing operations, the
/// vertices drawn so far followed by those still buffered are exactly the
/// vertices held before followed by those submitted, in the order of
/// submission. No batch is empty or larger than the buffer.
pub proof fn lemma_run_conserves_vertices(r: Renderer, ops: Seq<DrawOpView>)
    requires
        r.system.well_formed(),
        spec_batches_fit(r.issued, r.system.capacity),
        forall|i: int| 0 <= i < ops.len() ==> (#[trigger] ops[i]).fits(r.system),
    ensures
        spec_held(r.run(ops)) == spec_held(r) + spec_submitted(ops),
        r.run(ops).system.well_formed(),
        r.run(ops).system.capacity == r.system.capacity,
        r.run(ops).system.textured_capacity == r.system.textured_capacity,
        spec_batches_fit(r.run(ops).issued, r.system.capacity),
    decreases ops.len(),
{
    if ops.len() == 0 {
        assert(spec_held(r) + spec_submitted(ops) =~= spec_held(r));
    } else {
        let front = ops.drop_last();
        assert forall|i: int| 0 <= i < front.len() implies (#[trigger] front[i]).fits(r.system) by {
            assert(front[i] == ops[i]);
        }
        lemma_run_conserves_vertices(r, front);
        let before = r.run(front);
        assert(ops.last() == ops[ops.len() - 1]);
        lemma_apply(before, ops.last());
        assert(spec_held(r.run(ops)) =~= spec_held(r) + spec_submitted(ops));
    }
}

/// Batch flush correctness, first half. A frame that starts with an empty
/// buffer and an empty surface draws exactly the vertices submitted, in the
/// order of submission, in batches of at least one and at most `capacity`
/// vertices, and leaves nothing in the buffer.
pub proof fn lemma_frame_draws_what_was_submitted(r: Renderer, ops: Seq<DrawOpView>)
    requires
        r.system.buffered.len() == 0,
        r.issued.len() == 0,
        forall|i: int| 0 <= i < ops.len() ==> (#[trigger] ops[i]).fits(r.system),
    ensures
        spec_drawn(r.draw(ops).issued) == spec_submitted(ops),
        r.draw(ops).system.buffered.len() == 0,
        spec_batches_fit(r.draw(ops).issued, r.system.capacity),
{
    lemma_run_conserves_vertices(r, ops);
    lemma_flush(r.run(ops));
    assert(spec_held(r) =~= Seq::<PlainVertex>::empty());
    assert(spec_held(r.draw(ops)) =~= spec_drawn(r.draw(ops).issued));
    assert(Seq::<PlainVertex>::empty() + spec_submitted(ops) =~= spec_submitted(ops));
}

proof fn lemma_successor_div_mod(k: int, d: int)
    requires
        k >= 1,
        d >= 1,
    ensures
        (k - 1) % d == d - 1 ==> k % d == 0 && k / d == (k - 1) / d + 1,
        (k - 1) % d != d - 1 ==> k % d == (k - 1) % d + 1 && k / d == (k - 1) / d,
        0 <= (k - 1) % d < d,
        0 <= (k - 1) / d,
{
    let q = (k - 1) / d;
    let m = (k - 1) % d;
    lemma_fundamental_div_mod(k - 1, d);
    assert(0 <= q) by (nonlinear_arith)
        requires
            k - 1 == d * q + m,
            0 <= m < d,
            k - 1 >= 0,
            d >= 1,
    ;
    if m == d - 1 {
        assert(k == (q + 1) * d + 0) by (nonlinear_arith)
            requires
                k - 1 == d * q + m,
                m == d - 1,
        ;
        lemma_fundamental_div_mod_converse(k, d, q + 1, 0);
    } else {
        assert(k == q * d + (m + 1)) by (nonlinear_arith)
            requires
                k - 1 == d * q + m,
        ;
        lemma_fundamental_div_mod_converse(k, d, q, m + 1);
    }
}

/// The state of the renderer after `ops.len() >= 1` uniform triangle lists
/// on an empty buffer: `capacity / count` lists fill one batch.
proof fn lemma_uniform_run(r: Renderer, ops: Seq<DrawOpView>, draw_state: DrawState, count: nat)
    requires
        r.system.buffered.len() == 0,
        0 < count <= r.system.capacity,
        spec_uniform(ops, draw_state, count),
        ops.len() >= 1,
    ensures
        r.run(ops).system.draw_state == draw_state,
        r.run(ops).system.capacity == r.system.capacity,
        r.run(ops).system.buffered.len() == ((ops.len() - 1) % spec_lists_per_batch(
            r.system.capacity,
            count,
        ) + 1) * count,
        spec_colored_draws(r.run(ops).issued) == spec_colored_draws(r.issued) + (ops.len() - 1)
            / spec_lists_per_batch(r.system.capacity, count),
    decreases ops.len(),
{
    let capacity = r.system.capacity as int;
    let per = capacity / (count as int);
    lemma_fundamental_div_mod(capacity, count as int);
    assert(per >= 1) by (nonlinear_arith)
        requires
            capacity == count * per + capacity % (count as int),
            0 <= capacity % (count as int) < count,
            count <= capacity,
            count > 0,
    ;
    let front = ops.drop_last();
    let k = ops.len() as int;
    let last = ops.last();
    assert(last == ops[k - 1]);
    let vertices = spec_op_vertices(last);
    assert(vertices.len() == count);
    if k == 1 {
        assert(front.len() == 0);
        assert(r.run(front) == r);
        let adopted = r.adopt(draw_state);
        assert(adopted.system.buffered.len() == 0);
        assert(adopted.issued == r.issued);
        assert(0int % per == 0 && 0int / per == 0) by {
            lemma_fundamental_div_mod_converse(0, per, 0, 0);
        }
        assert((0 + 1) * count == count) by (nonlinear_arith);
    } else {
        assert forall|i: int| 0 <= i < front.len() implies match #[trigger] front[i] {
            DrawOpView::TriList { draw_state: d, vertices, .. } => d == draw_state && vertices.len()
                / 2 == count,
            _ => false,
        } by {
            assert(front[i] == ops[i]);
        }
        lemma_uniform_run(r, front, draw_state, count);
        let s = r.run(front);
        let j = (k - 2) % per;
        lemma_successor_div_mod(k - 1, per);
        assert(s.adopt(draw_state) == s);
        assert(s.system.buffered.len() == (j + 1) * count);
        if j == per - 1 {
            // The batch is full: (per + 1) * count exceeds the capacity.
            assert((j + 1) * count + count > capacity) by (nonlinear_arith)
                requires
                    j == per - 1,
                    capacity == count * per + capacity % (count as int),
                    capacity % (count as int) < count,
            ;
            let command = CommandView::DrawColored {
                vertices: s.system.buffered,
                params: spec_convert_draw_state(s.system.draw_state),
            };
            assert(s.system.buffered.len() > 0) by (nonlinear_arith)
                requires
                    s.system.buffered.len() == (j + 1) * count,
                    j >= 0,
                    count > 0,
            ;
            lemma_drawn_push(s.issued, command);
            assert((0 + 1) * count == count) by (nonlinear_arith);
        } else {
            assert((j + 1) * count + count <= capacity) by (nonlinear_arith)
                requires
                    0 <= j < per - 1,
                    capacity == count * per + capacity % (count as int),
                    0 <= capacity % (count as int),
                    count > 0,
            ;
            assert((j + 1) * count + count == (j + 1 + 1) * count) by (nonlinear_arith);
        }
    }
}

/// Batch flush correctness, second half. A frame of `n` triangle lists of
/// `count` vertices each, all under one draw state, that starts with an
/// empty buffer, issues one draw command for every `capacity / count`
/// lists, rounded up: a list is never split over two batches.
pub proof fn lemma_uniform_frame_draw_count(
    r: Renderer,
    ops: Seq<DrawOpView>,
    draw_state: DrawState,
    count: nat,
)
    requires
        r.system.buffered.len() == 0,
        0 < count <= r.system.capacity,
        spec_uniform(ops, draw_state, count),
    ensures
        spec_colored_draws(r.draw(ops).issued) == spec_colored_draws(r.issued) + spec_ceil_div(
            ops.len(),
            r.system.capacity / count,
        ),
{
    let capacity = r.system.capacity as int;
    let per = capacity / (count as int);
    lemma_fundamental_div_mod(capacity, count as int);
    assert(per >= 1) by (nonlinear_arith)
        requires
            capacity == count * per + capacity % (count as int),
            0 <= capacity % (count as int) < count,
            count <= capacity,
            count > 0,
    ;
    let k = ops.len() as int;
    if k == 0 {
        assert(r.draw(ops) == r);
        assert((per - 1) / per == 0) by {
            lemma_fundamental_div_mod_converse(per - 1, per, 0, per - 1);
        }
    } else {
        lemma_uniform_run(r, ops, draw_state, count);
        let s = r.run(ops);
        lemma_successor_div_mod(k, per);
        let j = (k - 1) % per;
        assert(s.system.buffered.len() > 0) by (nonlinear_arith)
            requires
                s.system.buffered.len() == (j + 1) * count,
                j >= 0,
                count > 0,
        ;
        let command = CommandView::DrawColored {
            vertices: s.system.buffered,
            params: spec_convert_draw_state(s.system.draw_state),
        };
        lemma_drawn_push(s.issued, command);
        // (k + per - 1) / per == (k - 1) / per + 1
        let q = (k - 1) / per;
        lemma_fundamental_div_mod(k - 1, per);
        assert(k + per - 1 == (q + 1) * per + j) by (nonlinear_arith)
            requires
                k - 1 == per * q + j,
        ;
        lemma_fundamental_div_mod_converse(k + per - 1, per, q + 1, j);
    }
}

/// Where the vertex count of a list divides the capacity, batches are
/// filled to the brim: `n` lists of `count` vertices take
/// `ceil(n * count / capacity)` draw commands.
pub proof fn lemma_uniform_frame_draw_count_exact(
    r: Renderer,
    ops: Seq<DrawOpView>,
    draw_state: DrawState,
    count: nat,
)
    requires
        r.system.buffered.len() == 0,
        0 < count <= r.system.capacity,
        r.system.capacity % count == 0,
        spec_uniform(ops, draw_state, count),
    ensures
        spec_colored_draws(r.draw(ops).issued) == spec_colored_draws(r.issued) + spec_ceil_div(
            ops.len() * count,
            r.system.capacity,
        ),
{
    lemma_uniform_frame_draw_count(r, ops, draw_state, count);
    let capacity = r.system.capacity as int;
    let per = capacity / (count as int);
    let k = ops.len() as int;
    lemma_fundamental_div_mod(capacity, count as int);
    assert(capacity == per * count) by (nonlinear_arith)
        requires
            capacity == count * per + 0,
    ;
    assert(per >= 1) by (nonlinear_arith)
        requires
            capacity == per * count,
            count <= capacity,
            count > 0,
    ;
    if k == 0 {
        assert(k * count == 0) by (nonlinear_arith)
            requires
                k == 0,
        ;
        assert((per - 1) / per == 0) by {
            lemma_fundamental_div_mod_converse(per - 1, per, 0, per - 1);
        }
        assert((capacity - 1) / capacity == 0) by {
            lemma_fundamental_div_mod_converse(capacity - 1, capacity, 0, capacity - 1);
        }
    } else {
        let q = (k - 1) / per;
        let j = (k - 1) % per;
        lemma_fundamental_div_mod(k - 1, per);
        assert(q >= 0) by (nonlinear_arith)
            requires
                k - 1 == per * q + j,
                0 <= j < per,
                k >= 1,
        ;
        assert(k + per - 1 == (q + 1) * per + j) by (nonlinear_arith)
            requires
                k - 1 == per * q + j,
        ;
        lemma_fundamental_div_mod_converse(k + per - 1, per, q + 1, j);
        let rest = (j + 1) * count - 1;
        assert(k * count + capacity - 1 == (q + 1) * capacity + rest) by (nonlinear_arith)
            requires
                k - 1 == per * q + j,
                capacity == per * count,
                rest == (j + 1) * count - 1,
        ;
        assert(0 <= rest < capacity) by (nonlinear_arith)
            requires
                0 <= j < per,
                count > 0,
                capacity == per * count,
                rest == (j + 1) * count - 1,
        ;
        lemma_fundamental_div_mod_converse(k * count + capacity - 1, capacity, q + 1, rest);
    }
}

/// State-change flush. Two consecutive triangle lists under different draw
/// states end up in two draw commands, each with its own vertices and the
/// parameters of its own draw state, however small they are.
pub proof fn lemma_state_change_flushes(
    r: Renderer,
    first_state: DrawState,
    first_color: Color,
    first: Seq<u32>,
    second_state: DrawState,
    second_color: Color,
    second: Seq<u32>,
)
    requires
        r.system.buffered.len() == 0,
        first_state != second_state,
        0 < first.len() / 2 <= r.system.capacity,
        0 < second.len() / 2 <= r.system.capacity,
    ensures
        r.tri_list(first_state, first_color, first).tri_list(
            second_state,
            second_color,
            second,
        ).flush().issued == r.issued.push(
            CommandView::DrawColored {
                vertices: spec_plain_vertices(first_color, first),
                params: spec_convert_draw_state(first_state),
            },
        ).push(
            CommandView::DrawColored {
                vertices: spec_plain_vertices(second_color, second),
                params: spec_convert_draw_state(second_state),
            },
        ),
{
    let a = spec_plain_vertices(first_color, first);
    let b = spec_plain_vertices(second_color, second);
    let adopted = r.adopt(first_state);
    assert(adopted.issued == r.issued);
    assert(adopted.system.buffered.len() == 0);
    let after_first = r.tri_list(first_state, first_color, first);
    assert(after_first.system.buffered =~= a);
    assert(after_first.issued == r.issued);
    assert(after_first.system.draw_state == first_state);
    let switched = after_first.adopt(second_state);
    assert(switched.system.buffered.len() == 0);
    let after_second = after_first.tri_list(second_state, second_color, second);
    assert(after_second.system.buffered =~= b);
}

/// Same-state merge. Two consecutive triangle lists under one draw state
/// that fit the buffer together end up in one draw command, first list
/// first.
pub proof fn lemma_same_state_merges(
    r: Renderer,
    draw_state: DrawState,
    first_color: Color,
    first: Seq<u32>,
    second_color: Color,
    second: Seq<u32>,
)
    requires
        r.system.buffered.len() == 0,
        0 < first.len() / 2,
        first.len() / 2 + second.len() / 2 <= r.system.capacity,
    ensures
        r.tri_list(draw_state, first_color, first).tri_list(
            draw_state,
            second_color,
            second,
        ).flush().issued == r.issued.push(
            CommandView::DrawColored {
                vertices: spec_plain_vertices(first_color, first) + spec_plain_vertices(
                    second_color,
                    second,
                ),
                params: spec_convert_draw_state(draw_state),
            },
        ),
{
    let a = spec_plain_vertices(first_color, first);
    let b = spec_plain_vertices(second_color, second);
    let adopted = r.adopt(draw_state);
    assert(adopted.issued == r.issued);
    assert(adopted.system.buffered.len() == 0);
    let after_first = r.tri_list(draw_state, first_color, first);
    assert(after_first.system.buffered =~= a);
    let after_second = after_first.tri_list(draw_state, second_color, second);
    assert(after_second.system.buffered =~= a + b);
}

/// A clear of the color carries the color it was given, whatever was
/// cleared or drawn before: nothing of an earlier color is kept.
pub proof fn lemma_clear_color_is_stateless(r: Renderer, first: Color, second: Color)
    ensures
        r.clear_color(first).clear_color(second).issued.last() == (CommandView::ClearColor {
            color: second,
        }),
        r.clear_color(first).clear_color(second).system == r.clear_color(second).system,
{
}

} // verus!
