//! Rasterising a straight segment between two pixel positions.
use vstd::prelude::*;

verus! {

pub open spec fn abs_int(v: int) -> int {
    if v < 0 {
        -v
    } else {
        v
    }
}

pub open spec fn step_toward(from: int, to: int) -> int {
    if from < to {
        1
    } else {
        -1
    }
}

/// The cells visited by Bresenham's walk from `(x, y)` towards `(x1, y1)`
/// with error term `err`, taking at most `fuel` cells.
pub open spec fn bresenham_walk(
    x: int,
    y: int,
    err: int,
    x1: int,
    y1: int,
    dx: int,
    dy: int,
    sx: int,
    sy: int,
    fuel: nat,
) -> Seq<(int, int)>
    decreases fuel,
{
    if fuel == 0 {
        seq![]
    } else if x == x1 && y == y1 {
        seq![(x, y)]
    } else {
        let e2 = 2 * err;
        let x2 = if e2 > -dy {
            x + sx
        } else {
            x
        };
        let err2 = if e2 > -dy {
            err - dy
        } else {
            err
        };
        let y2 = if e2 < dx {
            y + sy
        } else {
            y
        };
        let err3 = if e2 < dx {
            err2 + dx
        } else {
            err2
        };
        seq![(x, y)] + bresenham_walk(x2, y2, err3, x1, y1, dx, dy, sx, sy, (fuel - 1) as nat)
    }
}

/// The full Bresenham walk from `(x0, y0)` to `(x1, y1)`.
pub open spec fn bresenham_path(x0: int, y0: int, x1: int, y1: int) -> Seq<(int, int)> {
    let dx = abs_int(x1 - x0);
    let dy = abs_int(y1 - y0);
    bresenham_walk(
        x0,
        y0,
        dx - dy,
        x1,
        y1,
        dx,
        dy,
        step_toward(x0, x1),
        step_toward(y0, y1),
        (dx + dy + 1) as nat,
    )
}

pub open spec fn in_grid(p: (int, int), width: int, height: int) -> bool {
    0 <= p.0 < width && 0 <= p.1 < height
}

/// The cells of `s` that lie inside a `width` x `height` grid, in order.
pub open spec fn keep_in_grid(s: Seq<(int, int)>, width: int, height: int) -> Seq<(int, int)>
    decreases s.len(),
{
    if s.len() == 0 {
        seq![]
    } else {
        let rest = keep_in_grid(s.drop_last(), width, height);
        if in_grid(s.last(), width, height) {
            rest.push(s.last())
        } else {
            rest
        }
    }
}

/// The cells `(lo, c)`, `(lo + 1, c)`, ..., `(hi - 1, c)` (or with the
/// roles of the coordinates swapped when `vertical`).
pub open spec fn cell_run(lo: int, hi: int, c: int, vertical: bool) -> Seq<(int, int)> {
    Seq::new(
        (if hi > lo {
            hi - lo
        } else {
            0
        }) as nat,
        |k: int|
            if vertical {
                (c, lo + k)
            } else {
                (lo + k, c)
            },
    )
}

pub open spec fn min_int(a: int, b: int) -> int {
    if a < b {
        a
    } else {
        b
    }
}

pub open spec fn max_int(a: int, b: int) -> int {
    if a > b {
        a
    } else {
        b
    }
}

/// The grid cells covered by the segment from `(x0, y0)` to `(x1, y1)`,
/// clipped to a `width` x `height` grid. Horizontal and vertical
/// segments come out in increasing coordinate order; any other segment
/// comes out in the order Bresenham's walk visits it, from `(x0, y0)`.
pub open spec fn line_cells(x0: int, y0: int, x1: int, y1: int, width: int, height: int) -> Seq<
    (int, int),
> {
    let dx = abs_int(x1 - x0);
    let dy = abs_int(y1 - y0);
    if dx == 0 && dy == 0 {
        if in_grid((x0, y0), width, height) {
            seq![(x0, y0)]
        } else {
            seq![]
        }
    } else if dy == 0 {
        if y0 < 0 || y0 >= height {
            seq![]
        } else {
            cell_run(max_int(min_int(x0, x1), 0), min_int(max_int(x0, x1) + 1, width), y0, false)
        }
    } else if dx == 0 {
        if x0 < 0 || x0 >= width {
            seq![]
        } else {
            cell_run(max_int(min_int(y0, y1), 0), min_int(max_int(y0, y1) + 1, height), x0, true)
        }
    } else {
        keep_in_grid(bresenham_path(x0, y0, x1, y1), width, height)
    }
}

proof fn lemma_x_side(dx: int, dy: int, xs: int, ys: int)
    requires
        dx > 0,
        dy > 0,
        0 <= ys < dy,
        xs == dx,
    ensures
        2 * (dx - dy - xs * dy + ys * dx) <= -2 * dy,
{
    assert(dx * (1 + ys - dy) <= 0) by (nonlinear_arith)
        requires
            dx > 0,
            1 + ys - dy <= 0,
    ;
    assert(dx - dy - xs * dy + ys * dx == dx * (1 + ys - dy) - dy) by (nonlinear_arith)
        requires
            xs == dx,
    ;
}

proof fn lemma_y_side(dx: int, dy: int, xs: int, ys: int)
    requires
        dx > 0,
        dy > 0,
        0 <= xs < dx,
        ys == dy,
    ensures
        2 * (dx - dy - xs * dy + ys * dx) >= 2 * dx,
{
    assert(dy * (dx - xs - 1) >= 0) by (nonlinear_arith)
        requires
            dy > 0,
            dx - xs - 1 >= 0,
    ;
    assert(dx - dy - xs * dy + ys * dx == dy * (dx - xs - 1) + dx) by (nonlinear_arith)
        requires
            ys == dy,
    ;
}


proof fn lemma_keep_push(s: Seq<(int, int)>, p: (int, int), width: int, height: int)
    ensures
        keep_in_grid(s.push(p), width, height) == if in_grid(p, width, height) {
            keep_in_grid(s, width, height).push(p)
        } else {
            keep_in_grid(s, width, height)
        },
{
    assert(s.push(p).drop_last() =~= s);
}

/// The pixels of the segment from `(x0, y0)` to `(x1, y1)` that lie inside
/// a `width` x `height` image. Horizontal and vertical segments are
/// listed in increasing coordinate order; any other segment follows
/// Bresenham's walk from `(x0, y0)` to `(x1, y1)`.
pub fn line_pixels(x0: i32, y0: i32, x1: i32, y1: i32, width: i32, height: i32) -> (r: Vec<(i32, i32)>)
    ensures
        r@.len() == line_cells(
            x0 as int,
            y0 as int,
            x1 as int,
            y1 as int,
            width as int,
            height as int,
        ).len(),
        forall|k: int|
            0 <= k < r@.len() ==> (#[trigger] r@[k]).0 == line_cells(
                x0 as int,
                y0 as int,
                x1 as int,
                y1 as int,
                width as int,
                height as int,
            )[k].0 && r@[k].1 == line_cells(
                x0 as int,
                y0 as int,
                x1 as int,
                y1 as int,
                width as int,
                height as int,
            )[k].1,
{
    let ghost cells = line_cells(
        x0 as int,
        y0 as int,
        x1 as int,
        y1 as int,
        width as int,
        height as int,
    );
    let dx: i64 = if x1 >= x0 {
        x1 as i64 - x0 as i64
    } else {
        x0 as i64 - x1 as i64
    };
    let dy: i64 = if y1 >= y0 {
        y1 as i64 - y0 as i64
    } else {
        y0 as i64 - y1 as i64
    };
    let mut pixels: Vec<(i32, i32)> = Vec::new();
    if dx == 0 && dy == 0 {
        if x0 >= 0 && x0 < width && y0 >= 0 && y0 < height {
            pixels.push((x0, y0));
        }
        return pixels;
    }
    if dy == 0 {
        if y0 < 0 || y0 >= height {
            return pixels;
        }
        let lo = if x0 < x1 {
            x0
        } else {
            x1
        };
        let hi = if x0 > x1 {
            x0
        } else {
            x1
        };
        let x_start = if lo > 0 {
            lo
        } else {
            0
        };
        let x_end = if (hi as i64) + 1 < width as i64 {
            hi + 1
        } else {
            width
        };
        let mut x = x_start;
        while x < x_end
            invariant
                x_start <= x <= x_end || (x_start >= x_end && x == x_start),
                cells == cell_run(x_start as int, x_end as int, y0 as int, false),
                pixels@.len() == x - x_start,
                forall|k: int|
                    0 <= k < pixels@.len() ==> (#[trigger] pixels@[k]).0 == cells[k].0 && pixels@[k].1
                        == cells[k].1,
            decreases x_end - x,
        {
            pixels.push((x, y0));
            x = x + 1;
        }
        return pixels;
    }
    if dx == 0 {
        if x0 < 0 || x0 >= width {
            return pixels;
        }
        let lo = if y0 < y1 {
            y0
        } else {
            y1
        };
        let hi = if y0 > y1 {
            y0
        } else {
            y1
        };
        let y_start = if lo > 0 {
            lo
        } else {
            0
        };
        let y_end = if (hi as i64) + 1 < height as i64 {
            hi + 1
        } else {
            height
        };
        let mut y = y_start;
        while y < y_end
            invariant
                y_start <= y <= y_end || (y_start >= y_end && y == y_start),
                cells == cell_run(y_start as int, y_end as int, x0 as int, true),
                pixels@.len() == y - y_start,
                forall|k: int|
                    0 <= k < pixels@.len() ==> (#[trigger] pixels@[k]).0 == cells[k].0 && pixels@[k].1
                        == cells[k].1,
            decreases y_end - y,
        {
            pixels.push((x0, y));
            y = y + 1;
        }
        return pixels;
    }
    let sx: i32 = if x0 < x1 {
        1
    } else {
        -1
    };
    let sy: i32 = if y0 < y1 {
        1
    } else {
        -1
    };
    let ghost ddx = dx as int;
    let ghost ddy = dy as int;
    let ghost path = bresenham_path(x0 as int, y0 as int, x1 as int, y1 as int);
    let mut err: i64 = dx as i64 - dy as i64;
    let mut x: i32 = x0;
    let mut y: i32 = y0;
    let ghost mut xs: int = 0;
    let ghost mut ys: int = 0;
    let ghost mut fuel: nat = (ddx + ddy + 1) as nat;
    let ghost mut seen: Seq<(int, int)> = seq![];
    assert(cells == keep_in_grid(path, width as int, height as int));
    assert(seen + path =~= path);
    loop
        invariant_except_break
            0 < ddx <= 0xFFFF_FFFF,
            0 < ddy <= 0xFFFF_FFFF,
            -2 * ddy <= err <= 2 * ddx,
            ddx == dx,
            ddy == dy,
            sx == step_toward(x0 as int, x1 as int),
            sy == step_toward(y0 as int, y1 as int),
            0 <= xs <= ddx,
            0 <= ys <= ddy,
            x == x0 + sx * xs,
            y == y0 + sy * ys,
            x1 == x0 + sx * ddx,
            y1 == y0 + sy * ddy,
            err == ddx - ddy - xs * ddy + ys * ddx,
            fuel >= (ddx - xs) + (ddy - ys) + 1,
            cells == keep_in_grid(path, width as int, height as int),
            path == seen + bresenham_walk(
                x as int,
                y as int,
                err as int,
                x1 as int,
                y1 as int,
                ddx,
                ddy,
                sx as int,
                sy as int,
                fuel,
            ),
            pixels@.len() == keep_in_grid(seen, width as int, height as int).len(),
            forall|k: int|
                0 <= k < pixels@.len() ==> (#[trigger] pixels@[k]).0 == keep_in_grid(
                    seen,
                    width as int,
                    height as int,
                )[k].0 && pixels@[k].1 == keep_in_grid(seen, width as int, height as int)[k].1,
        ensures
            cells == keep_in_grid(seen, width as int, height as int),
            pixels@.len() == keep_in_grid(seen, width as int, height as int).len(),
            forall|k: int|
                0 <= k < pixels@.len() ==> (#[trigger] pixels@[k]).0 == keep_in_grid(
                    seen,
                    width as int,
                    height as int,
                )[k].0 && pixels@[k].1 == keep_in_grid(seen, width as int, height as int)[k].1,
        decreases (ddx - xs) + (ddy - ys),
    {
        let ghost old_seen = seen;
        let ghost old_pixels = pixels@;
        if x >= 0 && x < width && y >= 0 && y < height {
            pixels.push((x, y));
        }
        proof {
            seen = seen.push((x as int, y as int));
            lemma_keep_push(old_seen, (x as int, y as int), width as int, height as int);
        }
        if x == x1 && y == y1 {
            proof {
                assert(bresenham_walk(
                    x as int,
                    y as int,
                    err as int,
                    x1 as int,
                    y1 as int,
                    ddx,
                    ddy,
                    sx as int,
                    sy as int,
                    fuel,
                ) == seq![(x as int, y as int)]);
                assert(path =~= seen);
            }
            break;
        }
        proof {
            if xs == ddx {
                assert(ys < ddy);
                lemma_x_side(ddx, ddy, xs, ys);
            }
            if ys == ddy {
                assert(xs < ddx);
                lemma_y_side(ddx, ddy, xs, ys);
            }
        }
        let e2: i64 = 2 * err;
        let ghost old_state = (x as int, y as int, err as int);
        let ghost old_fuel = fuel;
        if e2 > -(dy as i64) {
            err = err - dy as i64;
            x = x + sx;
            proof {
                xs = xs + 1;
                assert((xs - 1) * ddy + ddy == xs * ddy) by (nonlinear_arith);
                assert(sx * (xs - 1) + sx == sx * xs) by (nonlinear_arith);
            }
        }
        if e2 < dx as i64 {
            err = err + dx as i64;
            y = y + sy;
            proof {
                ys = ys + 1;
                assert((ys - 1) * ddx + ddx == ys * ddx) by (nonlinear_arith);
                assert(sy * (ys - 1) + sy == sy * ys) by (nonlinear_arith);
            }
        }
        proof {
            fuel = (fuel - 1) as nat;
            assert(seen + bresenham_walk(
                x as int,
                y as int,
                err as int,
                x1 as int,
                y1 as int,
                ddx,
                ddy,
                sx as int,
                sy as int,
                fuel,
            ) =~= old_seen + bresenham_walk(
                old_state.0,
                old_state.1,
                old_state.2,
                x1 as int,
                y1 as int,
                ddx,
                ddy,
                sx as int,
                sy as int,
                old_fuel,
            ));
        }
    }
    pixels
}

pub open spec fn adjacent(p: (int, int), q: (int, int)) -> bool {
    abs_int(q.0 - p.0) <= 1 && abs_int(q.1 - p.1) <= 1
}

proof fn lemma_walk_shape(
    x: int,
    y: int,
    err: int,
    x1: int,
    y1: int,
    dx: int,
    dy: int,
    sx: int,
    sy: int,
    fuel: nat,
    xs: int,
    ys: int,
)
    requires
        dx > 0,
        dy > 0,
        sx == 1 || sx == -1,
        sy == 1 || sy == -1,
        0 <= xs <= dx,
        0 <= ys <= dy,
        x1 == x + sx * (dx - xs),
        y1 == y + sy * (dy - ys),
        err == dx - dy - xs * dy + ys * dx,
        fuel >= (dx - xs) + (dy - ys) + 1,
    ensures
        ({
            let w = bresenham_walk(x, y, err, x1, y1, dx, dy, sx, sy, fuel);
            &&& w.len() >= 1
            &&& w[0] == (x, y)
            &&& w.last() == (x1, y1)
            &&& forall|k: int| 0 <= k < w.len() - 1 ==> adjacent(#[trigger] w[k], w[k + 1])
        }),
    decreases fuel,
{
    let w = bresenham_walk(x, y, err, x1, y1, dx, dy, sx, sy, fuel);
    assert(x == x1 <==> xs == dx) by (nonlinear_arith)
        requires
            x1 == x + sx * (dx - xs),
            sx == 1 || sx == -1,
    ;
    assert(y == y1 <==> ys == dy) by (nonlinear_arith)
        requires
            y1 == y + sy * (dy - ys),
            sy == 1 || sy == -1,
    ;
    if x == x1 && y == y1 {
        assert(w == seq![(x, y)]);
    } else {
        if xs == dx {
            lemma_x_side(dx, dy, xs, ys);
        }
        if ys == dy {
            lemma_y_side(dx, dy, xs, ys);
        }
        let e2 = 2 * err;
        let xstep = e2 > -dy;
        let ystep = e2 < dx;
        let x2 = if xstep {
            x + sx
        } else {
            x
        };
        let err2 = if xstep {
            err - dy
        } else {
            err
        };
        let y2 = if ystep {
            y + sy
        } else {
            y
        };
        let err3 = if ystep {
            err2 + dx
        } else {
            err2
        };
        let xs2 = if xstep {
            xs + 1
        } else {
            xs
        };
        let ys2 = if ystep {
            ys + 1
        } else {
            ys
        };
        assert(xstep || ystep);
        assert(x1 == x2 + sx * (dx - xs2)) by (nonlinear_arith)
            requires
                x1 == x + sx * (dx - xs),
                x2 == (if xstep {
                    x + sx
                } else {
                    x
                }),
                xs2 == (if xstep {
                    xs + 1
                } else {
                    xs
                }),
        ;
        assert(y1 == y2 + sy * (dy - ys2)) by (nonlinear_arith)
            requires
                y1 == y + sy * (dy - ys),
                y2 == (if ystep {
                    y + sy
                } else {
                    y
                }),
                ys2 == (if ystep {
                    ys + 1
                } else {
                    ys
                }),
        ;
        assert(err3 == dx - dy - xs2 * dy + ys2 * dx) by (nonlinear_arith)
            requires
                err == dx - dy - xs * dy + ys * dx,
                err2 == (if xstep {
                    err - dy
                } else {
                    err
                }),
                err3 == (if ystep {
                    err2 + dx
                } else {
                    err2
                }),
                xs2 == (if xstep {
                    xs + 1
                } else {
                    xs
                }),
                ys2 == (if ystep {
                    ys + 1
                } else {
                    ys
                }),
        ;
        let rest = bresenham_walk(x2, y2, err3, x1, y1, dx, dy, sx, sy, (fuel - 1) as nat);
        lemma_walk_shape(x2, y2, err3, x1, y1, dx, dy, sx, sy, (fuel - 1) as nat, xs2, ys2);
        assert(w == seq![(x, y)] + rest);
        assert forall|k: int| 0 <= k < w.len() - 1 implies adjacent(#[trigger] w[k], w[k + 1]) by {
            if k == 0 {
                assert(w[1] == rest[0]);
            } else {
                assert(w[k] == rest[k - 1]);
                assert(w[k + 1] == rest[k]);
            }
        }
    }
}

/// Bresenham's walk between two distinct cells that differ in both
/// coordinates starts at the first cell, ends at the second, and moves
/// to one of the eight neighbouring cells at each step.
pub proof fn lemma_bresenham_path_connects(x0: int, y0: int, x1: int, y1: int)
    requires
        x0 != x1,
        y0 != y1,
    ensures
        ({
            let w = bresenham_path(x0, y0, x1, y1);
            &&& w.len() >= 1
            &&& w[0] == (x0, y0)
            &&& w.last() == (x1, y1)
            &&& forall|k: int| 0 <= k < w.len() - 1 ==> adjacent(#[trigger] w[k], w[k + 1])
        }),
{
    let dx = abs_int(x1 - x0);
    let dy = abs_int(y1 - y0);
    let sx = step_toward(x0, x1);
    let sy = step_toward(y0, y1);
    assert(x1 == x0 + sx * (dx - 0));
    assert(y1 == y0 + sy * (dy - 0));
    lemma_walk_shape(x0, y0, dx - dy, x1, y1, dx, dy, sx, sy, (dx + dy + 1) as nat, 0, 0);
}

proof fn lemma_keep_in_grid(s: Seq<(int, int)>, width: int, height: int)
    ensures
        forall|k: int|
            0 <= k < keep_in_grid(s, width, height).len() ==> in_grid(
                #[trigger] keep_in_grid(s, width, height)[k],
                width,
                height,
            ),
    decreases s.len(),
{
    if s.len() > 0 {
        lemma_keep_in_grid(s.drop_last(), width, height);
        let rest = keep_in_grid(s.drop_last(), width, height);
        let all = keep_in_grid(s, width, height);
        assert forall|k: int| 0 <= k < all.len() implies in_grid(#[trigger] all[k], width, height) by {
            if k < rest.len() {
                assert(all[k] == rest[k]);
            }
        }
    }
}

/// Every cell that `line_pixels` reports lies inside the image.
pub proof fn lemma_line_cells_in_grid(x0: int, y0: int, x1: int, y1: int, width: int, height: int)
    ensures
        forall|k: int|
            0 <= k < line_cells(x0, y0, x1, y1, width, height).len() ==> in_grid(
                #[trigger] line_cells(x0, y0, x1, y1, width, height)[k],
                width,
                height,
            ),
{
    lemma_keep_in_grid(bresenham_path(x0, y0, x1, y1), width, height);
}

/// How far a cell lies along the directions `sx` and `sy` of a walk.
pub open spec fn progress(p: (int, int), sx: int, sy: int) -> int {
    (if sx == 1 {
        p.0
    } else {
        -p.0
    }) + (if sy == 1 {
        p.1
    } else {
        -p.1
    })
}

/// The error term's bound that keeps the walk stepping along its major
/// axis at every step.
pub open spec fn major_step_bound(err: int, dx: int, dy: int) -> bool {
    if dx >= dy {
        2 * err > -dy && (dx == dy ==> err == 0)
    } else {
        2 * err < dx
    }
}

proof fn lemma_walk_measure(
    x: int,
    y: int,
    err: int,
    x1: int,
    y1: int,
    dx: int,
    dy: int,
    sx: int,
    sy: int,
    fuel: nat,
    xs: int,
    ys: int,
)
    requires
        dx > 0,
        dy > 0,
        sx == 1 || sx == -1,
        sy == 1 || sy == -1,
        0 <= xs <= dx,
        0 <= ys <= dy,
        x1 == x + sx * (dx - xs),
        y1 == y + sy * (dy - ys),
        err == dx - dy - xs * dy + ys * dx,
        fuel >= (dx - xs) + (dy - ys) + 1,
        major_step_bound(err, dx, dy),
    ensures
        ({
            let w = bresenham_walk(x, y, err, x1, y1, dx, dy, sx, sy, fuel);
            &&& w.len() == if dx >= dy {
                dx - xs + 1
            } else {
                dy - ys + 1
            }
            &&& forall|k: int| 0 <= k < w.len() ==> progress(#[trigger] w[k], sx, sy) >= progress((x, y), sx, sy)
            &&& forall|i: int, j: int|
                0 <= i < j < w.len() ==> progress(#[trigger] w[i], sx, sy) < progress(#[trigger] w[j], sx, sy)
        }),
    decreases fuel,
{
    let w = bresenham_walk(x, y, err, x1, y1, dx, dy, sx, sy, fuel);
    assert(x == x1 <==> xs == dx) by (nonlinear_arith)
        requires
            x1 == x + sx * (dx - xs),
            sx == 1 || sx == -1,
    ;
    assert(y == y1 <==> ys == dy) by (nonlinear_arith)
        requires
            y1 == y + sy * (dy - ys),
            sy == 1 || sy == -1,
    ;
    if x == x1 && y == y1 {
        assert(w == seq![(x, y)]);
    } else {
        if xs == dx {
            lemma_x_side(dx, dy, xs, ys);
        }
        if ys == dy {
            lemma_y_side(dx, dy, xs, ys);
        }
        let e2 = 2 * err;
        let xstep = e2 > -dy;
        let ystep = e2 < dx;
        let x2 = if xstep {
            x + sx
        } else {
            x
        };
        let err2 = if xstep {
            err - dy
        } else {
            err
        };
        let y2 = if ystep {
            y + sy
        } else {
            y
        };
        let err3 = if ystep {
            err2 + dx
        } else {
            err2
        };
        let xs2 = if xstep {
            xs + 1
        } else {
            xs
        };
        let ys2 = if ystep {
            ys + 1
        } else {
            ys
        };
        assert(xstep || ystep);
        assert(dx >= dy ==> xstep);
        assert(dy > dx ==> ystep);
        assert(x1 == x2 + sx * (dx - xs2)) by (nonlinear_arith)
            requires
                x1 == x + sx * (dx - xs),
                x2 == (if xstep {
                    x + sx
                } else {
                    x
                }),
                xs2 == (if xstep {
                    xs + 1
                } else {
                    xs
                }),
        ;
        assert(y1 == y2 + sy * (dy - ys2)) by (nonlinear_arith)
            requires
                y1 == y + sy * (dy - ys),
                y2 == (if ystep {
                    y + sy
                } else {
                    y
                }),
                ys2 == (if ystep {
                    ys + 1
                } else {
                    ys
                }),
        ;
        assert(err3 == dx - dy - xs2 * dy + ys2 * dx) by (nonlinear_arith)
            requires
                err == dx - dy - xs * dy + ys * dx,
                err2 == (if xstep {
                    err - dy
                } else {
                    err
                }),
                err3 == (if ystep {
                    err2 + dx
                } else {
                    err2
                }),
                xs2 == (if xstep {
                    xs + 1
                } else {
                    xs
                }),
                ys2 == (if ystep {
                    ys + 1
                } else {
                    ys
                }),
        ;
        assert(major_step_bound(err3, dx, dy));
        assert(progress((x2, y2), sx, sy) > progress((x, y), sx, sy));
        let rest = bresenham_walk(x2, y2, err3, x1, y1, dx, dy, sx, sy, (fuel - 1) as nat);
        lemma_walk_measure(x2, y2, err3, x1, y1, dx, dy, sx, sy, (fuel - 1) as nat, xs2, ys2);
        assert(w == seq![(x, y)] + rest);
        assert forall|k: int| 0 <= k < w.len() implies progress(#[trigger] w[k], sx, sy) >= progress(
            (x, y),
            sx,
            sy,
        ) by {
            if k > 0 {
                assert(w[k] == rest[k - 1]);
            }
        }
        assert forall|i: int, j: int| 0 <= i < j < w.len() implies progress(#[trigger] w[i], sx, sy) < progress(
            #[trigger] w[j],
            sx,
            sy,
        ) by {
            assert(w[j] == rest[j - 1]);
            if i > 0 {
                assert(w[i] == rest[i - 1]);
            }
        }
    }
}

/// No cell occurs twice in `s`.
pub open spec fn no_repeats(s: Seq<(int, int)>) -> bool {
    forall|i: int, j: int| 0 <= i < j < s.len() ==> #[trigger] s[i] != #[trigger] s[j]
}

proof fn lemma_keep_in_grid_sub(s: Seq<(int, int)>, width: int, height: int)
    ensures
        keep_in_grid(s, width, height).len() <= s.len(),
        forall|k: int|
            0 <= k < keep_in_grid(s, width, height).len() ==> s.contains(
                #[trigger] keep_in_grid(s, width, height)[k],
            ),
        no_repeats(s) ==> no_repeats(keep_in_grid(s, width, height)),
    decreases s.len(),
{
    if s.len() > 0 {
        let t = s.drop_last();
        lemma_keep_in_grid_sub(t, width, height);
        let rest = keep_in_grid(t, width, height);
        let all = keep_in_grid(s, width, height);
        assert forall|k: int| 0 <= k < all.len() implies s.contains(#[trigger] all[k]) by {
            if k < rest.len() {
                assert(all[k] == rest[k]);
                let m = choose|m: int| 0 <= m < t.len() && t[m] == rest[k];
                assert(s[m] == t[m]);
            } else {
                assert(all[k] == s.last());
                assert(s[s.len() - 1] == s.last());
            }
        }
        if no_repeats(s) {
            assert(no_repeats(t)) by {
                assert forall|i: int, j: int| 0 <= i < j < t.len() implies #[trigger] t[i] != #[trigger] t[j] by {
                    assert(t[i] == s[i] && t[j] == s[j]);
                }
            }
            assert forall|i: int, j: int| 0 <= i < j < all.len() implies #[trigger] all[i] != #[trigger] all[j] by {
                assert(all[i] == rest[i]);
                if j < rest.len() {
                    assert(all[j] == rest[j]);
                } else {
                    let m = choose|m: int| 0 <= m < t.len() && t[m] == rest[i];
                    assert(s[m] == t[m]);
                    assert(all[j] == s[s.len() - 1]);
                }
            }
        }
    }
}

proof fn lemma_keep_in_grid_first(s: Seq<(int, int)>, width: int, height: int)
    requires
        s.len() > 0,
        in_grid(s[0], width, height),
    ensures
        keep_in_grid(s, width, height).len() > 0,
        keep_in_grid(s, width, height)[0] == s[0],
    decreases s.len(),
{
    let t = s.drop_last();
    if s.len() > 1 {
        lemma_keep_in_grid_first(t, width, height);
        assert(t[0] == s[0]);
    } else {
        assert(keep_in_grid(t, width, height) =~= seq![]);
    }
}

proof fn lemma_walk_cells(x0: int, y0: int, x1: int, y1: int, width: int, height: int)
    requires
        x0 != x1,
        y0 != y1,
    ensures
        no_repeats(keep_in_grid(bresenham_path(x0, y0, x1, y1), width, height)),
        keep_in_grid(bresenham_path(x0, y0, x1, y1), width, height).len() <= max_int(
            abs_int(x1 - x0),
            abs_int(y1 - y0),
        ) + 1,
        in_grid((x0, y0), width, height) ==> keep_in_grid(bresenham_path(x0, y0, x1, y1), width, height).len() > 0
            && keep_in_grid(bresenham_path(x0, y0, x1, y1), width, height)[0] == (x0, y0),
{
    let dx = abs_int(x1 - x0);
    let dy = abs_int(y1 - y0);
    let sx = step_toward(x0, x1);
    let sy = step_toward(y0, y1);
    assert(x1 == x0 + sx * (dx - 0));
    assert(y1 == y0 + sy * (dy - 0));
    lemma_walk_measure(x0, y0, dx - dy, x1, y1, dx, dy, sx, sy, (dx + dy + 1) as nat, 0, 0);
    let w = bresenham_path(x0, y0, x1, y1);
    assert(no_repeats(w)) by {
        assert forall|i: int, j: int| 0 <= i < j < w.len() implies #[trigger] w[i] != #[trigger] w[j] by {
            assert(progress(w[i], sx, sy) < progress(w[j], sx, sy));
        }
    }
    lemma_keep_in_grid_sub(w, width, height);
    if in_grid((x0, y0), width, height) {
        lemma_bresenham_path_connects(x0, y0, x1, y1);
        lemma_keep_in_grid_first(w, width, height);
    }
}

/// The pixels of a segment come without repeats, there are at most as
/// many as the segment's longer side spans, plus one, and a segment that
/// starts inside the image starts with its first pixel.
pub proof fn lemma_line_cells_measure(x0: int, y0: int, x1: int, y1: int, width: int, height: int)
    ensures
        no_repeats(line_cells(x0, y0, x1, y1, width, height)),
        line_cells(x0, y0, x1, y1, width, height).len() <= max_int(abs_int(x1 - x0), abs_int(y1 - y0)) + 1,
        in_grid((x0, y0), width, height) ==> line_cells(x0, y0, x1, y1, width, height).len() > 0
            && line_cells(x0, y0, x1, y1, width, height).contains((x0, y0)),
{
    let dx = abs_int(x1 - x0);
    let dy = abs_int(y1 - y0);
    let c = line_cells(x0, y0, x1, y1, width, height);
    if dx == 0 && dy == 0 {
    } else if dy == 0 || dx == 0 {
        assert(no_repeats(c)) by {
            assert forall|i: int, j: int| 0 <= i < j < c.len() implies #[trigger] c[i] != #[trigger] c[j] by {}
        }
    } else {
        lemma_walk_cells(x0, y0, x1, y1, width, height);
        assert(c == keep_in_grid(bresenham_path(x0, y0, x1, y1), width, height));
        if in_grid((x0, y0), width, height) {
            assert(c[0] == (x0, y0));
        }
    }
    if in_grid((x0, y0), width, height) && (dy == 0 || dx == 0) && !(dx == 0 && dy == 0) {
        if dy == 0 {
            assert(c[x0 - max_int(min_int(x0, x1), 0)] == (x0, y0));
        } else {
            assert(c[y0 - max_int(min_int(y0, y1), 0)] == (x0, y0));
        }
    }
    if in_grid((x0, y0), width, height) && dx == 0 && dy == 0 {
        assert(c[0] == (x0, y0));
    }
}

} // verus!
