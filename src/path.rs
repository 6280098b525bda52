//! The path segment converter: raw drawing commands in, a normalized event
//! stream out.
use vstd::prelude::*;
use crate::geom::{neg_sat, neg_sat_spec, Point, Transform2};

verus! {

/// A raw drawing command of a path.
#[derive(Clone, Copy, Debug, PartialEq, Eq, Structural)]
pub enum PathSegment {
    MoveTo(Point),
    LineTo(Point),
    QuadTo(Point, Point),
    CubicTo(Point, Point, Point),
    Close,
}

/// A normalized path event, as a tessellator consumes it.
#[derive(Clone, Copy, Debug, PartialEq, Eq, Structural)]
pub enum PathEvent {
    Begin { at: Point },
    Line { from: Point, to: Point },
    Quadratic { from: Point, ctrl: Point, to: Point },
    Cubic { from: Point, ctrl1: Point, ctrl2: Point, to: Point },
    End { last: Point, first: Point, close: bool },
}

/// `p` with the X axis mirrored when `fx` holds, and the Y axis when `fy` holds.
pub open spec fn flip_point(p: Point, fx: bool, fy: bool) -> Point {
    Point {
        x: if fx { neg_sat_spec(p.x) } else { p.x },
        y: if fy { neg_sat_spec(p.y) } else { p.y },
    }
}

pub open spec fn flip_segment(s: PathSegment, fx: bool, fy: bool) -> PathSegment {
    match s {
        PathSegment::MoveTo(p) => PathSegment::MoveTo(flip_point(p, fx, fy)),
        PathSegment::LineTo(p) => PathSegment::LineTo(flip_point(p, fx, fy)),
        PathSegment::QuadTo(c, p) => PathSegment::QuadTo(flip_point(c, fx, fy), flip_point(p, fx, fy)),
        PathSegment::CubicTo(c1, c2, p) => PathSegment::CubicTo(
            flip_point(c1, fx, fy),
            flip_point(c2, fx, fy),
            flip_point(p, fx, fy),
        ),
        PathSegment::Close => PathSegment::Close,
    }
}

/// The commands with the sign correction applied to every point.
pub open spec fn flipped(s: Seq<PathSegment>, fx: bool, fy: bool) -> Seq<PathSegment> {
    s.map_values(|c: PathSegment| flip_segment(c, fx, fy))
}

pub open spec fn origin_point() -> Point {
    Point { x: 0, y: 0 }
}

/// The events that the commands `cmds` produce, when `prev` is the last point
/// reached, `first` the start of the current subpath, and `open` tells whether
/// that subpath still needs an `End`.
pub open spec fn run(cmds: Seq<PathSegment>, prev: Point, first: Point, open: bool) -> Seq<PathEvent>
    decreases cmds.len(),
{
    if cmds.len() == 0 {
        if open {
            seq![PathEvent::End { last: prev, first, close: false }]
        } else {
            Seq::empty()
        }
    } else {
        let rest = cmds.drop_first();
        match cmds[0] {
            PathSegment::MoveTo(p) => if open {
                seq![PathEvent::End { last: prev, first, close: false }, PathEvent::Begin { at: p }]
                    + run(rest, p, p, false)
            } else {
                seq![PathEvent::Begin { at: p }] + run(rest, p, p, false)
            },
            PathSegment::LineTo(p) => seq![PathEvent::Line { from: prev, to: p }] + run(
                rest,
                p,
                first,
                true,
            ),
            PathSegment::QuadTo(c, p) => seq![PathEvent::Quadratic { from: prev, ctrl: c, to: p }]
                + run(rest, p, first, true),
            PathSegment::CubicTo(c1, c2, p) => seq![
                PathEvent::Cubic { from: prev, ctrl1: c1, ctrl2: c2, to: p },
            ] + run(rest, p, first, true),
            PathSegment::Close => seq![PathEvent::End { last: first, first, close: true }] + run(
                rest,
                first,
                first,
                false,
            ),
        }
    }
}

/// The whole event stream of a path: its commands, sign-corrected, run from a
/// fresh state.
pub open spec fn convert_spec(cmds: Seq<PathSegment>, fx: bool, fy: bool) -> Seq<PathEvent> {
    run(flipped(cmds, fx, fy), origin_point(), origin_point(), false)
}

/// A lazy converter from path commands to path events.
pub struct PathConvIter {
    segments: Vec<PathSegment>,
    pos: usize,
    prev: Point,
    first: Point,
    needs_end: bool,
    deferred: Option<PathEvent>,
    flip_x: bool,
    flip_y: bool,
}

fn flip_coord(v: i64, flip: bool) -> (r: i64)
    ensures
        r == if flip { neg_sat_spec(v) } else { v },
{
    if flip {
        neg_sat(v)
    } else {
        v
    }
}

impl PathConvIter {
    /// The events that are still to come.
    pub closed spec fn pending(&self) -> Seq<PathEvent> {
        let rest = run(
            flipped(self.segments@, self.flip_x, self.flip_y).skip(self.pos as int),
            self.prev,
            self.first,
            self.needs_end,
        );
        match self.deferred {
            Some(e) => seq![e] + rest,
            None => rest,
        }
    }

    pub closed spec fn wf(&self) -> bool {
        self.pos <= self.segments.len()
    }

    /// A converter over `segments`, mirroring each axis on which `transform`
    /// has a negative scale factor.
    pub fn new(segments: Vec<PathSegment>, transform: &Transform2) -> (r: PathConvIter)
        ensures
            r.wf(),
            r.pending() == convert_spec(segments@, transform.sx < 0, transform.sy < 0),
    {
        let r = PathConvIter {
            segments,
            pos: 0,
            prev: Point { x: 0, y: 0 },
            first: Point { x: 0, y: 0 },
            needs_end: false,
            deferred: None,
            flip_x: transform.sx < 0,
            flip_y: transform.sy < 0,
        };
        assert(flipped(r.segments@, r.flip_x, r.flip_y).skip(0) =~= flipped(
            r.segments@,
            r.flip_x,
            r.flip_y,
        ));
        r
    }

    fn flip(&self, p: Point) -> (r: Point)
        ensures
            r == flip_point(p, self.flip_x, self.flip_y),
    {
        Point { x: flip_coord(p.x, self.flip_x), y: flip_coord(p.y, self.flip_y) }
    }

    /// The next event, if any is left.
    pub fn next(&mut self) -> (r: Option<PathEvent>)
        requires
            old(self).wf(),
        ensures
            final(self).wf(),
            match r {
                Some(e) => old(self).pending() == seq![e] + final(self).pending(),
                None => old(self).pending().len() == 0 && final(self).pending().len() == 0,
            },
    {
        let ghost fl = flipped(self.segments@, self.flip_x, self.flip_y);
        if self.deferred.is_some() {
            return self.deferred.take();
        }
        if self.pos == self.segments.len() {
            assert(fl.skip(self.pos as int).len() == 0);
            if self.needs_end {
                self.needs_end = false;
                return Some(PathEvent::End { last: self.prev, first: self.first, close: false });
            }
            return None;
        }
        let seg = self.segments[self.pos];
        proof {
            let s = fl.skip(self.pos as int);
            assert(s[0] == flip_segment(seg, self.flip_x, self.flip_y));
            assert(s.drop_first() =~= fl.skip(self.pos + 1));
        }
        self.pos = self.pos + 1;
        match seg {
            PathSegment::MoveTo(p) => {
                let at = self.flip(p);
                if self.needs_end {
                    let last = self.prev;
                    let first = self.first;
                    self.needs_end = false;
                    self.prev = at;
                    self.first = at;
                    self.deferred = Some(PathEvent::Begin { at });
                    Some(PathEvent::End { last, first, close: false })
                } else {
                    self.prev = at;
                    self.first = at;
                    Some(PathEvent::Begin { at })
                }
            },
            PathSegment::LineTo(p) => {
                let to = self.flip(p);
                let from = self.prev;
                self.needs_end = true;
                self.prev = to;
                Some(PathEvent::Line { from, to })
            },
            PathSegment::QuadTo(c, p) => {
                let ctrl = self.flip(c);
                let to = self.flip(p);
                let from = self.prev;
                self.needs_end = true;
                self.prev = to;
                Some(PathEvent::Quadratic { from, ctrl, to })
            },
            PathSegment::CubicTo(c1, c2, p) => {
                let ctrl1 = self.flip(c1);
                let ctrl2 = self.flip(c2);
                let to = self.flip(p);
                let from = self.prev;
                self.needs_end = true;
                self.prev = to;
                Some(PathEvent::Cubic { from, ctrl1, ctrl2, to })
            },
            PathSegment::Close => {
                self.needs_end = false;
                self.prev = self.first;
                Some(PathEvent::End { last: self.first, first: self.first, close: true })
            },
        }
    }

    /// Drains the converter, returning every event that was still to come.
    pub fn collect_events(&mut self) -> (r: Vec<PathEvent>)
        requires
            old(self).wf(),
        ensures
            final(self).wf(),
            r@ == old(self).pending(),
            final(self).pending().len() == 0,
    {
        let mut out: Vec<PathEvent> = Vec::new();
        loop
            invariant
                self.wf(),
                out@ + self.pending() == old(self).pending(),
            decreases self.pending().len(),
        {
            match self.next() {
                Some(e) => {
                    out.push(e);
                },
                None => {
                    assert(out@ + self.pending() =~= out@);
                    return out;
                },
            }
        }
    }
}

/// The whole event stream of a path with the given commands and absolute transform.
pub fn convert_segments(segments: &Vec<PathSegment>, transform: &Transform2) -> (r: Vec<PathEvent>)
    ensures
        r@ == convert_spec(segments@, transform.sx < 0, transform.sy < 0),
{
    let mut it = PathConvIter::new(segments.clone(), transform);
    it.collect_events()
}


/// The command draws (a line or a curve), so its subpath stays open after it.
pub open spec fn is_draw(s: PathSegment) -> bool {
    s is LineTo || s is QuadTo || s is CubicTo
}

/// The point that a drawing command reaches.
pub open spec fn endpoint(s: PathSegment) -> Point {
    match s {
        PathSegment::LineTo(p) => p,
        PathSegment::QuadTo(_, p) => p,
        PathSegment::CubicTo(_, _, p) => p,
        PathSegment::MoveTo(p) => p,
        PathSegment::Close => origin_point(),
    }
}

/// The start of the subpath that is current after `cmds`: the point of the
/// last `MoveTo`, or `start` where there is none.
pub open spec fn subpath_start(cmds: Seq<PathSegment>, start: Point) -> Point
    decreases cmds.len(),
{
    if cmds.len() == 0 {
        start
    } else {
        match cmds[0] {
            PathSegment::MoveTo(p) => subpath_start(cmds.drop_first(), p),
            _ => subpath_start(cmds.drop_first(), start),
        }
    }
}

proof fn lemma_flipped_start(cmds: Seq<PathSegment>, start: Point, fx: bool, fy: bool)
    ensures
        subpath_start(flipped(cmds, fx, fy), flip_point(start, fx, fy)) == flip_point(
            subpath_start(cmds, start),
            fx,
            fy,
        ),
    decreases cmds.len(),
{
    if cmds.len() > 0 {
        assert(flipped(cmds, fx, fy).drop_first() =~= flipped(cmds.drop_first(), fx, fy));
        match cmds[0] {
            PathSegment::MoveTo(p) => lemma_flipped_start(cmds.drop_first(), p, fx, fy),
            _ => lemma_flipped_start(cmds.drop_first(), start, fx, fy),
        }
    }
}

/// How many `Close` commands the sequence holds.
pub open spec fn count_closes(cmds: Seq<PathSegment>) -> nat
    decreases cmds.len(),
{
    if cmds.len() == 0 {
        0
    } else {
        (if cmds[0] is Close { 1nat } else { 0nat }) + count_closes(cmds.drop_first())
    }
}

/// How many `End` events with `close` set the sequence holds.
pub open spec fn count_closed_ends(evs: Seq<PathEvent>) -> nat
    decreases evs.len(),
{
    if evs.len() == 0 {
        0
    } else {
        (if evs[0] matches PathEvent::End { close, .. } && close { 1nat } else { 0nat })
            + count_closed_ends(evs.drop_first())
    }
}

/// Read left to right, every closed `End` has `first` and `last` equal to the
/// point of the most recent `Begin`, or to `anchor` while no `Begin` has come.
pub open spec fn closes_anchored(evs: Seq<PathEvent>, anchor: Point) -> bool
    decreases evs.len(),
{
    if evs.len() == 0 {
        true
    } else {
        match evs[0] {
            PathEvent::Begin { at } => closes_anchored(evs.drop_first(), at),
            PathEvent::End { last, first, close } => (close ==> first == anchor && last == anchor)
                && closes_anchored(evs.drop_first(), anchor),
            _ => closes_anchored(evs.drop_first(), anchor),
        }
    }
}

proof fn lemma_run_open_end(cmds: Seq<PathSegment>, prev: Point, first: Point, open: bool)
    requires
        cmds.len() > 0,
        is_draw(cmds.last()),
    ensures
        run(cmds, prev, first, open).len() >= 2,
        run(cmds, prev, first, open).last() matches PathEvent::End { last, close, .. } && last
            == endpoint(cmds.last()) && !close,
        run(cmds, prev, first, open).last() matches PathEvent::End { first: f, .. } && f
            == subpath_start(cmds, first),
        run(cmds, prev, first, open)[run(cmds, prev, first, open).len() - 2] !is End,
    decreases cmds.len(),
{
    let rest = cmds.drop_first();
    let out = run(cmds, prev, first, open);
    if !(cmds[0] is MoveTo) {
        assert(subpath_start(cmds, first) == subpath_start(rest, first));
    }
    if cmds.len() == 1 {
        assert(rest.len() == 0);
        assert(subpath_start(rest, first) == first);
    } else {
        assert(rest.last() == cmds.last());
        match cmds[0] {
            PathSegment::MoveTo(p) => {
                lemma_run_open_end(rest, p, p, false);
            },
            PathSegment::LineTo(p) => {
                lemma_run_open_end(rest, p, first, true);
            },
            PathSegment::QuadTo(_, p) => {
                lemma_run_open_end(rest, p, first, true);
            },
            PathSegment::CubicTo(_, _, p) => {
                lemma_run_open_end(rest, p, first, true);
            },
            PathSegment::Close => {
                lemma_run_open_end(rest, first, first, false);
            },
        }
    }
}

proof fn lemma_run_closes(cmds: Seq<PathSegment>, prev: Point, first: Point, open: bool)
    ensures
        count_closed_ends(run(cmds, prev, first, open)) == count_closes(cmds),
        closes_anchored(run(cmds, prev, first, open), first),
    decreases cmds.len(),
{
    let out = run(cmds, prev, first, open);
    if cmds.len() == 0 {
        if open {
            assert(out.drop_first() =~= Seq::<PathEvent>::empty());
            assert(count_closed_ends(out.drop_first()) == 0);
            assert(closes_anchored(out.drop_first(), first));
        }
    } else {
        let rest = cmds.drop_first();
        let (np, nf, no) = match cmds[0] {
            PathSegment::MoveTo(p) => (p, p, false),
            PathSegment::LineTo(p) => (p, first, true),
            PathSegment::QuadTo(_, p) => (p, first, true),
            PathSegment::CubicTo(_, _, p) => (p, first, true),
            PathSegment::Close => (first, first, false),
        };
        lemma_run_closes(rest, np, nf, no);
        let r = run(rest, np, nf, no);
        if cmds[0] is MoveTo && open {
            let t = out.drop_first();
            assert(t =~= seq![PathEvent::Begin { at: np }] + r);
            assert(t.drop_first() =~= r);
            assert(t[0] == PathEvent::Begin { at: np });
            assert(count_closed_ends(t) == count_closed_ends(r));
            assert(closes_anchored(t, first));
        } else {
            assert(out.drop_first() =~= r);
        }
    }
}

proof fn lemma_flipped_closes(cmds: Seq<PathSegment>, fx: bool, fy: bool)
    ensures
        count_closes(flipped(cmds, fx, fy)) == count_closes(cmds),
    decreases cmds.len(),
{
    if cmds.len() > 0 {
        assert(flipped(cmds, fx, fy).drop_first() =~= flipped(cmds.drop_first(), fx, fy));
        lemma_flipped_closes(cmds.drop_first(), fx, fy);
    }
}

/// A path whose last command draws ends its event stream with a single
/// synthesized `End` that is not closed: it stops at the point the last
/// command reached, its `first` is the point of the last `MoveTo` (the origin
/// where there is none), both sign-corrected, and the event before it is that
/// drawing event, not another `End`.
pub proof fn lemma_open_path_ends_once(cmds: Seq<PathSegment>, fx: bool, fy: bool)
    requires
        cmds.len() > 0,
        is_draw(cmds.last()),
    ensures
        convert_spec(cmds, fx, fy).len() >= 2,
        convert_spec(cmds, fx, fy).last() matches PathEvent::End { last, close, .. } && last
            == flip_point(endpoint(cmds.last()), fx, fy) && !close,
        convert_spec(cmds, fx, fy).last() matches PathEvent::End { first, .. } && first
            == flip_point(subpath_start(cmds, origin_point()), fx, fy),
        convert_spec(cmds, fx, fy)[convert_spec(cmds, fx, fy).len() - 2] !is End,
{
    let f = flipped(cmds, fx, fy);
    assert(f.last() == flip_segment(cmds.last(), fx, fy));
    assert(flip_point(origin_point(), fx, fy) == origin_point());
    lemma_flipped_start(cmds, origin_point(), fx, fy);
    lemma_run_open_end(f, origin_point(), origin_point(), false);
}

/// A path with N `Close` commands yields exactly N closed `End` events, and
/// each of them has `first == last`, equal to the point of the most recent
/// `Begin` (the origin, while no `Begin` has come yet).
pub proof fn lemma_closes_counted(cmds: Seq<PathSegment>, fx: bool, fy: bool)
    ensures
        count_closed_ends(convert_spec(cmds, fx, fy)) == count_closes(cmds),
        closes_anchored(convert_spec(cmds, fx, fy), origin_point()),
{
    lemma_flipped_closes(cmds, fx, fy);
    lemma_run_closes(flipped(cmds, fx, fy), origin_point(), origin_point(), false);
}

} // verus!
