//! Tools for showing what the game logic does: texts, lines and crosses
//! that the caller draws over the game.
//!
//! Everything is collected in a `DebugSink` that the caller owns and
//! hands to whoever wants to show something. `cleanup` is called once
//! per frame, after drawing.

use vstd::prelude::*;
use crate::fixed::Vec2;

verus! {

/// A text to be shown at a place in the world for one frame.
#[derive(Debug, Clone)]
pub struct WorldText {
    pub msg: String,
    pub pos: Vec2,
}

/// A line to be drawn between two places in the world.
#[derive(Debug, Clone, Copy)]
pub struct Line {
    pub begin: Vec2,
    pub end: Vec2,
    /// The time left, which the caller decreases every frame.
    pub time: i64,
    pub color: &'static str,
}

/// A small cross to be drawn at a place in the world.
#[derive(Debug, Clone, Copy)]
pub struct Cross {
    pub point: Vec2,
    /// The time left, which the caller decreases every frame.
    pub time: i64,
    pub color: &'static str,
}

/// What has been handed in and not yet cleaned up.
pub struct DebugSink {
    /// Lines of text for the screen, shown for one frame.
    pub texts: Vec<String>,
    /// Texts for places in the world, shown for one frame.
    pub texts_world: Vec<WorldText>,
    pub lines: Vec<Line>,
    pub crosses: Vec<Cross>,
}

impl DebugSink {
    /// A sink that holds nothing.
    pub fn new() -> (sink: DebugSink)
        ensures
            sink.texts@.len() == 0,
            sink.texts_world@.len() == 0,
            sink.lines@.len() == 0,
            sink.crosses@.len() == 0,
    {
        DebugSink {
            texts: Vec::new(),
            texts_world: Vec::new(),
            lines: Vec::new(),
            crosses: Vec::new(),
        }
    }
}

/// Adds a line from `begin` to `end` that stays for `time` seconds; a
/// time of zero means one frame.
pub fn debug_line(sink: &mut DebugSink, begin: Vec2, end: Vec2, time: i64, color: &'static str)
    ensures
        final(sink).lines@ == old(sink).lines@.push(Line { begin, end, time, color }),
        final(sink).crosses == old(sink).crosses,
        final(sink).texts == old(sink).texts,
        final(sink).texts_world == old(sink).texts_world,
{
    sink.lines.push(Line { begin, end, time, color });
}

/// Adds a cross at `point` that stays for `time` seconds; a time of
/// zero means one frame.
pub fn debug_cross(sink: &mut DebugSink, point: Vec2, time: i64, color: &'static str)
    ensures
        final(sink).crosses@ == old(sink).crosses@.push(Cross { point, time, color }),
        final(sink).lines == old(sink).lines,
        final(sink).texts == old(sink).texts,
        final(sink).texts_world == old(sink).texts_world,
{
    sink.crosses.push(Cross { point, time, color });
}

/// Whether a line has time left.
pub open spec fn line_stays(line: Line) -> bool {
    line.time > 0
}

/// Whether a cross has time left.
pub open spec fn cross_stays(cross: Cross) -> bool {
    cross.time > 0
}

/// The lines with time left, in their order.
fn lines_that_stay(lines: &Vec<Line>) -> (r: Vec<Line>)
    ensures
        r@ == lines@.filter(|l: Line| line_stays(l)),
{
    let mut r: Vec<Line> = Vec::new();
    let mut i: usize = 0;
    proof {
        reveal(Seq::filter);
        assert(lines@.take(0) =~= Seq::<Line>::empty());
    }
    while i < lines.len()
        invariant
            i <= lines.len(),
            r@ == lines@.take(i as int).filter(|l: Line| line_stays(l)),
        decreases lines.len() - i,
    {
        proof {
            reveal(Seq::filter);
            assert(lines@.take(i + 1).drop_last() =~= lines@.take(i as int));
        }
        if lines[i].time > 0 {
            r.push(lines[i]);
        }
        i += 1;
    }
    proof {
        assert(lines@.take(i as int) =~= lines@);
    }
    r
}

/// The crosses with time left, in their order.
fn crosses_that_stay(crosses: &Vec<Cross>) -> (r: Vec<Cross>)
    ensures
        r@ == crosses@.filter(|c: Cross| cross_stays(c)),
{
    let mut r: Vec<Cross> = Vec::new();
    let mut i: usize = 0;
    proof {
        reveal(Seq::filter);
        assert(crosses@.take(0) =~= Seq::<Cross>::empty());
    }
    while i < crosses.len()
        invariant
            i <= crosses.len(),
            r@ == crosses@.take(i as int).filter(|c: Cross| cross_stays(c)),
        decreases crosses.len() - i,
    {
        proof {
            reveal(Seq::filter);
            assert(crosses@.take(i + 1).drop_last() =~= crosses@.take(i as int));
        }
        if crosses[i].time > 0 {
            r.push(crosses[i]);
        }
        i += 1;
    }
    proof {
        assert(crosses@.take(i as int) =~= crosses@);
    }
    r
}

/// Drops what has been shown long enough: all texts, and the lines and
/// crosses that have no time left. The others stay, in their order.
pub fn cleanup(sink: &mut DebugSink)
    ensures
        final(sink).lines@ == old(sink).lines@.filter(|l: Line| line_stays(l)),
        final(sink).crosses@ == old(sink).crosses@.filter(|c: Cross| cross_stays(c)),
        final(sink).texts@.len() == 0,
        final(sink).texts_world@.len() == 0,
{
    sink.lines = lines_that_stay(&sink.lines);
    sink.crosses = crosses_that_stay(&sink.crosses);
    sink.texts.clear();
    sink.texts_world.clear();
}

/// Counts how many items pass by, and writes the count down when the
/// end comes.
#[derive(Debug)]
pub struct DbgCounter {
    pub name: &'static str,
    pub cnt: usize,
}

/// The line that tells a count: the name, a colon, a space, and the
/// count in decimal digits.
pub uninterp spec fn count_text(name: Seq<char>, cnt: usize) -> Seq<char>;

/// `format!` of the standard library, with the pattern `{}: {}`: the
/// line that tells a count.
#[verifier::external_body]
fn count_line(name: &str, cnt: usize) -> (line: String)
    ensures
        line@ == count_text(name@, cnt),
{
    format!("{}: {}", name, cnt)
}

impl DbgCounter {
    /// A counter at zero.
    pub fn new(name: &'static str) -> (c: DbgCounter)
        ensures
            c.name == name,
            c.cnt == 0,
    {
        DbgCounter { name, cnt: 0 }
    }

    /// Lets one step of an iteration pass: an item is counted and handed
    /// on; at the end, one line with the name and the count goes to the
    /// sink's texts. The count stops at the largest number there is.
    pub fn next<T>(&mut self, item: Option<T>, sink: &mut DebugSink) -> (r: Option<T>)
        ensures
            r == item,
            final(self).name == old(self).name,
            final(self).cnt == if item.is_some() && old(self).cnt < usize::MAX {
                (old(self).cnt + 1) as usize
            } else {
                old(self).cnt
            },
            item.is_some() ==> final(sink).texts@ == old(sink).texts@,
            item.is_none() ==> final(sink).texts@.len() == old(sink).texts@.len() + 1,
            item.is_none() ==> final(sink).texts@.drop_last() == old(sink).texts@,
            item.is_none() ==> final(sink).texts@.last()@ == count_text(
                old(self).name@,
                old(self).cnt,
            ),
            final(sink).texts_world == old(sink).texts_world,
            final(sink).lines == old(sink).lines,
            final(sink).crosses == old(sink).crosses,
    {
        match item {
            Some(x) => {
                if self.cnt < usize::MAX {
                    self.cnt += 1;
                }
                Some(x)
            },
            None => {
                sink.texts.push(count_line(self.name, self.cnt));
                assert(sink.texts@.drop_last() =~= old(sink).texts@);
                None
            },
        }
    }
}

} // verus!
