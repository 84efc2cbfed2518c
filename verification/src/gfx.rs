//! Recording of draw commands, to be played back by a renderer.

use vstd::prelude::*;

verus! {

/// A frame that draw lists are submitted into.
pub trait Frame {}

/// An image that can be drawn.
pub trait Image {}

/// An image that can be drawn to.
pub trait RenderTarget: Image {}

/// The identifier of a submission to the graphics queue.
#[derive(Copy, Clone, Debug, PartialEq, Eq, Hash, Structural)]
pub struct SubmitId(pub u64);

/// A command of a draw list.
#[derive(Copy, Clone, Debug, PartialEq, Eq, Structural)]
pub enum DrawCommand {
    /// Starts the list.
    Begin,
    /// Ends the list.
    End,
    /// Clips to the next area.
    Clip,
    /// Clears to the color at the command's index.
    Clear,
    /// Draws the rectangles recorded so far, up to the command's count.
    DrawRects,
}

/// A list of draw commands: the commands, each with its argument, and the
/// rectangles, clip areas and clear colors that they refer to.
pub struct DrawList<R, A, C> {
    pub rects: Vec<R>,
    pub areas: Vec<A>,
    pub clears: Vec<C>,
    pub commands: Vec<(DrawCommand, u32)>,
    pub n_rects: u32,
    pub is_ended: bool,
}

/// The commands that flushing before `command` appends, when `drawn`
/// rectangles of `recorded` are covered: a `DrawRects` covering the rest,
/// unless the command itself draws rectangles or there are none left.
pub open spec fn flushed(drawn: u32, recorded: nat, command: DrawCommand) -> Seq<(DrawCommand, u32)> {
    if command != DrawCommand::DrawRects && drawn < recorded as u32 {
        seq![(DrawCommand::DrawRects, recorded as u32)]
    } else {
        Seq::empty()
    }
}

/// Ending a list draws every rectangle recorded: when some of the
/// `recorded` rectangles are not yet covered by a `DrawRects` command (only
/// `drawn` are), a `DrawRects` covering all of them comes before `End`, and
/// nothing comes when all are covered. Recording a rectangle or clearing
/// draws nothing yet.
pub proof fn law_end_covers_every_rect(drawn: u32, recorded: nat)
    requires
        recorded <= u32::MAX,
        drawn <= recorded,
    ensures
        drawn < recorded ==> flushed(drawn, recorded, DrawCommand::End) == seq![
            (DrawCommand::DrawRects, recorded as u32),
        ],
        drawn == recorded ==> flushed(drawn, recorded, DrawCommand::End).len() == 0,
        flushed(drawn, recorded, DrawCommand::DrawRects).len() == 0,
{
}

impl<R, A, C> DrawList<R, A, C> {
    /// The number of rectangles covered by a `DrawRects` command so far.
    pub open spec fn drawn(&self) -> u32 {
        self.n_rects
    }

    /// Whether the list has been ended.
    pub open spec fn ended(&self) -> bool {
        self.is_ended
    }

    /// An empty list.
    pub fn new() -> (r: Self)
        ensures
            r.rects@.len() == 0,
            r.areas@.len() == 0,
            r.clears@.len() == 0,
            r.commands@.len() == 0,
            r.drawn() == 0,
            !r.ended(),
    {
        DrawList {
            rects: Vec::new(),
            areas: Vec::new(),
            clears: Vec::new(),
            commands: Vec::new(),
            n_rects: 0,
            is_ended: false,
        }
    }

    /// Empties the list, so that it can be recorded again.
    pub fn reset(&mut self)
        ensures
            final(self).rects@.len() == 0,
            final(self).areas@.len() == 0,
            final(self).clears@.len() == 0,
            final(self).commands@.len() == 0,
            final(self).drawn() == 0,
            !final(self).ended(),
    {
        self.rects.clear();
        self.areas.clear();
        self.clears.clear();
        self.commands.clear();
        self.n_rects = 0;
        self.is_ended = false;
    }

    /// Appends a `DrawRects` command for the rectangles recorded since the
    /// last one, unless `command` draws rectangles itself.
    fn flush_command(&mut self, command: DrawCommand)
        ensures
            final(self).commands@ == old(self).commands@ + flushed(old(self).drawn(), old(self).rects@.len(), command),
            final(self).drawn() == (if flushed(old(self).drawn(), old(self).rects@.len(), command).len() > 0 {
                old(self).rects@.len() as u32
            } else {
                old(self).drawn()
            }),
            final(self).rects@ == old(self).rects@,
            final(self).areas@ == old(self).areas@,
            final(self).clears@ == old(self).clears@,
            final(self).ended() == old(self).ended(),
    {
        if command != DrawCommand::DrawRects && self.n_rects < self.rects.len() as u32 {
            let end = self.rects.len() as u32;
            self.commands.push((DrawCommand::DrawRects, end));
            self.n_rects = end;
            proof {
                assert(self.commands@ =~= old(self).commands@ + flushed(old(self).drawn(), old(self).rects@.len(), command));
            }
        } else {
            proof {
                assert(self.commands@ =~= old(self).commands@ + flushed(old(self).drawn(), old(self).rects@.len(), command));
            }
        }
    }

    /// Starts the list, clipped to `clip`.
    pub fn begin(&mut self, clip: A)
        requires
            !old(self).ended(),
        ensures
            final(self).commands@ == old(self).commands@ + seq![
                (DrawCommand::Begin, 0u32),
                (DrawCommand::Clip, 0u32),
            ],
            final(self).areas@ == old(self).areas@.push(clip),
            final(self).rects@ == old(self).rects@,
            final(self).clears@ == old(self).clears@,
            final(self).drawn() == old(self).drawn(),
            !final(self).ended(),
    {
        self.commands.push((DrawCommand::Begin, 0));
        self.commands.push((DrawCommand::Clip, 0));
        self.areas.push(clip);
        proof {
            assert(self.commands@ =~= old(self).commands@ + seq![
                (DrawCommand::Begin, 0u32),
                (DrawCommand::Clip, 0u32),
            ]);
        }
    }

    /// Ends the list: draws the rectangles not yet drawn, then appends
    /// `End`.
    pub fn end(&mut self)
        requires
            !old(self).ended(),
        ensures
            final(self).commands@ == old(self).commands@ + flushed(old(self).drawn(), old(self).rects@.len(), DrawCommand::End)
                + seq![(DrawCommand::End, 0u32)],
            final(self).rects@ == old(self).rects@,
            final(self).areas@ == old(self).areas@,
            final(self).clears@ == old(self).clears@,
            final(self).ended(),
            final(self).drawn() == (if flushed(old(self).drawn(), old(self).rects@.len(), DrawCommand::End).len() > 0 {
                old(self).rects@.len() as u32
            } else {
                old(self).drawn()
            }),
            old(self).rects@.len() <= u32::MAX && old(self).drawn() < old(self).rects@.len()
                ==> final(self).commands@ == old(self).commands@ + seq![
                (DrawCommand::DrawRects, old(self).rects@.len() as u32),
                (DrawCommand::End, 0u32),
            ],
            old(self).drawn() >= old(self).rects@.len() ==> final(self).commands@ == old(
                self,
            ).commands@.push((DrawCommand::End, 0u32)),
            old(self).rects@.len() <= u32::MAX && old(self).drawn() <= old(self).rects@.len()
                ==> final(self).drawn() == old(self).rects@.len(),
    {
        proof {
            if old(self).rects@.len() <= u32::MAX && old(self).drawn() <= old(self).rects@.len() {
                law_end_covers_every_rect(old(self).drawn(), old(self).rects@.len());
            }
        }
        self.flush_command(DrawCommand::End);
        self.commands.push((DrawCommand::End, 0));
        self.is_ended = true;
    }

    /// Clears the target to `color`.
    pub fn clear(&mut self, color: C)
        requires
            !old(self).ended(),
        ensures
            final(self).commands@ == old(self).commands@ + seq![
                (DrawCommand::Clear, old(self).clears@.len() as u32),
            ],
            final(self).clears@ == old(self).clears@.push(color),
            final(self).rects@ == old(self).rects@,
            final(self).areas@ == old(self).areas@,
            final(self).drawn() == old(self).drawn(),
            !final(self).ended(),
    {
        self.flush_command(DrawCommand::DrawRects);
        let index = self.clears.len() as u32;
        self.commands.push((DrawCommand::Clear, index));
        self.clears.push(color);
        proof {
            assert(self.commands@ =~= old(self).commands@ + seq![
                (DrawCommand::Clear, old(self).clears@.len() as u32),
            ]);
        }
    }

    /// Records a rectangle, drawn by the next `DrawRects` command.
    pub fn draw_rect(&mut self, rect: R)
        requires
            !old(self).ended(),
        ensures
            final(self).rects@ == old(self).rects@.push(rect),
            final(self).commands@ == old(self).commands@,
            final(self).areas@ == old(self).areas@,
            final(self).clears@ == old(self).clears@,
            final(self).drawn() == old(self).drawn(),
            !final(self).ended(),
    {
        self.flush_command(DrawCommand::DrawRects);
        self.rects.push(rect);
    }
}

} // verus!
