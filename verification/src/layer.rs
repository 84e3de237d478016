//! A layer: one row of buttons, and the plan for bringing its picture up to date.

use vstd::prelude::*;
use crate::button::Button;
use crate::layout::{button_clip, full_clip, spec_button_clip, spec_full_clip, thickness_fits, ClipRect};

verus! {

/// One selectable row of buttons, left to right.
#[derive(Debug)]
pub struct FunctionLayer {
    pub buttons: Vec<Button>,
}

/// What one redraw has to do: whether the whole canvas is cleared first, the
/// buttons to paint in their current state, left to right, and the rectangles
/// of the buffer that changed.
#[derive(Debug)]
pub struct Frame {
    pub clear: bool,
    pub repaint: Vec<u32>,
    pub clips: Vec<ClipRect>,
}

/// The buttons that a redraw paints, left to right: all of them in a complete
/// redraw, else those whose picture is out of date.
pub open spec fn spec_repaint(buttons: Seq<Button>, complete: bool) -> Seq<u32>
    decreases buttons.len(),
{
    if buttons.len() == 0 {
        Seq::empty()
    } else {
        let rest = spec_repaint(buttons.drop_last(), complete);
        if buttons.last().changed || complete {
            rest.push((buttons.len() - 1) as u32)
        } else {
            rest
        }
    }
}

/// The rectangles that a redraw reports: the whole buffer in a complete
/// redraw, else the bounding rectangle of each repainted button.
pub open spec fn spec_dirty(buttons: Seq<Button>, width: u16, height: u16, complete: bool) -> Seq<
    ClipRect,
> {
    if complete {
        seq![spec_full_clip(width as int, height as int)]
    } else {
        spec_repaint(buttons, false).map_values(
            |i: u32| spec_button_clip(buttons.len() as int, i as int, width as int, height as int),
        )
    }
}

impl FunctionLayer {
    /// A layer has at least two buttons, and no more than can be numbered.
    pub open spec fn wf(&self) -> bool {
        2 <= self.buttons@.len() <= u32::MAX
    }

    /// Whether the layer has a size that the layout accepts.
    pub fn is_wf(&self) -> (r: bool)
        ensures
            r == self.wf(),
    {
        2 <= self.buttons.len() && self.buttons.len() <= 0xffff_ffff
    }

    /// Whether any button's picture is out of date.
    pub fn any_changed(&self) -> (r: bool)
        ensures
            r == exists|i: int| 0 <= i < self.buttons@.len() && self.buttons@[i].changed,
    {
        let mut i: usize = 0;
        while i < self.buttons.len()
            invariant
                i <= self.buttons@.len(),
                forall|j: int| 0 <= j < i ==> !self.buttons@[j].changed,
            decreases self.buttons@.len() - i,
        {
            if self.buttons[i].changed {
                return true;
            }
            i += 1;
        }
        false
    }

    /// Plans one redraw of the row on a canvas `width` long and `height`
    /// thick, and marks every button as up to date.
    pub fn draw(&mut self, width: u16, height: u16, complete_redraw: bool) -> (frame: Frame)
        requires
            old(self).wf(),
            thickness_fits(height as int),
        ensures
            final(self).buttons@ == old(self).buttons@.map_values(|b: Button| b.spec_settled()),
            frame.clear == complete_redraw,
            frame.repaint@ == spec_repaint(old(self).buttons@, complete_redraw),
            frame.clips@ == spec_dirty(old(self).buttons@, width, height, complete_redraw),
    {
        let num: usize = self.buttons.len();
        let mut repaint: Vec<u32> = Vec::new();
        let mut modified_regions: Vec<ClipRect> = Vec::new();
        let ghost clip_of = |i: u32|
            spec_button_clip(num as int, i as int, width as int, height as int);
        let mut i: usize = 0;
        while i < num
            invariant
                i <= num,
                num == self.buttons@.len(),
                num == old(self).buttons@.len(),
                2 <= num <= u32::MAX,
                thickness_fits(height as int),
                clip_of == |i: u32|
                    spec_button_clip(num as int, i as int, width as int, height as int),
                forall|j: int| 0 <= j < i ==> self.buttons@[j] == old(self).buttons@[j].spec_settled(),
                forall|j: int| i <= j < num ==> self.buttons@[j] == old(self).buttons@[j],
                repaint@ == spec_repaint(old(self).buttons@.take(i as int), complete_redraw),
                modified_regions@ == repaint@.map_values(clip_of),
            decreases num - i,
        {
            proof {
                assert(old(self).buttons@.take(i + 1).drop_last() =~= old(self).buttons@.take(
                    i as int,
                ));
            }
            if self.buttons[i].changed || complete_redraw {
                self.buttons[i].changed = false;
                repaint.push(i as u32);
                modified_regions.push(button_clip(num as u32, i as u32, width, height));
                assert(modified_regions@ =~= repaint@.map_values(clip_of));
            }
            i += 1;
        }
        proof {
            assert(old(self).buttons@.take(num as int) =~= old(self).buttons@);
            assert(self.buttons@ =~= old(self).buttons@.map_values(|b: Button| b.spec_settled()));
        }
        if complete_redraw {
            let mut all: Vec<ClipRect> = Vec::new();
            all.push(full_clip(width, height));
            assert(all@ =~= spec_dirty(old(self).buttons@, width, height, complete_redraw));
            Frame { clear: true, repaint, clips: all }
        } else {
            Frame { clear: false, repaint, clips: modified_regions }
        }
    }
}

} // verus!
