//! The `Ops` container: an ordered sequence of operation nodes.
use vstd::prelude::*;

use crate::ops::enums::CommandType;
use crate::ops::types::{
    extra_view, node_command_type, node_end_point, Axis, MarkerCmd, MoveCmdView, OpCategoryView, OpNode,
    OpNodeView, Point3D, ZERO_BITS,
};

verus! {

/// An ordered sequence of operation nodes, with the point that the
/// sequence's last move went to (it travels with the sequence when the
/// sequence is written out as records and read back).
pub struct Ops {
    pub commands: Vec<OpNode>,
    pub last_move_to: Point3D,
}

impl View for Ops {
    type V = Seq<OpNodeView>;

    open spec fn view(&self) -> Seq<OpNodeView> {
        self.commands@.map_values(|n: OpNode| n@)
    }
}

/// The command types of a node sequence.
pub open spec fn command_types(s: Seq<OpNodeView>) -> Seq<CommandType> {
    s.map_values(|n: OpNodeView| node_command_type(n))
}

impl Ops {
    /// An empty sequence whose last move went to the origin.
    pub fn new() -> (r: Ops)
        ensures
            r@ == Seq::<OpNodeView>::empty(),
            r.last_move_to == (Point3D { x: ZERO_BITS, y: ZERO_BITS, z: ZERO_BITS }),
    {
        let r = Ops { commands: Vec::new(), last_move_to: Point3D::zero() };
        assert(r@ =~= Seq::<OpNodeView>::empty());
        r
    }

    pub fn len(&self) -> (r: usize)
        ensures
            r == self@.len(),
    {
        self.commands.len()
    }

    pub fn is_empty(&self) -> (r: bool)
        ensures
            r == (self@.len() == 0),
    {
        self.commands.len() == 0
    }

    /// The command type of the node at `idx`.
    pub fn command_type(&self, idx: usize) -> (r: CommandType)
        requires
            idx < self@.len(),
        ensures
            r == node_command_type(self@[idx as int]),
    {
        self.commands[idx].command_type()
    }

    /// The end point of the node at `idx` (the origin for a non-moving node).
    pub fn endpoint(&self, idx: usize) -> (r: Point3D)
        requires
            idx < self@.len(),
        ensures
            r == node_end_point(self@[idx as int]),
    {
        self.commands[idx].end_point()
    }

    /// The extra-axis values of the node at `idx`.
    pub fn extra_axes(&self, idx: usize) -> (r: Option<&Vec<(Axis, u64)>>)
        requires
            idx < self@.len(),
        ensures
            match self@[idx as int].extra_axes {
                Some(s) => r matches Some(v) && v@ == s,
                None => r is None,
            },
    {
        self.commands[idx].extra_axes()
    }

    /// Append a node.
    pub fn push(&mut self, node: OpNode)
        ensures
            final(self)@ == old(self)@.push(node@),
    {
        self.commands.push(node);
        assert(self@ =~= old(self)@.push(node@));
    }

    /// Append copies of all nodes of `other`.
    pub fn extend(&mut self, other: &Ops)
        ensures
            final(self)@ == old(self)@ + other@,
    {
        let ghost start = self@;
        let mut i: usize = 0;
        while i < other.commands.len()
            invariant
                i <= other@.len(),
                self@ == start + other@.subrange(0, i as int),
            decreases other.commands.len() - i,
        {
            let node = other.commands[i].copy();
            self.push(node);
            assert(other@.subrange(0, i + 1) =~= other@.subrange(0, i as int).push(other@[i as int]));
            i = i + 1;
        }
        assert(other@.subrange(0, other@.len() as int) =~= other@);
    }

    /// A copy of the whole sequence.
    pub fn copy(&self) -> (r: Ops)
        ensures
            r@ == self@,
            r.last_move_to == self.last_move_to,
    {
        let mut r = Ops::new();
        r.extend(self);
        r.last_move_to = self.last_move_to;
        assert(r@ =~= self@);
        r
    }

    pub fn move_to(&mut self, x: u64, y: u64, z: u64, extra: Option<Vec<(Axis, u64)>>)
        ensures
            final(self)@ == old(self)@.push(
                OpNodeView {
                    category: OpCategoryView::Moving {
                        end: Point3D { x, y, z },
                        cmd: MoveCmdView::MoveTo,
                    },
                    extra_axes: extra_view(extra),
                },
            ),
    {
        self.push(OpNode::move_to(x, y, z, extra));
    }

    pub fn line_to(&mut self, x: u64, y: u64, z: u64, extra: Option<Vec<(Axis, u64)>>)
        ensures
            final(self)@ == old(self)@.push(
                OpNodeView {
                    category: OpCategoryView::Moving {
                        end: Point3D { x, y, z },
                        cmd: MoveCmdView::LineTo,
                    },
                    extra_axes: extra_view(extra),
                },
            ),
    {
        self.push(OpNode::line_to(x, y, z, extra));
    }

    pub fn scan_to(
        &mut self,
        x: u64,
        y: u64,
        z: u64,
        power_values: Vec<u8>,
        extra: Option<Vec<(Axis, u64)>>,
    )
        ensures
            final(self)@ == old(self)@.push(
                OpNodeView {
                    category: OpCategoryView::Moving {
                        end: Point3D { x, y, z },
                        cmd: MoveCmdView::ScanLine { power_values: power_values@ },
                    },
                    extra_axes: extra_view(extra),
                },
            ),
    {
        self.push(OpNode::scan_to(x, y, z, power_values, extra));
    }
    pub fn job_start(&mut self)
        ensures
            final(self)@ == old(self)@.push(
                OpNodeView { category: OpCategoryView::Marker(MarkerCmd::JobStart), extra_axes: None },
            ),
    {
        self.push(OpNode::job_start());
    }

    pub fn job_end(&mut self)
        ensures
            final(self)@ == old(self)@.push(
                OpNodeView { category: OpCategoryView::Marker(MarkerCmd::JobEnd), extra_axes: None },
            ),
    {
        self.push(OpNode::job_end());
    }

    pub fn layer_start(&mut self, uid: &str)
        ensures
            final(self)@.len() == old(self)@.len() + 1,
            final(self)@.subrange(0, old(self)@.len() as int) == old(self)@,
            final(self)@.last().extra_axes is None,
            final(self)@.last().category matches OpCategoryView::Marker(MarkerCmd::LayerStart(u)) && u@
                == uid@,
    {
        self.push(OpNode::layer_start(uid));
        assert(self@.subrange(0, old(self)@.len() as int) =~= old(self)@);
    }

    pub fn layer_end(&mut self, uid: &str)
        ensures
            final(self)@.len() == old(self)@.len() + 1,
            final(self)@.subrange(0, old(self)@.len() as int) == old(self)@,
            final(self)@.last().extra_axes is None,
            final(self)@.last().category matches OpCategoryView::Marker(MarkerCmd::LayerEnd(u)) && u@
                == uid@,
    {
        self.push(OpNode::layer_end(uid));
        assert(self@.subrange(0, old(self)@.len() as int) =~= old(self)@);
    }

    pub fn workpiece_start(&mut self, uid: &str)
        ensures
            final(self)@.len() == old(self)@.len() + 1,
            final(self)@.subrange(0, old(self)@.len() as int) == old(self)@,
            final(self)@.last().extra_axes is None,
            final(self)@.last().category matches OpCategoryView::Marker(MarkerCmd::WorkpieceStart(u))
                && u@ == uid@,
    {
        self.push(OpNode::workpiece_start(uid));
        assert(self@.subrange(0, old(self)@.len() as int) =~= old(self)@);
    }

    pub fn workpiece_end(&mut self, uid: &str)
        ensures
            final(self)@.len() == old(self)@.len() + 1,
            final(self)@.subrange(0, old(self)@.len() as int) == old(self)@,
            final(self)@.last().extra_axes is None,
            final(self)@.last().category matches OpCategoryView::Marker(MarkerCmd::WorkpieceEnd(u)) && u@
                == uid@,
    {
        self.push(OpNode::workpiece_end(uid));
        assert(self@.subrange(0, old(self)@.len() as int) =~= old(self)@);
    }

    pub fn process_start(&mut self, uid: &str, params: &str)
        ensures
            final(self)@.len() == old(self)@.len() + 1,
            final(self)@.subrange(0, old(self)@.len() as int) == old(self)@,
            final(self)@.last().extra_axes is None,
            final(self)@.last().category matches OpCategoryView::Marker(
                MarkerCmd::ProcessStart { uid: u, params: p },
            ) && u@ == uid@ && p@ == params@,
    {
        self.push(OpNode::process_start(uid, params));
        assert(self@.subrange(0, old(self)@.len() as int) =~= old(self)@);
    }

    pub fn process_end(&mut self, uid: &str)
        ensures
            final(self)@.len() == old(self)@.len() + 1,
            final(self)@.subrange(0, old(self)@.len() as int) == old(self)@,
            final(self)@.last().extra_axes is None,
            final(self)@.last().category matches OpCategoryView::Marker(MarkerCmd::ProcessEnd { uid: u })
                && u@ == uid@,
    {
        self.push(OpNode::process_end(uid));
        assert(self@.subrange(0, old(self)@.len() as int) =~= old(self)@);
    }
}

} // verus!
