//! Draw commands and the batcher that merges consecutive contributions of one kind.

use vstd::prelude::*;

verus! {

/// One draw call: `count` indices of the polygon mesh, or `count` circle instances.
#[derive(Debug, Clone, Copy, PartialEq, Eq, Structural)]
pub struct DrawCommand {
    pub count: u32,
}

impl DrawCommand {
    /// Lets the draw call cover `count` more indices or instances.
    pub fn extend(&mut self, count: u32)
        requires
            old(self).count + count <= u32::MAX,
        ensures
            final(self).count == old(self).count + count,
    {
        self.count = self.count + count;
    }
}

/// An entry of a page's command list.
#[derive(Debug, Clone, Copy, PartialEq, Eq, Structural)]
pub enum WgpugdCommand {
    /// Draw tessellated polygons.
    DrawPolygon(DrawCommand),
    /// Draw circles from their instance records.
    DrawSDF(DrawCommand),
    /// The clip layer changes here.
    SetClipping,
}

/// The kind of a command, without its count.
#[derive(Debug, Clone, Copy, PartialEq, Eq, Structural)]
pub enum CommandKind {
    Polygon,
    Sdf,
    Clipping,
}

impl WgpugdCommand {
    pub open spec fn kind(self) -> CommandKind {
        match self {
            WgpugdCommand::DrawPolygon(_) => CommandKind::Polygon,
            WgpugdCommand::DrawSDF(_) => CommandKind::Sdf,
            WgpugdCommand::SetClipping => CommandKind::Clipping,
        }
    }

    /// The number of indices or instances the command draws; a clip change draws nothing.
    pub open spec fn count(self) -> nat {
        match self {
            WgpugdCommand::DrawPolygon(c) => c.count as nat,
            WgpugdCommand::DrawSDF(c) => c.count as nat,
            WgpugdCommand::SetClipping => 0,
        }
    }

    /// A command of the given kind; a clip change carries no count.
    pub open spec fn make(kind: CommandKind, count: u32) -> WgpugdCommand {
        match kind {
            CommandKind::Polygon => WgpugdCommand::DrawPolygon(DrawCommand { count }),
            CommandKind::Sdf => WgpugdCommand::DrawSDF(DrawCommand { count }),
            CommandKind::Clipping => WgpugdCommand::SetClipping,
        }
    }

    pub fn get_kind(&self) -> (k: CommandKind)
        ensures
            k == self.kind(),
    {
        match self {
            WgpugdCommand::DrawPolygon(_) => CommandKind::Polygon,
            WgpugdCommand::DrawSDF(_) => CommandKind::Sdf,
            WgpugdCommand::SetClipping => CommandKind::Clipping,
        }
    }

    pub fn get_count(&self) -> (n: u32)
        ensures
            n == self.count(),
    {
        match self {
            WgpugdCommand::DrawPolygon(c) => c.count,
            WgpugdCommand::DrawSDF(c) => c.count,
            WgpugdCommand::SetClipping => 0,
        }
    }
}

/// The sum of the counts of the commands of one kind.
pub open spec fn total(cmds: Seq<WgpugdCommand>, kind: CommandKind) -> nat
    decreases cmds.len(),
{
    if cmds.len() == 0 {
        0
    } else {
        let rest = total(cmds.drop_last(), kind);
        if cmds.last().kind() == kind {
            rest + cmds.last().count()
        } else {
            rest
        }
    }
}

/// No two neighbours are of the same kind.
pub open spec fn alternating(cmds: Seq<WgpugdCommand>) -> bool {
    forall|i: int, j: int|
        0 <= i && j == i + 1 && j < cmds.len() ==> (#[trigger] cmds[i]).kind() != (
        #[trigger] cmds[j]).kind()
}

/// The command list after a contribution of `count` of the given kind: the last command grows
/// if it is of that kind, else a new command follows it.
pub open spec fn appended(cmds: Seq<WgpugdCommand>, kind: CommandKind, count: u32) -> Seq<
    WgpugdCommand,
> {
    if cmds.len() > 0 && cmds.last().kind() == kind {
        cmds.drop_last().push(WgpugdCommand::make(kind, (cmds.last().count() + count) as u32))
    } else {
        cmds.push(WgpugdCommand::make(kind, count))
    }
}

/// The total of a list that ends in `last`.
pub proof fn lemma_total_push(cmds: Seq<WgpugdCommand>, last: WgpugdCommand, kind: CommandKind)
    ensures
        total(cmds.push(last), kind) == total(cmds, kind) + (if last.kind() == kind {
            last.count()
        } else {
            0
        }),
{
    assert(cmds.push(last).drop_last() == cmds);
}

/// Clip changes draw nothing.
pub proof fn lemma_clipping_total(cmds: Seq<WgpugdCommand>)
    ensures
        total(cmds, CommandKind::Clipping) == 0,
    decreases cmds.len(),
{
    if cmds.len() > 0 {
        lemma_clipping_total(cmds.drop_last());
    }
}

/// A contribution adds its count to the total of its own kind and to no other.
pub proof fn lemma_appended_total(
    cmds: Seq<WgpugdCommand>,
    kind: CommandKind,
    count: u32,
    other: CommandKind,
)
    requires
        total(cmds, kind) + count <= u32::MAX,
    ensures
        other != kind ==> total(appended(cmds, kind, count), other) == total(cmds, other),
        other == kind && kind != CommandKind::Clipping ==> total(
            appended(cmds, kind, count),
            other,
        ) == total(cmds, kind) + count,
{
    if cmds.len() > 0 && cmds.last().kind() == kind {
        let merged = WgpugdCommand::make(kind, (cmds.last().count() + count) as u32);
        lemma_total_push(cmds.drop_last(), merged, other);
        lemma_total_push(cmds.drop_last(), cmds.last(), other);
        assert(cmds.drop_last().push(cmds.last()) == cmds);
    } else {
        lemma_total_push(cmds, WgpugdCommand::make(kind, count), other);
    }
}

/// A contribution keeps neighbours of different kinds.
pub proof fn lemma_appended_alternating(cmds: Seq<WgpugdCommand>, kind: CommandKind, count: u32)
    requires
        alternating(cmds),
    ensures
        alternating(appended(cmds, kind, count)),
{
    let after = appended(cmds, kind, count);
    assert forall|i: int, j: int| 0 <= i && j == i + 1 && j < after.len() implies (
    #[trigger] after[i]).kind() != (#[trigger] after[j]).kind() by {
        if j < cmds.len() {
            assert(cmds[i].kind() != cmds[j].kind());
        }
    }
}

/// The part of the index list or of the instance list that one command draws.
#[derive(Debug, Clone, Copy, PartialEq, Eq, Structural)]
pub struct DrawRange {
    pub kind: CommandKind,
    pub start: u32,
    pub end: u32,
}

/// What the command at `i` draws: the indices or instances that follow those of the
/// commands of its kind before it.
pub open spec fn range_of(cmds: Seq<WgpugdCommand>, i: int) -> DrawRange {
    DrawRange {
        kind: cmds[i].kind(),
        start: total(cmds.take(i), cmds[i].kind()) as u32,
        end: total(cmds.take(i + 1), cmds[i].kind()) as u32,
    }
}

/// The totals of a list are at least those of each of its beginnings.
pub proof fn lemma_total_monotonic(cmds: Seq<WgpugdCommand>, n: int, kind: CommandKind)
    requires
        0 <= n <= cmds.len(),
    ensures
        total(cmds.take(n), kind) <= total(cmds, kind),
    decreases cmds.len() - n,
{
    if n < cmds.len() {
        lemma_total_monotonic(cmds, n + 1, kind);
        assert(cmds.take(n + 1).drop_last() == cmds.take(n));
    } else {
        assert(cmds.take(n) == cmds);
    }
}

/// The range of every command of a page, in the order of the commands: each draw begins
/// where the last one of its kind ended. `None` where the commands draw more than 32 bits
/// can count.
pub fn draw_ranges(cmds: &Vec<WgpugdCommand>) -> (r: Option<Vec<DrawRange>>)
    ensures
        r is Some <==> total(cmds@, CommandKind::Polygon) <= u32::MAX && total(
            cmds@,
            CommandKind::Sdf,
        ) <= u32::MAX,
        r matches Some(ranges) ==> {
            &&& ranges@.len() == cmds@.len()
            &&& forall|i: int| 0 <= i < cmds@.len() ==> ranges@[i] == range_of(cmds@, i)
        },
{
    let mut ranges: Vec<DrawRange> = Vec::new();
    let mut polygons: u32 = 0;
    let mut circles: u32 = 0;
    let mut i: usize = 0;
    proof {
        lemma_clipping_total(cmds@.take(0));
    }
    while i < cmds.len()
        invariant
            i <= cmds@.len(),
            ranges@.len() == i,
            polygons == total(cmds@.take(i as int), CommandKind::Polygon),
            circles == total(cmds@.take(i as int), CommandKind::Sdf),
            forall|j: int| 0 <= j < i ==> ranges@[j] == range_of(cmds@, j),
        decreases cmds.len() - i,
    {
        let kind = cmds[i].get_kind();
        let count = cmds[i].get_count();
        proof {
            assert(cmds@.take(i + 1).drop_last() == cmds@.take(i as int));
            lemma_total_monotonic(cmds@, i + 1, CommandKind::Polygon);
            lemma_total_monotonic(cmds@, i + 1, CommandKind::Sdf);
            lemma_clipping_total(cmds@.take(i as int));
            lemma_clipping_total(cmds@.take(i + 1));
        }
        match kind {
            CommandKind::Polygon => {
                if count > u32::MAX - polygons {
                    return None;
                }
                ranges.push(DrawRange { kind, start: polygons, end: polygons + count });
                polygons = polygons + count;
            },
            CommandKind::Sdf => {
                if count > u32::MAX - circles {
                    return None;
                }
                ranges.push(DrawRange { kind, start: circles, end: circles + count });
                circles = circles + count;
            },
            CommandKind::Clipping => {
                ranges.push(DrawRange { kind, start: 0, end: 0 });
            },
        }
        i = i + 1;
    }
    assert(cmds@.take(i as int) == cmds@);
    Some(ranges)
}

/// The commands of a page: those already closed, and the one that can still grow.
pub struct CommandQueue {
    queue: Vec<WgpugdCommand>,
    current: Option<WgpugdCommand>,
}

impl View for CommandQueue {
    type V = Seq<WgpugdCommand>;

    /// All commands in the order of the drawing calls, the growing one last.
    closed spec fn view(&self) -> Seq<WgpugdCommand> {
        match self.current {
            Some(c) => self.queue@.push(c),
            None => self.queue@,
        }
    }
}

impl CommandQueue {
    /// A queue is well formed when no two neighbours are of the same kind, and a command is
    /// growing whenever some command has been recorded.
    pub closed spec fn wf(&self) -> bool {
        &&& alternating(self@)
        &&& self.current is None ==> self.queue@.len() == 0
    }

    /// In a well-formed queue no two neighbours are of the same kind.
    pub proof fn lemma_wf_alternating(&self)
        requires
            self.wf(),
        ensures
            alternating(self@),
    {
    }

    pub fn new() -> (q: Self)
        ensures
            q@ == Seq::<WgpugdCommand>::empty(),
            q.wf(),
    {
        CommandQueue { queue: Vec::new(), current: None }
    }

    /// Records a contribution of `count` indices or instances of the given kind.
    pub fn append(&mut self, kind: CommandKind, count: u32)
        requires
            old(self).wf(),
            total(old(self)@, kind) + count <= u32::MAX,
        ensures
            final(self)@ == appended(old(self)@, kind, count),
            final(self).wf(),
    {
        proof {
            lemma_appended_alternating(self@, kind, count);
            if self@.len() > 0 {
                lemma_total_push(self@.drop_last(), self@.last(), kind);
                assert(self@.drop_last().push(self@.last()) == self@);
            }
        }
        match self.current {
            Some(cur) => {
                if cur.get_kind() == kind {
                    let merged = match cur {
                        WgpugdCommand::DrawPolygon(mut c) => {
                            c.extend(count);
                            WgpugdCommand::DrawPolygon(c)
                        },
                        WgpugdCommand::DrawSDF(mut c) => {
                            c.extend(count);
                            WgpugdCommand::DrawSDF(c)
                        },
                        WgpugdCommand::SetClipping => WgpugdCommand::SetClipping,
                    };
                    self.current = Some(merged);
                    assert(self@ == appended(old(self)@, kind, count));
                } else {
                    self.queue.push(cur);
                    self.current = Some(Self::command(kind, count));
                    assert(self@ == appended(old(self)@, kind, count));
                }
            },
            None => {
                self.current = Some(Self::command(kind, count));
                assert(self@ == appended(old(self)@, kind, count));
            },
        }
    }

    fn command(kind: CommandKind, count: u32) -> (c: WgpugdCommand)
        ensures
            c == WgpugdCommand::make(kind, count),
    {
        match kind {
            CommandKind::Polygon => WgpugdCommand::DrawPolygon(DrawCommand { count }),
            CommandKind::Sdf => WgpugdCommand::DrawSDF(DrawCommand { count }),
            CommandKind::Clipping => WgpugdCommand::SetClipping,
        }
    }

    /// Closes the growing command and hands out the whole list, leaving the queue empty.
    pub fn finish(&mut self) -> (cmds: Vec<WgpugdCommand>)
        ensures
            cmds@ == old(self)@,
            final(self)@ == Seq::<WgpugdCommand>::empty(),
            final(self).wf(),
    {
        let mut cmds = Vec::new();
        std::mem::swap(&mut cmds, &mut self.queue);
        if let Some(cur) = self.current {
            cmds.push(cur);
        }
        self.current = None;
        cmds
    }
}

} // verus!
