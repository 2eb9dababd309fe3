//! The commands of one frame, in the order in which they must be issued.
//!
//! The pipeline has a single transform slot. Every drawable group therefore
//! gets a cycle of its own: its transform is written to the slot, the slot
//! is bound, and only then is the group drawn. A device that applies buffer
//! writes only when the commands are submitted keeps one matrix per group
//! and binds the slot at the offset of the group that wrote last.

use vstd::prelude::*;

verus! {

/// The three resource sets that the pipeline declares.
#[derive(Clone, Copy, Debug, PartialEq, Eq, Structural)]
pub enum ResourceSet {
    Camera,
    Transform,
    Light,
}

/// The index at which a resource set is bound.
pub open spec fn slot_of(set: ResourceSet) -> u32 {
    match set {
        ResourceSet::Camera => 0,
        ResourceSet::Transform => 1,
        ResourceSet::Light => 2,
    }
}

impl ResourceSet {
    /// The index at which this set is bound, the same for the whole pass.
    pub fn slot(self) -> (index: u32)
        ensures
            index == slot_of(self),
    {
        match self {
            ResourceSet::Camera => 0,
            ResourceSet::Transform => 1,
            ResourceSet::Light => 2,
        }
    }
}

/// Which model matrix a group is drawn with.
#[derive(Clone, Copy, Debug, PartialEq, Eq, Structural)]
pub enum ModelTransform {
    /// Turned by the frame's rotation, then lifted by one unit.
    Animated,
    /// Left where the vertices put it.
    Identity,
}

/// A run of vertices drawn with one transform: vertices `start..end`.
#[derive(Clone, Copy, Debug, PartialEq, Eq, Structural)]
pub struct DrawGroup {
    pub transform: ModelTransform,
    pub start: u32,
    pub end: u32,
}

/// One step of recording or presenting a frame.
#[derive(Clone, Copy, Debug, PartialEq, Eq, Structural)]
pub enum RenderCommand {
    /// Compute the camera block from the state as it stands and upload it.
    WriteCamera,
    /// Open the pass and clear the colour target to the background.
    BeginPass,
    SetPipeline,
    /// Bind a resource set at its slot.
    Bind { set: ResourceSet },
    /// Put the matrix of a group into the transform slot, so that the
    /// draws that follow read it, until the next such write.
    WriteTransform { group: usize, transform: ModelTransform },
    SetVertexBuffer,
    /// Draw the vertices `start..end` of a group.
    Draw { group: usize, start: u32, end: u32 },
    EndPass,
    Submit,
    Present,
}

/// What opens every frame: the upload of the camera block, the pass, the
/// pipeline, and the two sets that stay bound for all of it.
pub open spec fn prelude() -> Seq<RenderCommand> {
    seq![
        RenderCommand::WriteCamera,
        RenderCommand::BeginPass,
        RenderCommand::SetPipeline,
        RenderCommand::Bind { set: ResourceSet::Camera },
        RenderCommand::Bind { set: ResourceSet::Light },
    ]
}

/// The cycle of the group at `index`: write, bind, draw.
pub open spec fn cycle(index: int, group: DrawGroup) -> Seq<RenderCommand> {
    seq![
        RenderCommand::WriteTransform { group: index as usize, transform: group.transform },
        RenderCommand::Bind { set: ResourceSet::Transform },
        RenderCommand::SetVertexBuffer,
        RenderCommand::Draw { group: index as usize, start: group.start, end: group.end },
    ]
}

/// The cycles of all groups, in the groups' order.
pub open spec fn cycles(groups: Seq<DrawGroup>) -> Seq<RenderCommand>
    decreases groups.len(),
{
    if groups.len() == 0 {
        Seq::empty()
    } else {
        cycles(groups.drop_last()) + cycle(groups.len() - 1, groups.last())
    }
}

/// What closes every frame.
pub open spec fn finish() -> Seq<RenderCommand> {
    seq![RenderCommand::EndPass, RenderCommand::Submit, RenderCommand::Present]
}

/// The commands of a frame that draws `groups`.
pub open spec fn frame_plan(groups: Seq<DrawGroup>) -> Seq<RenderCommand> {
    prelude() + cycles(groups) + finish()
}

/// The group whose transform the slot holds before command `at` runs: that
/// of the last write among the commands before it.
pub open spec fn slot_holder(commands: Seq<RenderCommand>, at: int) -> Option<usize>
    decreases at,
{
    if at <= 0 || at > commands.len() {
        None
    } else {
        match commands[at - 1] {
            RenderCommand::WriteTransform { group, .. } => Some(group),
            _ => slot_holder(commands, at - 1),
        }
    }
}

/// Where the matrix of `group` stands in a buffer that holds one matrix
/// every `stride` bytes, if that offset is one that a binding can take.
pub fn transform_offset(group: usize, stride: u32) -> (offset: Option<u32>)
    ensures
        offset is Some <==> group * stride <= u32::MAX,
        offset is Some ==> offset->Some_0 == group * stride,
{
    if stride == 0 {
        return Some(0);
    }
    if group > (u32::MAX / stride) as usize {
        assert(group * stride > u32::MAX) by (nonlinear_arith)
            requires
                group >= (u32::MAX as int) / (stride as int) + 1,
                stride > 0,
        ;
        return None;
    }
    assert(group * stride <= u32::MAX) by (nonlinear_arith)
        requires
            0 <= group <= (u32::MAX as int) / (stride as int),
            stride > 0,
    ;
    Some(group as u32 * stride)
}

/// Records the commands of a frame that draws `groups`.
pub fn frame_commands(groups: &Vec<DrawGroup>) -> (commands: Vec<RenderCommand>)
    ensures
        commands@ == frame_plan(groups@),
{
    let mut commands: Vec<RenderCommand> = Vec::new();
    commands.push(RenderCommand::WriteCamera);
    commands.push(RenderCommand::BeginPass);
    commands.push(RenderCommand::SetPipeline);
    commands.push(RenderCommand::Bind { set: ResourceSet::Camera });
    commands.push(RenderCommand::Bind { set: ResourceSet::Light });
    assert(commands@ =~= prelude() + cycles(groups@.take(0)));
    let mut index: usize = 0;
    while index < groups.len()
        invariant
            index <= groups.len(),
            commands@ == prelude() + cycles(groups@.take(index as int)),
        decreases groups.len() - index,
    {
        let group = groups[index];
        let ghost before = commands@;
        commands.push(RenderCommand::WriteTransform { group: index, transform: group.transform });
        commands.push(RenderCommand::Bind { set: ResourceSet::Transform });
        commands.push(RenderCommand::SetVertexBuffer);
        commands.push(RenderCommand::Draw { group: index, start: group.start, end: group.end });
        proof {
            let taken = groups@.take(index + 1);
            assert(taken.drop_last() =~= groups@.take(index as int));
            assert(taken.last() == group);
            assert(commands@ =~= before + cycle(index as int, group));
            assert(commands@ =~= prelude() + cycles(taken));
        }
        index += 1;
    }
    assert(groups@.take(index as int) =~= groups@);
    let ghost body = commands@;
    commands.push(RenderCommand::EndPass);
    commands.push(RenderCommand::Submit);
    commands.push(RenderCommand::Present);
    assert(commands@ =~= body + finish());
    commands
}

/// Each group adds four commands, and the command at `at` belongs to the
/// cycle of group `at / 4`.
proof fn lemma_cycles_index(groups: Seq<DrawGroup>, at: int)
    requires
        0 <= at < 4 * groups.len(),
    ensures
        cycles(groups).len() == 4 * groups.len(),
        cycles(groups)[at] == cycle(at / 4, groups[at / 4])[at % 4],
    decreases groups.len(),
{
    let rest = groups.drop_last();
    lemma_cycles_len(rest);
    if at < 4 * rest.len() {
        lemma_cycles_index(rest, at);
    }
}

/// Each group adds four commands.
proof fn lemma_cycles_len(groups: Seq<DrawGroup>)
    ensures
        cycles(groups).len() == 4 * groups.len(),
    decreases groups.len(),
{
    if groups.len() > 0 {
        lemma_cycles_len(groups.drop_last());
    }
}

/// A frame has five opening commands, four for each group and three
/// closing ones, and the cycle of the group at `index` stands at
/// `5 + 4 * index`: every group is written, bound and drawn once, in the
/// groups' order.
pub proof fn law_cycle_position(groups: Seq<DrawGroup>, index: int)
    requires
        0 <= index < groups.len(),
    ensures
        frame_plan(groups).len() == 5 + 4 * groups.len() + 3,
        frame_plan(groups).subrange(5 + 4 * index, 9 + 4 * index) == cycle(index, groups[index]),
{
    lemma_cycles_len(groups);
    let plan = frame_plan(groups);
    let part = plan.subrange(5 + 4 * index, 9 + 4 * index);
    assert forall|j: int| 0 <= j < 4 implies part[j] == cycle(index, groups[index])[j] by {
        lemma_cycles_index(groups, 4 * index + j);
        assert(plan[5 + 4 * index + j] == cycles(groups)[4 * index + j]);
    }
    assert(part =~= cycle(index, groups[index]));
}

/// Every draw runs while the transform slot holds the transform of its own
/// group: the write for that group comes three commands before the draw,
/// the binding of the slot two before it, and no other write stands in
/// between. The vertices drawn are those of that group.
pub proof fn law_draw_follows_its_write(groups: Seq<DrawGroup>, at: int)
    requires
        groups.len() <= usize::MAX,
        0 <= at < frame_plan(groups).len(),
        frame_plan(groups)[at] is Draw,
    ensures
        ({
            let plan = frame_plan(groups);
            let group = plan[at]->Draw_group;
            &&& group < groups.len()
            &&& 5 + 4 * group + 3 == at
            &&& plan[at] == (RenderCommand::Draw {
                group,
                start: groups[group as int].start,
                end: groups[group as int].end,
            })
            &&& plan[at - 3] == (RenderCommand::WriteTransform {
                group,
                transform: groups[group as int].transform,
            })
            &&& plan[at - 2] == (RenderCommand::Bind { set: ResourceSet::Transform })
            &&& slot_holder(plan, at) == Some(group)
        }),
{
    lemma_cycles_len(groups);
    let plan = frame_plan(groups);
    assert(5 <= at < 5 + 4 * groups.len());
    let inner = at - 5;
    lemma_cycles_index(groups, inner);
    assert(plan[at] == cycles(groups)[inner]);
    assert(inner % 4 == 3);
    let index = inner / 4;
    law_cycle_position(groups, index);
    let part = plan.subrange(5 + 4 * index, 9 + 4 * index);
    assert(plan[at - 3] == part[0]);
    assert(plan[at - 2] == part[1]);
    assert(plan[at - 1] == part[2]);
    assert(plan[at] == part[3]);
    reveal_with_fuel(slot_holder, 4);
}

} // verus!
