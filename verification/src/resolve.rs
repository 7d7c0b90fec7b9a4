//! The slot resolver and the merge-and-emit pass.
//!
//! A declaration set (one optional aggregate-level converted-uniform
//! declaration plus an ordered list of member declarations) is applied to a
//! sparse slot table.  Non-uniform members occupy a free slot exactly once;
//! uniform members sharing an index merge into one slot; any other collision
//! aborts the whole resolution.  Non-uniform and converted-uniform slots emit
//! their resource construction and layout entry in encounter order; merged
//! uniform slots are emitted in a second pass in ascending index order, so the
//! two output lists stay aligned position by position.
//!
//! The executable resolver is proved equal to `resolve_model`, a recursive
//! specification-level model over the same data.

use vstd::prelude::*;

use crate::attrs::{
    sampler_attrs_of, texture_attrs_of, AttrToken, BindingTextureDimension,
    BindingTextureSampleType, BindingType, SamplerBindingType,
};
use crate::error::{ErrModel, ResolveError};

verus! {

/// One member-level binding declaration, as handed over by the attribute
/// scanner: the member's name (for diagnostics), the declaration kind, the
/// target binding index, the raw kind-specific option tokens, and the minimum
/// byte size that the serialization layer reports for the member's type.
pub struct MemberDecl {
    pub name: String,
    pub kind: BindingType,
    pub index: u32,
    pub options: Vec<AttrToken>,
    pub size: u64,
}

/// The aggregate-level converted-uniform declaration: a binding index, the
/// name of the conversion target type, and the minimum byte size that the
/// serialization layer reports for that type.
pub struct ConvertedUniformDecl {
    pub index: u32,
    pub target: String,
    pub size: u64,
}

/// The full structured annotation set of one aggregate.
pub struct BindGroupInput {
    pub converted: Option<ConvertedUniformDecl>,
    pub data_type: Option<String>,
    pub members: Vec<MemberDecl>,
}

/// The state of one binding slot.  `owner` is the position of the occupying
/// member in the declaration list.
#[derive(Debug, Clone, Copy, PartialEq, Eq, Structural)]
pub enum BindingState {
    Free,
    Occupied { kind: BindingType, owner: usize },
    OccupiedConvertedUniform,
    OccupiedMergeableUniform,
}

/// How the resource of one emitted slot is materialized at runtime.
/// `member` is a position in the declaration list; a `MergedUniform` covers
/// every uniform member declared at `binding`, in declaration order.
#[derive(Debug, Clone, Copy, PartialEq, Eq, Structural)]
pub enum Construction {
    ConvertedUniform,
    TextureView { member: usize },
    SamplerHandle { member: usize },
    MergedUniform { binding: u32 },
}

/// The shape of one layout entry.
#[derive(Debug, Clone, Copy, PartialEq, Eq, Structural)]
pub enum LayoutKind {
    UniformBuffer { min_size: u64 },
    Texture {
        dimension: BindingTextureDimension,
        sample_type: BindingTextureSampleType,
        multisampled: bool,
    },
    Sampler { binding_type: SamplerBindingType },
}

/// One bind-group-layout entry.
#[derive(Debug, Clone, Copy, PartialEq, Eq, Structural)]
pub struct LayoutEntry {
    pub binding: u32,
    pub kind: LayoutKind,
}

/// The two runtime artifacts plus the final slot table.  `constructions` and
/// `layout` are aligned: position `j` of both describes the same slot.
#[derive(Debug, PartialEq, Eq)]
pub struct Resolved {
    pub slots: Vec<BindingState>,
    pub constructions: Vec<Construction>,
    pub layout: Vec<LayoutEntry>,
    pub data_type: Option<String>,
}

/// Specification-level resolver state.
#[verifier::ext_equal]
pub struct RState {
    pub slots: Seq<BindingState>,
    pub cons: Seq<Construction>,
    pub layout: Seq<LayoutEntry>,
}

/// Bundle the views of the three executable output lists.
pub open spec fn st_of(
    slots: Seq<BindingState>,
    cons: Seq<Construction>,
    layout: Seq<LayoutEntry>,
) -> RState {
    RState { slots, cons, layout }
}

/// The slot table extended with free slots until it has at least `n` slots.
pub open spec fn grown(slots: Seq<BindingState>, n: int) -> Seq<BindingState> {
    if slots.len() >= n {
        slots
    } else {
        slots + Seq::new((n - slots.len()) as nat, |j: int| BindingState::Free)
    }
}

/// The state after applying the aggregate-level declarations: a
/// converted-uniform declaration occupies its slot and emits its construction
/// and layout entry before any member is looked at.
pub open spec fn init_state(conv: Option<ConvertedUniformDecl>) -> RState {
    match conv {
        None => RState { slots: Seq::empty(), cons: Seq::empty(), layout: Seq::empty() },
        Some(c) => RState {
            slots: grown(Seq::empty(), c.index + 1).update(
                c.index as int,
                BindingState::OccupiedConvertedUniform,
            ),
            cons: Seq::empty().push(Construction::ConvertedUniform),
            layout: Seq::empty().push(
                LayoutEntry {
                    binding: c.index,
                    kind: LayoutKind::UniformBuffer { min_size: c.size },
                },
            ),
        },
    }
}

/// Apply the declaration of member `i` to the state: grow the table, check
/// the target slot, then either occupy it, merge into it, or reject.
pub open spec fn member_step(ms: Seq<MemberDecl>, i: int, st: RState) -> Result<RState, ErrModel>
    recommends
        0 <= i < ms.len(),
{
    let m = ms[i];
    let slots = grown(st.slots, m.index + 1);
    match slots[m.index as int] {
        BindingState::Free => match m.kind {
            BindingType::Uniform => Ok(
                RState {
                    slots: slots.update(m.index as int, BindingState::OccupiedMergeableUniform),
                    cons: st.cons,
                    layout: st.layout,
                },
            ),
            BindingType::Texture => match texture_attrs_of(m.options@) {
                Ok(ta) => Ok(
                    RState {
                        slots: slots.update(
                            m.index as int,
                            BindingState::Occupied { kind: BindingType::Texture, owner: i as usize },
                        ),
                        cons: st.cons.push(Construction::TextureView { member: i as usize }),
                        layout: st.layout.push(
                            LayoutEntry {
                                binding: m.index,
                                kind: LayoutKind::Texture {
                                    dimension: ta.dimension,
                                    sample_type: ta.sample_type,
                                    multisampled: ta.multisampled,
                                },
                            },
                        ),
                    },
                ),
                Err(e) => Err(e),
            },
            BindingType::Sampler => match sampler_attrs_of(m.options@) {
                Ok(sa) => Ok(
                    RState {
                        slots: slots.update(
                            m.index as int,
                            BindingState::Occupied { kind: BindingType::Sampler, owner: i as usize },
                        ),
                        cons: st.cons.push(Construction::SamplerHandle { member: i as usize }),
                        layout: st.layout.push(
                            LayoutEntry {
                                binding: m.index,
                                kind: LayoutKind::Sampler {
                                    binding_type: sa.sampler_binding_type,
                                },
                            },
                        ),
                    },
                ),
                Err(e) => Err(e),
            },
        },
        BindingState::Occupied { kind, owner } => Err(
            ErrModel::SlotOccupied {
                member: m.name@,
                binding: m.index,
                occupant: ms[owner as int].name@,
                occupant_kind: kind,
            },
        ),
        BindingState::OccupiedConvertedUniform => Err(
            ErrModel::SlotOccupiedByStructUniform { member: m.name@, binding: m.index },
        ),
        BindingState::OccupiedMergeableUniform => match m.kind {
            BindingType::Uniform => Ok(RState { slots, cons: st.cons, layout: st.layout }),
            _ => Err(ErrModel::SlotOccupiedByMergedUniform { member: m.name@, binding: m.index }),
        },
    }
}

/// Apply the member declarations from position `i` on.
pub open spec fn scan_members(ms: Seq<MemberDecl>, i: int, st: RState) -> Result<RState, ErrModel>
    decreases ms.len() - i,
{
    if i < 0 || i >= ms.len() {
        Ok(st)
    } else {
        match member_step(ms, i, st) {
            Ok(st2) => scan_members(ms, i + 1, st2),
            Err(e) => Err(e),
        }
    }
}

/// Total reported size of the uniform members declared at binding `b`, taken
/// from position `i` on: the minimum size of a record holding all of their
/// types in declaration order.
pub open spec fn uniform_size_from(ms: Seq<MemberDecl>, i: int, b: u32) -> int
    decreases ms.len() - i,
{
    if i < 0 || i >= ms.len() {
        0
    } else {
        (
        if ms[i].kind is Uniform && ms[i].index == b {
            ms[i].size as int
        } else {
            0
        }
        ) + uniform_size_from(ms, i + 1, b)
    }
}

/// Total reported size of all member declarations from position `i` on.
pub open spec fn total_size_from(ms: Seq<MemberDecl>, i: int) -> int
    decreases ms.len() - i,
{
    if i < 0 || i >= ms.len() {
        0
    } else {
        ms[i].size + total_size_from(ms, i + 1)
    }
}

/// Total reported size of every declaration of the set.  A resolution needs
/// this to fit in a machine word so per-slot minimum sizes cannot overflow.
pub open spec fn total_declared_size(input: BindGroupInput) -> int {
    (match input.converted {
        Some(c) => c.size as int,
        None => 0,
    }) + total_size_from(input.members@, 0)
}

/// Positions of the uniform members declared at binding `b`, from position
/// `i` on, in declaration order.
pub open spec fn merged_indices(ms: Seq<MemberDecl>, i: int, b: u32) -> Seq<usize>
    decreases ms.len() - i,
{
    if i < 0 || i >= ms.len() {
        Seq::empty()
    } else {
        (
        if ms[i].kind is Uniform && ms[i].index == b {
            seq![i as usize]
        } else {
            Seq::empty()
        }
        ) + merged_indices(ms, i + 1, b)
    }
}

/// Second pass: emit one construction and one layout entry for every merged
/// uniform slot, in ascending slot order, after all directly-resolved
/// entries.
pub open spec fn merge_pass(
    ms: Seq<MemberDecl>,
    slots: Seq<BindingState>,
    b: int,
    st: RState,
) -> RState
    decreases slots.len() - b,
{
    if b < 0 || b >= slots.len() {
        st
    } else {
        let st2 = if slots[b] is OccupiedMergeableUniform {
            RState {
                slots: st.slots,
                cons: st.cons.push(Construction::MergedUniform { binding: b as u32 }),
                layout: st.layout.push(
                    LayoutEntry {
                        binding: b as u32,
                        kind: LayoutKind::UniformBuffer {
                            min_size: uniform_size_from(ms, 0, b as u32) as u64,
                        },
                    },
                ),
            }
        } else {
            st
        };
        merge_pass(ms, slots, b + 1, st2)
    }
}

/// The full resolution: aggregate-level declarations first, then the member
/// scan, then the merge pass over the final slot table.
pub open spec fn resolve_model(input: BindGroupInput) -> Result<RState, ErrModel> {
    match scan_members(input.members@, 0, init_state(input.converted)) {
        Ok(st) => Ok(merge_pass(input.members@, st.slots, 0, st)),
        Err(e) => Err(e),
    }
}

/// Every uniform size sum is non-negative.
pub proof fn lemma_usum_nonneg(ms: Seq<MemberDecl>, i: int, b: u32)
    ensures
        uniform_size_from(ms, i, b) >= 0,
    decreases ms.len() - i,
{
    if 0 <= i < ms.len() {
        lemma_usum_nonneg(ms, i + 1, b);
    }
}

/// The members of one slot are a sub-selection of all members, so their size
/// sum is bounded by the total.
pub proof fn lemma_usum_le_total(ms: Seq<MemberDecl>, i: int, b: u32)
    ensures
        uniform_size_from(ms, i, b) <= total_size_from(ms, i),
    decreases ms.len() - i,
{
    if 0 <= i < ms.len() {
        lemma_usum_le_total(ms, i + 1, b);
    }
}

/// Grow the slot table until binding `index` is in range.
fn grow_slots(slots: &mut Vec<BindingState>, index: u32)
    ensures
        final(slots)@ == grown(old(slots)@, index as int + 1),
        index < final(slots)@.len(),
{
    while slots.len() <= index as usize
        invariant
            old(slots)@.len() <= slots@.len(),
            slots@.len() <= vstd::math::max(old(slots)@.len() as int, index as int + 1),
            forall|j: int| 0 <= j < old(slots)@.len() ==> slots@[j] == old(slots)@[j],
            forall|j: int| old(slots)@.len() <= j < slots@.len() ==> slots@[j] == BindingState::Free,
        decreases index as int + 1 - slots@.len(),
    {
        slots.push(BindingState::Free);
    }
    proof {
        assert(slots@ =~= grown(old(slots)@, index as int + 1));
    }
}

/// Minimum size of the merged uniform record at binding `b`: the sum of the
/// reported sizes of its members, in declaration order.
pub fn sum_uniform_sizes(input: &BindGroupInput, b: u32) -> (s: u64)
    requires
        total_declared_size(*input) <= u64::MAX,
    ensures
        s as int == uniform_size_from(input.members@, 0, b),
{
    let ghost ms = input.members@;
    proof {
        lemma_usum_le_total(ms, 0, b);
    }
    let mut acc: u64 = 0;
    let mut j: usize = 0;
    while j < input.members.len()
        invariant
            0 <= j <= ms.len(),
            ms == input.members@,
            acc as int + uniform_size_from(ms, j as int, b) == uniform_size_from(ms, 0, b),
            uniform_size_from(ms, 0, b) <= u64::MAX,
        decreases ms.len() - j,
    {
        let m = &input.members[j];
        proof {
            lemma_usum_nonneg(ms, j as int + 1, b);
        }
        if matches!(m.kind, BindingType::Uniform) && m.index == b {
            acc = acc + m.size;
        }
        j = j + 1;
    }
    acc
}

/// Positions of the uniform members merged at binding `b`, in declaration
/// order: the fields of the synthesized packed record of that slot.
pub fn merged_member_indices(input: &BindGroupInput, b: u32) -> (r: Vec<usize>)
    ensures
        r@ == merged_indices(input.members@, 0, b),
{
    let ghost ms = input.members@;
    let mut r: Vec<usize> = Vec::new();
    let mut j: usize = 0;
    while j < input.members.len()
        invariant
            0 <= j <= ms.len(),
            ms == input.members@,
            r@ + merged_indices(ms, j as int, b) == merged_indices(ms, 0, b),
        decreases ms.len() - j,
    {
        let m = &input.members[j];
        let ghost r_pre = r@;
        if matches!(m.kind, BindingType::Uniform) && m.index == b {
            r.push(j);
            proof {
                assert(r@ + merged_indices(ms, j as int + 1, b) =~= r_pre + (seq![j as usize]
                    + merged_indices(ms, j as int + 1, b)));
            }
        } else {
            proof {
                assert(Seq::<usize>::empty() + merged_indices(ms, j as int + 1, b)
                    =~= merged_indices(ms, j as int + 1, b));
            }
        }
        j = j + 1;
    }
    proof {
        assert(r@ =~= r@ + merged_indices(ms, ms.len() as int, b));
    }
    r
}

/// Resolve a declaration set into its slot table, constructions and layout.
pub fn resolve(input: &BindGroupInput) -> (r: Result<Resolved, ResolveError>)
    requires
        total_declared_size(*input) <= u64::MAX,
    ensures
        match r {
            Ok(res) => resolve_model(*input) matches Ok(st) && res.slots@ == st.slots
                && res.constructions@ == st.cons && res.layout@ == st.layout && res.data_type
                == input.data_type,
            Err(e) => resolve_model(*input) matches Err(f) && e@ == f,
        },
{
    let ghost ms = input.members@;
    let ghost st0 = init_state(input.converted);

    let mut slots: Vec<BindingState> = Vec::new();
    let mut cons: Vec<Construction> = Vec::new();
    let mut layout: Vec<LayoutEntry> = Vec::new();

    if let Some(c) = &input.converted {
        grow_slots(&mut slots, c.index);
        slots[c.index as usize] = BindingState::OccupiedConvertedUniform;
        cons.push(Construction::ConvertedUniform);
        layout.push(
            LayoutEntry { binding: c.index, kind: LayoutKind::UniformBuffer { min_size: c.size } },
        );
        proof {
            assert(st_of(slots@, cons@, layout@) =~= st0);
        }
    }

    let mut i: usize = 0;
    while i < input.members.len()
        invariant
            0 <= i <= ms.len(),
            ms == input.members@,
            total_declared_size(*input) <= u64::MAX,
            st0 == init_state(input.converted),
            scan_members(ms, 0, st0) == scan_members(ms, i as int, st_of(slots@, cons@, layout@)),
            forall|k: int|
                0 <= k < slots@.len() ==> (#[trigger] slots@[k] matches BindingState::Occupied {
                    owner,
                    ..
                } ==> owner < i),
            slots@.len() <= 0x1_0000_0000,
        decreases ms.len() - i,
    {
        let ghost pre = st_of(slots@, cons@, layout@);
        let m = &input.members[i];
        grow_slots(&mut slots, m.index);
        let idx = m.index as usize;
        let state = slots[idx];
        match state {
            BindingState::Free => {
                match m.kind {
                    BindingType::Uniform => {
                        slots[idx] = BindingState::OccupiedMergeableUniform;
                    },
                    BindingType::Texture => {
                        match crate::attrs::get_texture_attrs(&m.options) {
                            Ok(ta) => {
                                slots[idx] = BindingState::Occupied {
                                    kind: BindingType::Texture,
                                    owner: i,
                                };
                                cons.push(Construction::TextureView { member: i });
                                layout.push(
                                    LayoutEntry {
                                        binding: m.index,
                                        kind: LayoutKind::Texture {
                                            dimension: ta.dimension,
                                            sample_type: ta.sample_type,
                                            multisampled: ta.multisampled,
                                        },
                                    },
                                );
                            },
                            Err(e) => {
                                proof {
                                    assert(member_step(ms, i as int, pre) == Result::<
                                        RState,
                                        ErrModel,
                                    >::Err(e@));
                                }
                                return Err(e);
                            },
                        }
                    },
                    BindingType::Sampler => {
                        match crate::attrs::get_sampler_attrs(&m.options) {
                            Ok(sa) => {
                                slots[idx] = BindingState::Occupied {
                                    kind: BindingType::Sampler,
                                    owner: i,
                                };
                                cons.push(Construction::SamplerHandle { member: i });
                                layout.push(
                                    LayoutEntry {
                                        binding: m.index,
                                        kind: LayoutKind::Sampler {
                                            binding_type: sa.sampler_binding_type,
                                        },
                                    },
                                );
                            },
                            Err(e) => {
                                proof {
                                    assert(member_step(ms, i as int, pre) == Result::<
                                        RState,
                                        ErrModel,
                                    >::Err(e@));
                                }
                                return Err(e);
                            },
                        }
                    },
                }
            },
            BindingState::Occupied { kind, owner } => {
                return Err(
                    ResolveError::SlotOccupied {
                        member: m.name.clone(),
                        binding: m.index,
                        occupant: input.members[owner].name.clone(),
                        occupant_kind: kind,
                    },
                );
            },
            BindingState::OccupiedConvertedUniform => {
                return Err(
                    ResolveError::SlotOccupiedByStructUniform {
                        member: m.name.clone(),
                        binding: m.index,
                    },
                );
            },
            BindingState::OccupiedMergeableUniform => {
                match m.kind {
                    BindingType::Uniform => {},
                    _ => {
                        return Err(
                            ResolveError::SlotOccupiedByMergedUniform {
                                member: m.name.clone(),
                                binding: m.index,
                            },
                        );
                    },
                }
            },
        }
        proof {
            assert(member_step(ms, i as int, pre) == Result::<RState, ErrModel>::Ok(
                st_of(slots@, cons@, layout@),
            ));
        }
        i = i + 1;
    }

    let ghost st_scan = st_of(slots@, cons@, layout@);
    proof {
        assert(scan_members(ms, 0, st0) == Result::<RState, ErrModel>::Ok(st_scan));
    }

    let mut b: usize = 0;
    let n = slots.len();
    while b < n
        invariant
            0 <= b <= n,
            n == slots@.len(),
            slots@.len() <= 0x1_0000_0000,
            slots@ == st_scan.slots,
            total_declared_size(*input) <= u64::MAX,
            ms == input.members@,
            merge_pass(ms, st_scan.slots, 0, st_scan) == merge_pass(
                ms,
                st_scan.slots,
                b as int,
                st_of(slots@, cons@, layout@),
            ),
        decreases n - b,
    {
        if matches!(slots[b], BindingState::OccupiedMergeableUniform) {
            let min = sum_uniform_sizes(input, b as u32);
            cons.push(Construction::MergedUniform { binding: b as u32 });
            layout.push(
                LayoutEntry {
                    binding: b as u32,
                    kind: LayoutKind::UniformBuffer { min_size: min },
                },
            );
        }
        b = b + 1;
    }

    let data_type = match &input.data_type {
        Some(s) => Some(s.clone()),
        None => None,
    };
    Ok(Resolved { slots, constructions: cons, layout, data_type })
}

} // verus!
