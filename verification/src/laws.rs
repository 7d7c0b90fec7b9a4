//! Proved properties of the resolver.
//!
//! The public proof functions here state the guarantees a user of the
//! resolver relies on: the emitted layout covers exactly the declared binding
//! indices, each exactly once; non-uniform collisions and collisions with the
//! aggregate-level uniform declaration are always rejected; uniform members
//! sharing an index always merge, with the minimum size of the combined
//! record; and a slot holding a single uniform member behaves exactly as the
//! merged path reduced to one member.

use vstd::prelude::*;

use crate::attrs::{sampler_attrs_of, texture_attrs_of, BindingType};
use crate::error::ErrModel;
use crate::prepare::{cons_all_ok, merged_bytes, MemberValue};
use crate::resolve::{
    grown, member_step, merge_pass, resolve_model, scan_members, uniform_size_from,
    BindGroupInput, BindingState, Construction, ConvertedUniformDecl,
    LayoutEntry, LayoutKind, MemberDecl, RState,
};

verus! {

/// The table is never larger than one past the largest 32-bit index.
pub open spec fn slots_bounded(slots: Seq<BindingState>) -> bool {
    slots.len() <= 0x1_0000_0000
}

/// Some layout entry targets binding index `k`.
pub open spec fn has_binding(layout: Seq<LayoutEntry>, k: int) -> bool {
    exists|j: int| 0 <= j < layout.len() && (#[trigger] layout[j]).binding as int == k
}

/// Binding index `k` is declared by the aggregate-level declaration or by one
/// of the first `i` member declarations.
pub open spec fn declared_before(
    ms: Seq<MemberDecl>,
    conv: Option<ConvertedUniformDecl>,
    i: int,
    k: int,
) -> bool {
    ||| (conv matches Some(c) && c.index as int == k)
    ||| exists|t: int| 0 <= t < i && (#[trigger] ms[t]).index as int == k
}

/// Binding index `k` is declared somewhere in the declaration set.
pub open spec fn declared_at(input: BindGroupInput, k: int) -> bool {
    declared_before(input.members@, input.converted, input.members@.len() as int, k)
}

/// The binding index a construction serves.
pub open spec fn con_binding(
    ms: Seq<MemberDecl>,
    conv: Option<ConvertedUniformDecl>,
    c: Construction,
) -> int {
    match c {
        Construction::ConvertedUniform => match conv {
            Some(cv) => cv.index as int,
            None => -1,
        },
        Construction::TextureView { member } => if member < ms.len() {
            ms[member as int].index as int
        } else {
            -1
        },
        Construction::SamplerHandle { member } => if member < ms.len() {
            ms[member as int].index as int
        } else {
            -1
        },
        Construction::MergedUniform { binding } => binding as int,
    }
}

/// Invariant of the member scan after the first `i` members were applied
/// without error.
pub open spec fn scan_inv(
    ms: Seq<MemberDecl>,
    conv: Option<ConvertedUniformDecl>,
    i: int,
    st: RState,
) -> bool {
    &&& st.cons.len() == st.layout.len()
    &&& slots_bounded(st.slots)
    &&& cons_all_ok(ms, conv, st.cons)
    // emitted bindings are pairwise distinct
    &&& forall|j1: int, j2: int|
        0 <= j1 < j2 < st.layout.len() ==> (#[trigger] st.layout[j1]).binding != (
        #[trigger] st.layout[j2]).binding
    // each emitted binding's slot is directly occupied
    &&& forall|j: int|
        0 <= j < st.layout.len() ==> (((#[trigger] st.layout[j]).binding as int) < st.slots.len()
            && (st.slots[st.layout[j].binding as int] is Occupied
            || st.slots[st.layout[j].binding as int] is OccupiedConvertedUniform))
    // each directly occupied slot is emitted
    &&& forall|k: int|
        0 <= k < st.slots.len() && ((#[trigger] st.slots[k]) is Occupied || st.slots[k]
            is OccupiedConvertedUniform) ==> has_binding(st.layout, k)
    // a slot is free exactly when its index is undeclared so far
    &&& forall|k: int|
        0 <= k < st.slots.len() ==> ((#[trigger] st.slots[k]) is Free <==> !declared_before(
            ms,
            conv,
            i,
            k,
        ))
    // converted-uniform slots come from the aggregate-level declaration
    &&& forall|k: int|
        0 <= k < st.slots.len() && (#[trigger] st.slots[k]) is OccupiedConvertedUniform ==> (
        conv matches Some(c) && c.index as int == k)
    // mergeable slots hold at least one scanned uniform member
    &&& forall|k: int|
        0 <= k < st.slots.len() && (#[trigger] st.slots[k]) is OccupiedMergeableUniform
            ==> exists|t: int|
            0 <= t < i && (#[trigger] ms[t]).kind is Uniform && ms[t].index as int == k
    // every scanned uniform member sits in a mergeable slot
    &&& forall|t: int|
        0 <= t < i && (#[trigger] ms[t]).kind is Uniform ==> ((ms[t].index as int) < st.slots.len()
            && st.slots[ms[t].index as int] is OccupiedMergeableUniform)
    // constructions and layout entries are aligned slot by slot
    &&& forall|j: int|
        0 <= j < st.cons.len() ==> con_binding(ms, conv, #[trigger] st.cons[j]) == st.layout[
            j
        ].binding as int
    // merged-uniform constructions only come from the second pass
    &&& forall|j: int| 0 <= j < st.cons.len() ==> !((#[trigger] st.cons[j]) is MergedUniform)
    // every index declared so far is inside the table
    &&& (conv matches Some(c) ==> (c.index as int) < st.slots.len())
    &&& forall|t: int| 0 <= t < i ==> ((#[trigger] ms[t]).index as int) < st.slots.len()
}

/// Facts about growing the slot table for member `i`.
proof fn lemma_grow_facts(
    ms: Seq<MemberDecl>,
    conv: Option<ConvertedUniformDecl>,
    i: int,
    st: RState,
)
    requires
        0 <= i < ms.len(),
        scan_inv(ms, conv, i, st),
    ensures
        grown(st.slots, ms[i].index + 1).len() >= st.slots.len(),
        grown(st.slots, ms[i].index + 1).len() >= ms[i].index + 1,
        slots_bounded(grown(st.slots, ms[i].index + 1)),
        forall|k: int|
            0 <= k < st.slots.len() ==> #[trigger] grown(st.slots, ms[i].index + 1)[k]
                == st.slots[k],
        forall|k: int|
            st.slots.len() <= k < grown(st.slots, ms[i].index + 1).len()
                ==> #[trigger] grown(st.slots, ms[i].index + 1)[k] == BindingState::Free,
        forall|k: int|
            0 <= k < grown(st.slots, ms[i].index + 1).len() ==> ((#[trigger] grown(
                st.slots,
                ms[i].index + 1,
            )[k]) is Free <==> !declared_before(ms, conv, i, k)),
{
    let g = grown(st.slots, ms[i].index + 1);
    assert forall|k: int|
        st.slots.len() <= k < g.len() implies !declared_before(ms, conv, i, k) by {
        if declared_before(ms, conv, i, k) {
            match conv {
                Some(c) => {
                    if c.index as int == k {
                        assert((c.index as int) < st.slots.len());
                    } else {
                        let t = choose|t: int| 0 <= t < i && (#[trigger] ms[t]).index as int == k;
                        assert((ms[t].index as int) < st.slots.len());
                    }
                },
                None => {
                    let t = choose|t: int| 0 <= t < i && (#[trigger] ms[t]).index as int == k;
                    assert((ms[t].index as int) < st.slots.len());
                },
            }
        }
    }
}

/// A step that adds no emission (a uniform member occupying a free slot or
/// joining a mergeable one) preserves the scan invariant.
#[verifier::rlimit(100)]
proof fn lemma_step_inv_uniform(
    ms: Seq<MemberDecl>,
    conv: Option<ConvertedUniformDecl>,
    i: int,
    st: RState,
    st2: RState,
)
    requires
        0 <= i < ms.len(),
        ms[i].kind is Uniform,
        member_step(ms, i, st) == Result::<RState, ErrModel>::Ok(st2),
        scan_inv(ms, conv, i, st),
    ensures
        scan_inv(ms, conv, i + 1, st2),
{
    let m = ms[i];
    let mi = m.index as int;
    let g = grown(st.slots, m.index + 1);
    lemma_grow_facts(ms, conv, i, st);
    assert(g[mi] is Free || g[mi] is OccupiedMergeableUniform);
    assert(st2.cons == st.cons && st2.layout == st.layout);
    assert(st2.slots.len() == g.len());
    assert(forall|k: int| 0 <= k < st2.slots.len() && k != mi ==> #[trigger] st2.slots[k] == g[k]);
    assert(st2.slots[mi] is OccupiedMergeableUniform);
    assert(declared_before(ms, conv, i + 1, mi));
    assert forall|k: int|
        0 <= k < st2.slots.len() && k != mi implies (declared_before(ms, conv, i + 1, k)
            <==> declared_before(ms, conv, i, k)) by {
        if declared_before(ms, conv, i + 1, k) && !declared_before(ms, conv, i, k) {
            let t = choose|t: int| 0 <= t < i + 1 && (#[trigger] ms[t]).index as int == k;
            assert(t == i);
        }
    }
    // each emitted binding's slot is unchanged
    assert forall|j: int|
        0 <= j < st2.layout.len() implies (((#[trigger] st2.layout[j]).binding as int)
            < st2.slots.len() && (st2.slots[st2.layout[j].binding as int] is Occupied
            || st2.slots[st2.layout[j].binding as int] is OccupiedConvertedUniform)) by {
        let kb = st.layout[j].binding as int;
        assert(st.slots[kb] is Occupied || st.slots[kb] is OccupiedConvertedUniform);
        assert(g[kb] == st.slots[kb]);
        assert(kb != mi);
    }
    // occupied slots keep their witnesses
    assert forall|k: int|
        0 <= k < st2.slots.len() && ((#[trigger] st2.slots[k]) is Occupied || st2.slots[k]
            is OccupiedConvertedUniform) implies has_binding(st2.layout, k) by {
        assert(k != mi);
        assert(st2.slots[k] == g[k]);
        assert(k < st.slots.len());
        assert(has_binding(st.layout, k));
    }
    // mergeable slots hold a uniform member
    assert forall|k: int|
        0 <= k < st2.slots.len() && (#[trigger] st2.slots[k]) is OccupiedMergeableUniform
            implies exists|t: int|
        0 <= t < i + 1 && (#[trigger] ms[t]).kind is Uniform && ms[t].index as int == k by {
        if k == mi {
            assert(0 <= i < i + 1 && ms[i].kind is Uniform && ms[i].index as int == k);
        } else {
            assert(k < st.slots.len() && st.slots[k] is OccupiedMergeableUniform);
            let t = choose|t: int|
                0 <= t < i && (#[trigger] ms[t]).kind is Uniform && ms[t].index as int == k;
            assert(0 <= t < i + 1 && ms[t].kind is Uniform && ms[t].index as int == k);
        }
    }
    // every scanned uniform member still sits in a mergeable slot
    assert forall|t: int|
        0 <= t < i + 1 && (#[trigger] ms[t]).kind is Uniform implies ((ms[t].index as int)
            < st2.slots.len() && st2.slots[ms[t].index as int] is OccupiedMergeableUniform) by {
        if t < i {
            assert(st.slots[ms[t].index as int] is OccupiedMergeableUniform);
            assert(g[ms[t].index as int] is OccupiedMergeableUniform);
        }
    }
}

/// Structural equations of an emitting step (a texture or sampler member
/// occupying a free slot), stated without reference to the step function.
#[verifier::rlimit(100)]
proof fn lemma_step_emit_shape(ms: Seq<MemberDecl>, i: int, st: RState, st2: RState)
    requires
        ms.len() <= usize::MAX,
        0 <= i < ms.len(),
        !(ms[i].kind is Uniform),
        member_step(ms, i, st) == Result::<RState, ErrModel>::Ok(st2),
    ensures
        grown(st.slots, ms[i].index + 1)[ms[i].index as int] is Free,
        st2.slots == grown(st.slots, ms[i].index + 1).update(
            ms[i].index as int,
            BindingState::Occupied { kind: ms[i].kind, owner: i as usize },
        ),
        st2.cons.len() == st.cons.len() + 1,
        forall|j: int| 0 <= j < st.cons.len() ==> #[trigger] st2.cons[j] == st.cons[j],
        st2.cons[st.cons.len() as int] == (if ms[i].kind is Texture {
            Construction::TextureView { member: i as usize }
        } else {
            Construction::SamplerHandle { member: i as usize }
        }),
        st2.layout.len() == st.layout.len() + 1,
        forall|j: int| 0 <= j < st.layout.len() ==> #[trigger] st2.layout[j] == st.layout[j],
        st2.layout[st.layout.len() as int].binding == ms[i].index,
{
    let m = ms[i];
    let g = grown(st.slots, m.index + 1);
    match g[m.index as int] {
        BindingState::Free => {
            match m.kind {
                BindingType::Texture => {
                    match texture_attrs_of(m.options@) {
                        Ok(_) => {},
                        Err(_) => {
                            assert(false);
                        },
                    }
                },
                BindingType::Sampler => {
                    match sampler_attrs_of(m.options@) {
                        Ok(_) => {},
                        Err(_) => {
                            assert(false);
                        },
                    }
                },
                BindingType::Uniform => {
                    assert(false);
                },
            }
        },
        BindingState::OccupiedMergeableUniform => {
            assert(false);
        },
        _ => {
            assert(false);
        },
    }
}

/// Requires shared by the emitting-step lemmas: the structural equations of
/// a texture or sampler member occupying a free slot.
spec fn emit_shape(ms: Seq<MemberDecl>, i: int, st: RState, st2: RState) -> bool {
    &&& ms.len() <= usize::MAX
    &&& 0 <= i < ms.len()
    &&& !(ms[i].kind is Uniform)
    &&& grown(st.slots, ms[i].index + 1)[ms[i].index as int] is Free
    &&& st2.slots == grown(st.slots, ms[i].index + 1).update(
        ms[i].index as int,
        BindingState::Occupied { kind: ms[i].kind, owner: i as usize },
    )
    &&& st2.cons.len() == st.cons.len() + 1
    &&& forall|j: int| 0 <= j < st.cons.len() ==> #[trigger] st2.cons[j] == st.cons[j]
    &&& st2.cons[st.cons.len() as int] == (if ms[i].kind is Texture {
        Construction::TextureView { member: i as usize }
    } else {
        Construction::SamplerHandle { member: i as usize }
    })
    &&& st2.layout.len() == st.layout.len() + 1
    &&& forall|j: int| 0 <= j < st.layout.len() ==> #[trigger] st2.layout[j] == st.layout[j]
    &&& st2.layout[st.layout.len() as int].binding == ms[i].index
}

/// Occupancy-side invariant clauses after an emitting step.
#[verifier::rlimit(100)]
proof fn lemma_step_inv_emit_slots(
    ms: Seq<MemberDecl>,
    conv: Option<ConvertedUniformDecl>,
    i: int,
    st: RState,
    st2: RState,
)
    requires
        emit_shape(ms, i, st, st2),
        scan_inv(ms, conv, i, st),
    ensures
        slots_bounded(st2.slots),
        forall|k: int|
            0 <= k < st2.slots.len() ==> ((#[trigger] st2.slots[k]) is Free <==> !declared_before(
                ms,
                conv,
                i + 1,
                k,
            )),
        forall|k: int|
            0 <= k < st2.slots.len() && (#[trigger] st2.slots[k]) is OccupiedConvertedUniform ==> (
            conv matches Some(c) && c.index as int == k),
        forall|k: int|
            0 <= k < st2.slots.len() && (#[trigger] st2.slots[k]) is OccupiedMergeableUniform
                ==> exists|t: int|
                0 <= t < i + 1 && (#[trigger] ms[t]).kind is Uniform && ms[t].index as int == k,
        forall|t: int|
            0 <= t < i + 1 && (#[trigger] ms[t]).kind is Uniform ==> ((ms[t].index as int)
                < st2.slots.len() && st2.slots[ms[t].index as int] is OccupiedMergeableUniform),
        conv matches Some(c) ==> (c.index as int) < st2.slots.len(),
        forall|t: int| 0 <= t < i + 1 ==> ((#[trigger] ms[t]).index as int) < st2.slots.len(),
{
    let m = ms[i];
    let mi = m.index as int;
    let g = grown(st.slots, m.index + 1);
    lemma_grow_facts(ms, conv, i, st);
    assert(st2.slots.len() == g.len());
    assert(forall|k: int| 0 <= k < st2.slots.len() && k != mi ==> #[trigger] st2.slots[k] == g[k]);
    assert(st2.slots[mi] is Occupied);
    assert(declared_before(ms, conv, i + 1, mi));
    assert forall|k: int|
        0 <= k < st2.slots.len() && k != mi implies (declared_before(ms, conv, i + 1, k)
            <==> declared_before(ms, conv, i, k)) by {
        if declared_before(ms, conv, i + 1, k) && !declared_before(ms, conv, i, k) {
            let t = choose|t: int| 0 <= t < i + 1 && (#[trigger] ms[t]).index as int == k;
            assert(t == i);
        }
    }
    assert forall|k: int|
        0 <= k < st2.slots.len() && (#[trigger] st2.slots[k]) is OccupiedMergeableUniform
            implies exists|t: int|
        0 <= t < i + 1 && (#[trigger] ms[t]).kind is Uniform && ms[t].index as int == k by {
        assert(k != mi);
        assert(st2.slots[k] == g[k]);
        assert(k < st.slots.len() && st.slots[k] is OccupiedMergeableUniform);
        let t = choose|t: int|
            0 <= t < i && (#[trigger] ms[t]).kind is Uniform && ms[t].index as int == k;
        assert(0 <= t < i + 1 && ms[t].kind is Uniform && ms[t].index as int == k);
    }
    assert forall|t: int|
        0 <= t < i + 1 && (#[trigger] ms[t]).kind is Uniform implies ((ms[t].index as int)
            < st2.slots.len() && st2.slots[ms[t].index as int] is OccupiedMergeableUniform) by {
        assert(t < i);
        assert(st.slots[ms[t].index as int] is OccupiedMergeableUniform);
        assert(g[ms[t].index as int] is OccupiedMergeableUniform);
        assert(ms[t].index as int != mi);
    }
}

/// Emission-side invariant clauses after an emitting step.
#[verifier::rlimit(100)]
proof fn lemma_step_inv_emit_entries(
    ms: Seq<MemberDecl>,
    conv: Option<ConvertedUniformDecl>,
    i: int,
    st: RState,
    st2: RState,
)
    requires
        emit_shape(ms, i, st, st2),
        scan_inv(ms, conv, i, st),
    ensures
        st2.cons.len() == st2.layout.len(),
        cons_all_ok(ms, conv, st2.cons),
        forall|j1: int, j2: int|
            0 <= j1 < j2 < st2.layout.len() ==> (#[trigger] st2.layout[j1]).binding != (
            #[trigger] st2.layout[j2]).binding,
        forall|j: int|
            0 <= j < st2.layout.len() ==> (((#[trigger] st2.layout[j]).binding as int)
                < st2.slots.len() && (st2.slots[st2.layout[j].binding as int] is Occupied
                || st2.slots[st2.layout[j].binding as int] is OccupiedConvertedUniform)),
        forall|k: int|
            0 <= k < st2.slots.len() && ((#[trigger] st2.slots[k]) is Occupied || st2.slots[k]
                is OccupiedConvertedUniform) ==> has_binding(st2.layout, k),
        forall|j: int|
            0 <= j < st2.cons.len() ==> con_binding(ms, conv, #[trigger] st2.cons[j]) == st2.layout[
                j
            ].binding as int,
        forall|j: int| 0 <= j < st2.cons.len() ==> !((#[trigger] st2.cons[j]) is MergedUniform),
{
    let m = ms[i];
    let mi = m.index as int;
    let g = grown(st.slots, m.index + 1);
    lemma_grow_facts(ms, conv, i, st);
    assert(st2.slots.len() == g.len());
    assert(forall|k: int| 0 <= k < st2.slots.len() && k != mi ==> #[trigger] st2.slots[k] == g[k]);
    assert(st2.slots[mi] is Occupied);
    // no earlier entry targets the newly occupied slot
    assert forall|j: int|
        0 <= j < st.layout.len() implies (#[trigger] st.layout[j]).binding as int != mi by {
        let kb = st.layout[j].binding as int;
        assert(st.slots[kb] is Occupied || st.slots[kb] is OccupiedConvertedUniform);
        if kb == mi {
            assert(g[kb] == st.slots[kb]);
        }
    }
    assert forall|j1: int, j2: int|
        0 <= j1 < j2 < st2.layout.len() implies (#[trigger] st2.layout[j1]).binding != (
    #[trigger] st2.layout[j2]).binding by {
        if j2 == st.layout.len() {
            assert(st2.layout[j1] == st.layout[j1]);
            assert(st.layout[j1].binding as int != mi);
        }
    }
    assert forall|j: int|
        0 <= j < st2.layout.len() implies (((#[trigger] st2.layout[j]).binding as int)
            < st2.slots.len() && (st2.slots[st2.layout[j].binding as int] is Occupied
            || st2.slots[st2.layout[j].binding as int] is OccupiedConvertedUniform)) by {
        if j < st.layout.len() {
            let kb = st.layout[j].binding as int;
            assert(st.slots[kb] is Occupied || st.slots[kb] is OccupiedConvertedUniform);
            assert(kb != mi);
            assert(st2.slots[kb] == g[kb]);
        }
    }
    assert forall|k: int|
        0 <= k < st2.slots.len() && ((#[trigger] st2.slots[k]) is Occupied || st2.slots[k]
            is OccupiedConvertedUniform) implies has_binding(st2.layout, k) by {
        if k == mi {
            assert(st2.layout[st.layout.len() as int].binding as int == k);
        } else {
            assert(st2.slots[k] == g[k]);
            assert(k < st.slots.len());
            assert(has_binding(st.layout, k));
            let j = choose|j: int|
                0 <= j < st.layout.len() && (#[trigger] st.layout[j]).binding as int == k;
            assert(st2.layout[j] == st.layout[j]);
        }
    }
    assert forall|j: int|
        0 <= j < st2.cons.len() implies (con_binding(ms, conv, #[trigger] st2.cons[j])
            == st2.layout[j].binding as int && crate::prepare::cons_member_ok(
            ms,
            conv,
            st2.cons[j],
        ) && !(st2.cons[j] is MergedUniform)) by {
        if j < st.cons.len() {
            assert(st2.cons[j] == st.cons[j]);
            assert(st2.layout[j] == st.layout[j]);
            assert(cons_all_ok(ms, conv, st.cons));
        } else {
            assert(j == st.cons.len());
            assert(i as usize as int == i);
            assert(st2.layout[j].binding == ms[i].index);
        }
    }
}

/// A step that emits (a texture or sampler member occupying a free slot)
/// preserves the scan invariant.
proof fn lemma_step_inv_emit(
    ms: Seq<MemberDecl>,
    conv: Option<ConvertedUniformDecl>,
    i: int,
    st: RState,
    st2: RState,
)
    requires
        ms.len() <= usize::MAX,
        0 <= i < ms.len(),
        !(ms[i].kind is Uniform),
        member_step(ms, i, st) == Result::<RState, ErrModel>::Ok(st2),
        scan_inv(ms, conv, i, st),
    ensures
        scan_inv(ms, conv, i + 1, st2),
{
    lemma_step_emit_shape(ms, i, st, st2);
    lemma_step_inv_emit_slots(ms, conv, i, st, st2);
    lemma_step_inv_emit_entries(ms, conv, i, st, st2);
}

/// One successful member step preserves the scan invariant.
proof fn lemma_step_inv(
    ms: Seq<MemberDecl>,
    conv: Option<ConvertedUniformDecl>,
    i: int,
    st: RState,
    st2: RState,
)
    requires
        ms.len() <= usize::MAX,
        0 <= i < ms.len(),
        member_step(ms, i, st) == Result::<RState, ErrModel>::Ok(st2),
        scan_inv(ms, conv, i, st),
    ensures
        scan_inv(ms, conv, i + 1, st2),
{
    if ms[i].kind is Uniform {
        lemma_step_inv_uniform(ms, conv, i, st, st2);
    } else {
        lemma_step_emit_shape(ms, i, st, st2);
        lemma_step_inv_emit(ms, conv, i, st, st2);
    }
}

/// A successful scan ends in a state satisfying the invariant for the whole
/// declaration list.
proof fn lemma_scan_inv_end(
    ms: Seq<MemberDecl>,
    conv: Option<ConvertedUniformDecl>,
    i: int,
    st: RState,
    stf: RState,
)
    requires
        ms.len() <= usize::MAX,
        0 <= i <= ms.len(),
        scan_inv(ms, conv, i, st),
        scan_members(ms, i, st) == Result::<RState, ErrModel>::Ok(stf),
    ensures
        scan_inv(ms, conv, ms.len() as int, stf),
    decreases ms.len() - i,
{
    if i < ms.len() {
        match member_step(ms, i, st) {
            Ok(st2) => {
                lemma_step_inv(ms, conv, i, st, st2);
                lemma_scan_inv_end(ms, conv, i + 1, st2, stf);
            },
            Err(_) => {
                assert(false);
            },
        }
    }
}

/// The initial state satisfies the invariant with no member scanned.
proof fn lemma_init_inv(ms: Seq<MemberDecl>, conv: Option<ConvertedUniformDecl>)
    ensures
        scan_inv(ms, conv, 0, crate::resolve::init_state(conv)),
{
    let st = crate::resolve::init_state(conv);
    match conv {
        None => {
            assert(st.slots.len() == 0);
            assert(st.layout.len() == 0);
        },
        Some(c) => {
            assert(st.slots.len() == c.index + 1);
            assert(st.slots[c.index as int] is OccupiedConvertedUniform);
            assert(forall|k: int|
                0 <= k < st.slots.len() && k != c.index as int ==> (#[trigger] st.slots[k])
                    is Free);
            assert(st.layout[0].binding as int == c.index as int);
            assert(has_binding(st.layout, c.index as int));
        },
    }
}

/// Everything the merge pass does: it keeps the table and the already
/// emitted entries, and appends one aligned construction/layout pair per
/// mergeable slot, in ascending slot order, carrying the combined minimum
/// size of that slot's members.
proof fn lemma_merge_props(
    ms: Seq<MemberDecl>,
    slots: Seq<BindingState>,
    b: int,
    st: RState,
    fin: RState,
)
    requires
        0 <= b <= slots.len(),
        slots_bounded(slots),
        merge_pass(ms, slots, b, st) == fin,
    ensures
        fin.slots == st.slots,
        fin.layout.len() >= st.layout.len(),
        fin.cons.len() - st.cons.len() == fin.layout.len() - st.layout.len(),
        forall|t: int| 0 <= t < st.layout.len() ==> #[trigger] fin.layout[t] == st.layout[t],
        forall|t: int| 0 <= t < st.cons.len() ==> #[trigger] fin.cons[t] == st.cons[t],
        forall|t: int|
            st.layout.len() <= t < fin.layout.len() ==> {
                let kb = (#[trigger] fin.layout[t]).binding as int;
                &&& b <= kb < slots.len()
                &&& slots[kb] is OccupiedMergeableUniform
                &&& fin.layout[t].kind == (LayoutKind::UniformBuffer {
                    min_size: uniform_size_from(ms, 0, fin.layout[t].binding) as u64,
                })
                &&& fin.cons[st.cons.len() + (t - st.layout.len())] == (Construction::MergedUniform {
                    binding: fin.layout[t].binding,
                })
            },
        forall|t1: int, t2: int|
            st.layout.len() <= t1 < t2 < fin.layout.len() ==> (#[trigger] fin.layout[t1]).binding
                < (#[trigger] fin.layout[t2]).binding,
        forall|k: int|
            b <= k < slots.len() && (#[trigger] slots[k]) is OccupiedMergeableUniform ==> exists|
                t: int,
            |
                st.layout.len() <= t < fin.layout.len() && (#[trigger] fin.layout[t]).binding as int
                    == k,
    decreases slots.len() - b,
{
    if b < slots.len() {
        if slots[b] is OccupiedMergeableUniform {
            let st2 = RState {
                slots: st.slots,
                cons: st.cons.push(Construction::MergedUniform { binding: b as u32 }),
                layout: st.layout.push(
                    LayoutEntry {
                        binding: b as u32,
                        kind: LayoutKind::UniformBuffer {
                            min_size: uniform_size_from(ms, 0, b as u32) as u64,
                        },
                    },
                ),
            };
            lemma_merge_props(ms, slots, b + 1, st2, fin);
            assert(fin.layout[st.layout.len() as int].binding as int == b);
            assert(forall|k: int|
                b <= k < slots.len() && (#[trigger] slots[k]) is OccupiedMergeableUniform
                    ==> has_merged_witness(st, fin, k)) by {
                assert forall|k: int|
                    b <= k < slots.len() && (#[trigger] slots[k]) is OccupiedMergeableUniform
                        implies has_merged_witness(st, fin, k) by {
                    if k == b {
                        assert(st.layout.len() <= st.layout.len() < fin.layout.len());
                        assert(fin.layout[st.layout.len() as int].binding as int == k);
                    } else {
                        assert(exists|t: int|
                            st2.layout.len() <= t < fin.layout.len() && (
                            #[trigger] fin.layout[t]).binding as int == k);
                    }
                }
            }
        } else {
            lemma_merge_props(ms, slots, b + 1, st, fin);
        }
    }
}

/// Some entry appended after position `st.layout.len()` targets binding `k`.
pub open spec fn has_merged_witness(st: RState, fin: RState, k: int) -> bool {
    exists|t: int|
        st.layout.len() <= t < fin.layout.len() && (#[trigger] fin.layout[t]).binding as int == k
}

/// LAW: for every successfully resolved declaration set, the binding indices
/// of the emitted layout are exactly the declared indices, each emitted
/// exactly once; constructions and layout entries are aligned slot by slot;
/// every construction references members of its own kind; and the
/// merged-uniform entries form the tail of the emission in ascending index
/// order.
pub proof fn lemma_emitted_slots_exact(input: BindGroupInput, st: RState)
    requires
        resolve_model(input) == Result::<RState, ErrModel>::Ok(st),
    ensures
        st.cons.len() == st.layout.len(),
        cons_all_ok(input.members@, input.converted, st.cons),
        forall|j1: int, j2: int|
            0 <= j1 < j2 < st.layout.len() ==> (#[trigger] st.layout[j1]).binding != (
            #[trigger] st.layout[j2]).binding,
        forall|j: int|
            0 <= j < st.layout.len() ==> declared_at(input, (#[trigger] st.layout[j]).binding as int),
        forall|k: int| declared_at(input, k) ==> has_binding(st.layout, k),
        forall|j: int|
            0 <= j < st.cons.len() ==> con_binding(input.members@, input.converted, #[trigger] st.cons[j])
                == st.layout[j].binding as int,
        forall|t1: int, t2: int|
            0 <= t1 < t2 < st.cons.len() && (#[trigger] st.cons[t1]) is MergedUniform && (
            #[trigger] st.cons[t2]) is MergedUniform ==> st.layout[t1].binding < st.layout[t2].binding,
{
    let ms = input.members@;
    let conv = input.converted;
    let st0 = crate::resolve::init_state(conv);
    lemma_init_inv(ms, conv);
    vstd::std_specs::vec::axiom_spec_len(&input.members);
    match scan_members(ms, 0, st0) {
        Ok(stm) => {
            lemma_scan_inv_end(ms, conv, 0, st0, stm);
            lemma_exact_align(input, st, stm);
            lemma_exact_sound(input, st, stm);
            lemma_exact_complete(input, st, stm);
            lemma_exact_distinct(input, st, stm);
        },
        Err(_) => {
            assert(false);
        },
    }
}

/// Shared precondition of the helpers below: `stm` is the state after a
/// successful scan and `st` the state after the merge pass.
spec fn exact_setup(input: BindGroupInput, st: RState, stm: RState) -> bool {
    &&& scan_inv(input.members@, input.converted, input.members@.len() as int, stm)
    &&& merge_pass(input.members@, stm.slots, 0, stm) == st
}

#[verifier::rlimit(100)]
proof fn lemma_exact_align(input: BindGroupInput, st: RState, stm: RState)
    requires
        exact_setup(input, st, stm),
    ensures
        st.cons.len() == st.layout.len(),
        cons_all_ok(input.members@, input.converted, st.cons),
        forall|j: int|
            0 <= j < st.cons.len() ==> con_binding(input.members@, input.converted, #[trigger] st.cons[j])
                == st.layout[j].binding as int,
        forall|t1: int, t2: int|
            0 <= t1 < t2 < st.cons.len() && (#[trigger] st.cons[t1]) is MergedUniform && (
            #[trigger] st.cons[t2]) is MergedUniform ==> st.layout[t1].binding < st.layout[t2].binding,
{
    let ms = input.members@;
    let conv = input.converted;
    lemma_merge_props(ms, stm.slots, 0, stm, st);
    assert forall|j: int|
        0 <= j < st.cons.len() implies cons_member_ok_at(ms, conv, st, j) by {
        if j < stm.cons.len() {
            assert(st.cons[j] == stm.cons[j]);
            assert(cons_all_ok(ms, conv, stm.cons));
        } else {
            let t = j - stm.cons.len() + stm.layout.len();
            assert(st.cons[stm.cons.len() + (t - stm.layout.len())] == (
            Construction::MergedUniform { binding: st.layout[t].binding }));
        }
    }
    assert forall|t1: int, t2: int|
        0 <= t1 < t2 < st.cons.len() && (#[trigger] st.cons[t1]) is MergedUniform && (
        #[trigger] st.cons[t2]) is MergedUniform implies st.layout[t1].binding < st.layout[
        t2
    ].binding by {
        if t1 < stm.cons.len() {
            assert(st.cons[t1] == stm.cons[t1]);
            assert(!(stm.cons[t1] is MergedUniform));
        }
        if t2 < stm.cons.len() {
            assert(st.cons[t2] == stm.cons[t2]);
            assert(!(stm.cons[t2] is MergedUniform));
        }
        assert(stm.layout.len() <= t1 < t2 < st.layout.len());
    }
}

/// Construction `j` is well-formed and aligned with its layout entry.
spec fn cons_member_ok_at(
    ms: Seq<MemberDecl>,
    conv: Option<ConvertedUniformDecl>,
    st: RState,
    j: int,
) -> bool {
    &&& crate::prepare::cons_member_ok(ms, conv, st.cons[j])
    &&& con_binding(ms, conv, st.cons[j]) == st.layout[j].binding as int
}

#[verifier::rlimit(100)]
proof fn lemma_exact_sound(input: BindGroupInput, st: RState, stm: RState)
    requires
        exact_setup(input, st, stm),
    ensures
        forall|j: int|
            0 <= j < st.layout.len() ==> declared_at(input, (#[trigger] st.layout[j]).binding as int),
{
    let ms = input.members@;
    let conv = input.converted;
    lemma_merge_props(ms, stm.slots, 0, stm, st);
    assert forall|j: int|
        0 <= j < st.layout.len() implies declared_at(
        input,
        (#[trigger] st.layout[j]).binding as int,
    ) by {
        let kb = st.layout[j].binding as int;
        if j < stm.layout.len() {
            assert(st.layout[j] == stm.layout[j]);
            assert(0 <= kb < stm.slots.len());
            assert(!(stm.slots[kb] is Free));
        } else {
            assert(stm.slots[kb] is OccupiedMergeableUniform);
            assert(0 <= kb < stm.slots.len());
            assert(!(stm.slots[kb] is Free));
        }
    }
}

#[verifier::rlimit(100)]
proof fn lemma_exact_complete(input: BindGroupInput, st: RState, stm: RState)
    requires
        exact_setup(input, st, stm),
    ensures
        forall|k: int| declared_at(input, k) ==> has_binding(st.layout, k),
{
    let ms = input.members@;
    let conv = input.converted;
    lemma_merge_props(ms, stm.slots, 0, stm, st);
    assert forall|k: int| declared_at(input, k) implies has_binding(st.layout, k) by {
        if conv matches Some(c) && c.index as int == k {
            assert(0 <= k < stm.slots.len());
        } else {
            let t = choose|t: int|
                0 <= t < ms.len() && (#[trigger] ms[t]).index as int == k;
            assert(0 <= k < stm.slots.len());
        }
        assert(!(stm.slots[k] is Free));
        if stm.slots[k] is Occupied || stm.slots[k] is OccupiedConvertedUniform {
            let j = choose|j: int|
                0 <= j < stm.layout.len() && (#[trigger] stm.layout[j]).binding as int == k;
            assert(st.layout[j] == stm.layout[j]);
            assert(0 <= j < st.layout.len() && st.layout[j].binding as int == k);
        } else {
            assert(stm.slots[k] is OccupiedMergeableUniform);
            let t = choose|t: int|
                stm.layout.len() <= t < st.layout.len() && (#[trigger] st.layout[t]).binding as int
                    == k;
            assert(0 <= t < st.layout.len() && st.layout[t].binding as int == k);
        }
    }
}

#[verifier::rlimit(100)]
proof fn lemma_exact_distinct(input: BindGroupInput, st: RState, stm: RState)
    requires
        exact_setup(input, st, stm),
    ensures
        forall|j1: int, j2: int|
            0 <= j1 < j2 < st.layout.len() ==> (#[trigger] st.layout[j1]).binding != (
            #[trigger] st.layout[j2]).binding,
{
    let ms = input.members@;
    let conv = input.converted;
    lemma_merge_props(ms, stm.slots, 0, stm, st);
    assert forall|j1: int, j2: int|
        0 <= j1 < j2 < st.layout.len() implies (#[trigger] st.layout[j1]).binding != (
    #[trigger] st.layout[j2]).binding by {
        if j2 < stm.layout.len() {
            assert(st.layout[j1] == stm.layout[j1]);
            assert(st.layout[j2] == stm.layout[j2]);
        } else if j1 < stm.layout.len() {
            assert(st.layout[j1] == stm.layout[j1]);
            assert(stm.slots[stm.layout[j1].binding as int] is Occupied
                || stm.slots[stm.layout[j1].binding as int] is OccupiedConvertedUniform);
            assert(stm.slots[st.layout[j2].binding as int] is OccupiedMergeableUniform);
        }
    }
}

/// If a slot of the table is directly occupied or mergeable-conflicting for
/// member `k`, the scan from any earlier position fails.
proof fn lemma_scan_err_on_hit(ms: Seq<MemberDecl>, i: int, st: RState, k: int)
    requires
        0 <= i <= k < ms.len(),
        (ms[k].index as int) < st.slots.len(),
        st.slots[ms[k].index as int] is Occupied || st.slots[ms[k].index as int]
            is OccupiedConvertedUniform || (st.slots[ms[k].index as int]
            is OccupiedMergeableUniform && !(ms[k].kind is Uniform)),
    ensures
        scan_members(ms, i, st) is Err,
    decreases k - i,
{
    let b = ms[k].index as int;
    if i == k {
        let g = grown(st.slots, ms[i].index + 1);
        assert(g[b] == st.slots[b]);
    } else {
        match member_step(ms, i, st) {
            Ok(st2) => {
                let g = grown(st.slots, ms[i].index + 1);
                assert(g[b] == st.slots[b]);
                assert(!(st.slots[b] is Free));
                assert(st2.slots[b] == st.slots[b]);
                lemma_scan_err_on_hit(ms, i + 1, st2, k);
            },
            Err(_) => {},
        }
    }
}

/// LAW: two non-uniform members at the same binding index are always
/// rejected, wherever they stand in the declaration order; so is a uniform
/// member colliding with a non-uniform one.
pub proof fn lemma_non_uniform_conflict(input: BindGroupInput, k1: int, k2: int)
    requires
        0 <= k1 < k2 < input.members@.len(),
        input.members@[k1].index == input.members@[k2].index,
        !(input.members@[k1].kind is Uniform) || !(input.members@[k2].kind is Uniform),
    ensures
        resolve_model(input) is Err,
{
    let ms = input.members@;
    let st0 = crate::resolve::init_state(input.converted);
    lemma_scan_pair_err(ms, 0, st0, k1, k2);
}

/// Helper for `lemma_non_uniform_conflict`: once the scan reaches the first
/// member of the colliding pair, the second one must fail.
proof fn lemma_scan_pair_err(ms: Seq<MemberDecl>, i: int, st: RState, k1: int, k2: int)
    requires
        0 <= i <= k1 < k2 < ms.len(),
        ms[k1].index == ms[k2].index,
        !(ms[k1].kind is Uniform) || !(ms[k2].kind is Uniform),
    ensures
        scan_members(ms, i, st) is Err,
    decreases k1 - i,
{
    let b = ms[k1].index as int;
    match member_step(ms, i, st) {
        Ok(st2) => {
            if i == k1 {
                let g = grown(st.slots, ms[i].index + 1);
                assert(b < st2.slots.len());
                assert(st2.slots[b] is Occupied || st2.slots[b] is OccupiedMergeableUniform);
                if st2.slots[b] is OccupiedMergeableUniform {
                    assert(ms[k1].kind is Uniform || g[b] is OccupiedMergeableUniform);
                    assert(!(ms[k2].kind is Uniform));
                    lemma_scan_err_on_hit(ms, i + 1, st2, k2);
                } else {
                    lemma_scan_err_on_hit(ms, i + 1, st2, k2);
                }
            } else {
                lemma_scan_pair_err(ms, i + 1, st2, k1, k2);
            }
        },
        Err(_) => {},
    }
}

/// LAW: a member declared at the index of the aggregate-level
/// converted-uniform declaration is always rejected, whatever its kind.
pub proof fn lemma_converted_conflict(input: BindGroupInput, k: int)
    requires
        input.converted matches Some(c),
        0 <= k < input.members@.len(),
        input.converted matches Some(c) && input.members@[k].index == c.index,
    ensures
        resolve_model(input) is Err,
{
    let ms = input.members@;
    let st0 = crate::resolve::init_state(input.converted);
    let c = input.converted->Some_0;
    assert(st0.slots[c.index as int] is OccupiedConvertedUniform);
    lemma_scan_err_on_hit(ms, 0, st0, k);
}

/// Helper for `lemma_uniform_members_always_merge`: uniform members whose
/// indices only hit free or mergeable slots always scan through.
proof fn lemma_scan_uniform_ok(ms: Seq<MemberDecl>, i: int, st: RState)
    requires
        0 <= i <= ms.len(),
        forall|t: int| i <= t < ms.len() ==> (#[trigger] ms[t]).kind is Uniform,
        forall|t: int|
            i <= t < ms.len() ==> ((#[trigger] ms[t]).index as int >= st.slots.len()
                || st.slots[ms[t].index as int] is Free || st.slots[ms[t].index as int]
                is OccupiedMergeableUniform),
    ensures
        scan_members(ms, i, st) is Ok,
    decreases ms.len() - i,
{
    if i < ms.len() {
        let m = ms[i];
        let g = grown(st.slots, m.index + 1);
        match member_step(ms, i, st) {
            Ok(st2) => {
                assert(forall|k: int|
                    0 <= k < st.slots.len() ==> g[k] == st.slots[k]);
                assert(forall|k: int|
                    0 <= k < st2.slots.len() && k != m.index as int ==> #[trigger] st2.slots[k]
                        == g[k]);
                assert(st2.slots[m.index as int] is OccupiedMergeableUniform);
                lemma_scan_uniform_ok(ms, i + 1, st2);
            },
            Err(_) => {
                assert(g[m.index as int] == (if (m.index as int) < st.slots.len() {
                    st.slots[m.index as int]
                } else {
                    BindingState::Free
                }));
                assert(false);
            },
        }
    }
}

/// LAW: a declaration set of uniform members alone, none colliding with the
/// aggregate-level declaration, always resolves; two or more uniform members
/// at one index merge without error.
pub proof fn lemma_uniform_members_always_merge(input: BindGroupInput)
    requires
        forall|t: int|
            0 <= t < input.members@.len() ==> (#[trigger] input.members@[t]).kind is Uniform,
        input.converted matches Some(c) ==> forall|t: int|
            0 <= t < input.members@.len() ==> (#[trigger] input.members@[t]).index != c.index,
    ensures
        resolve_model(input) is Ok,
{
    let ms = input.members@;
    let st0 = crate::resolve::init_state(input.converted);
    assert(forall|t: int|
        0 <= t < ms.len() ==> ((#[trigger] ms[t]).index as int >= st0.slots.len()
            || st0.slots[ms[t].index as int] is Free || st0.slots[ms[t].index as int]
            is OccupiedMergeableUniform)) by {
        assert forall|t: int|
            0 <= t < ms.len() implies ((#[trigger] ms[t]).index as int >= st0.slots.len()
            || st0.slots[ms[t].index as int] is Free || st0.slots[ms[t].index as int]
            is OccupiedMergeableUniform) by {
            match input.converted {
                Some(c) => {
                    assert(ms[t].index != c.index);
                },
                None => {},
            }
        }
    }
    lemma_scan_uniform_ok(ms, 0, st0);
}

/// LAW: when a resolution succeeds and at least one uniform member is
/// declared at binding `b`, the layout holds an entry at `b` whose minimum
/// buffer size is the total reported size of all uniform members declared at
/// `b`, in declaration order — the size of a record holding all merged
/// members' types.
pub proof fn lemma_merged_min_size(input: BindGroupInput, st: RState, b: u32, t: int)
    requires
        resolve_model(input) == Result::<RState, ErrModel>::Ok(st),
        crate::resolve::total_declared_size(input) <= u64::MAX,
        0 <= t < input.members@.len(),
        input.members@[t].kind is Uniform,
        input.members@[t].index == b,
    ensures
        exists|j: int|
            0 <= j < st.layout.len() && (#[trigger] st.layout[j]).binding == b && st.layout[j].kind
                == (LayoutKind::UniformBuffer {
                min_size: uniform_size_from(input.members@, 0, b) as u64,
            }),
        uniform_size_from(input.members@, 0, b) as u64 as int == uniform_size_from(
            input.members@,
            0,
            b,
        ),
{
    let ms = input.members@;
    let conv = input.converted;
    let st0 = crate::resolve::init_state(conv);
    lemma_init_inv(ms, conv);
    vstd::std_specs::vec::axiom_spec_len(&input.members);
    crate::resolve::lemma_usum_nonneg(ms, 0, b);
    crate::resolve::lemma_usum_le_total(ms, 0, b);
    match scan_members(ms, 0, st0) {
        Ok(stm) => {
            lemma_scan_inv_end(ms, conv, 0, st0, stm);
            assert(stm.slots[b as int] is OccupiedMergeableUniform);
            lemma_merge_props(ms, stm.slots, 0, stm, st);
            let j = choose|j: int|
                stm.layout.len() <= j < st.layout.len() && (#[trigger] st.layout[j]).binding as int
                    == b as int;
            assert(0 <= j < st.layout.len() && st.layout[j].binding == b);
            assert(st.layout[j].kind == (LayoutKind::UniformBuffer {
                min_size: uniform_size_from(ms, 0, b) as u64,
            }));
        },
        Err(_) => {
            assert(false);
        },
    }
}

/// No uniform member at binding `b` from position `i` on: the size sum and
/// the packed bytes of that slot are empty.
proof fn lemma_merged_empty(
    ms: Seq<MemberDecl>,
    vals: Seq<MemberValue>,
    i: int,
    b: u32,
)
    requires
        forall|u: int|
            i <= u < ms.len() ==> !((#[trigger] ms[u]).kind is Uniform && ms[u].index == b),
    ensures
        uniform_size_from(ms, i, b) == 0,
        merged_bytes(ms, vals, i, b) == Seq::<u8>::empty(),
    decreases ms.len() - i,
{
    if 0 <= i < ms.len() {
        lemma_merged_empty(ms, vals, i + 1, b);
        assert(merged_bytes(ms, vals, i, b) =~= Seq::<u8>::empty());
    } else {
        assert(merged_bytes(ms, vals, i, b) =~= Seq::<u8>::empty());
    }
}

/// Exactly one uniform member at binding `b` from position `i` on: the slot's
/// size is that member's size and its packed bytes are that member's bytes.
proof fn lemma_merged_single(
    ms: Seq<MemberDecl>,
    vals: Seq<MemberValue>,
    i: int,
    b: u32,
    t: int,
)
    requires
        0 <= i <= t < ms.len(),
        ms[t].kind is Uniform && ms[t].index == b,
        forall|u: int|
            i <= u < ms.len() && u != t ==> !((#[trigger] ms[u]).kind is Uniform && ms[u].index
                == b),
    ensures
        uniform_size_from(ms, i, b) == ms[t].size,
        merged_bytes(ms, vals, i, b) == (match vals[t] {
            MemberValue::Bytes(bs) => bs@,
            MemberValue::ImageHandle(_) => Seq::<u8>::empty(),
        }),
    decreases t - i,
{
    if i == t {
        lemma_merged_empty(ms, vals, i + 1, b);
        assert(merged_bytes(ms, vals, i, b) =~= (match vals[t] {
            MemberValue::Bytes(bs) => bs@,
            MemberValue::ImageHandle(_) => Seq::<u8>::empty(),
        }));
    } else {
        lemma_merged_single(ms, vals, i + 1, b, t);
        assert(merged_bytes(ms, vals, i, b) =~= merged_bytes(ms, vals, i + 1, b));
    }
}

/// LAW: a slot holding a single uniform member behaves exactly as the merged
/// path reduced to the singleton case: its emitted minimum size is the
/// member's own reported size, and its packed buffer is the member's own
/// packed bytes — no special-case divergence between the direct and the
/// merged emission.
pub proof fn lemma_singleton_uniform(
    input: BindGroupInput,
    vals: Seq<MemberValue>,
    b: u32,
    t: int,
)
    requires
        0 <= t < input.members@.len(),
        input.members@[t].kind is Uniform,
        input.members@[t].index == b,
        forall|u: int|
            0 <= u < input.members@.len() && u != t ==> !((#[trigger] input.members@[u]).kind
                is Uniform && input.members@[u].index == b),
    ensures
        uniform_size_from(input.members@, 0, b) == input.members@[t].size,
        merged_bytes(input.members@, vals, 0, b) == (match vals[t] {
            MemberValue::Bytes(bs) => bs@,
            MemberValue::ImageHandle(_) => Seq::<u8>::empty(),
        }),
{
    lemma_merged_single(input.members@, vals, 0, b, t);
}

} // verus!
