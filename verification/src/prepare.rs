//! Runtime materialization of a resolved declaration set.
//!
//! `prepare` walks the aligned construction list of a resolution and builds
//! one owned resource per entry: uniform slots serialize into byte buffers
//! (merged slots concatenate their members' packed bytes in declaration
//! order), texture and sampler slots resolve an optional image handle against
//! the loaded-image registry — substituting the fallback image when no handle
//! is set — and fail with the single retryable error when a referenced image
//! is not loaded yet.  No other runtime failure exists, and a failed call
//! leaves no partial state behind.

use vstd::pervasive::unreached;
use vstd::prelude::*;

use crate::attrs::BindingType;
use crate::resolve::{BindGroupInput, Construction, ConvertedUniformDecl, MemberDecl, Resolved};

verus! {

/// One loaded image of the registry: its handle and the two resources it
/// offers.
#[derive(Debug, Clone, Copy, PartialEq, Eq, Structural)]
pub struct LoadedImage {
    pub handle: u64,
    pub texture_view: u64,
    pub sampler: u64,
}

/// The always-available substitute used when a member has no handle set.
#[derive(Debug, Clone, Copy, PartialEq, Eq, Structural)]
pub struct FallbackImage {
    pub texture_view: u64,
    pub sampler: u64,
}

/// The runtime value of one member: packed bytes for a uniform member (as
/// produced by the serialization layer), or an optional image handle for a
/// texture or sampler member.
#[derive(Debug, Clone, PartialEq, Eq)]
pub enum MemberValue {
    Bytes(Vec<u8>),
    ImageHandle(Option<u64>),
}

/// The runtime values of one aggregate instance, aligned with the member
/// declaration list, plus the packed bytes of the aggregate's conversion to
/// the converted-uniform target type, when that declaration exists.
#[derive(Debug, Clone, PartialEq, Eq)]
pub struct AggregateValues {
    pub values: Vec<MemberValue>,
    pub converted: Option<Vec<u8>>,
}

/// One owned runtime resource of a prepared bind group.
#[derive(Debug, Clone, PartialEq, Eq)]
pub enum OwnedBindingResource {
    Buffer(Vec<u8>),
    TextureView(u64),
    Sampler(u64),
}

/// Specification-level image of `OwnedBindingResource`.
pub enum ResourceModel {
    Buffer(Seq<u8>),
    TextureView(u64),
    Sampler(u64),
}

impl View for OwnedBindingResource {
    type V = ResourceModel;

    open spec fn view(&self) -> ResourceModel {
        match self {
            OwnedBindingResource::Buffer(v) => ResourceModel::Buffer(v@),
            OwnedBindingResource::TextureView(t) => ResourceModel::TextureView(*t),
            OwnedBindingResource::Sampler(s) => ResourceModel::Sampler(*s),
        }
    }
}

/// One bind-group entry: a binding index and the position of its resource in
/// the aligned resource list.
#[derive(Debug, Clone, Copy, PartialEq, Eq, Structural)]
pub struct BindGroupEntry {
    pub binding: u32,
    pub resource: usize,
}

/// One prepared bind group: the owned resources, the entries that attach them
/// to their binding indices, and the caller's extra payload.
#[derive(Debug, Clone, PartialEq, Eq)]
pub struct PreparedBindGroup<D> {
    pub bindings: Vec<OwnedBindingResource>,
    pub entries: Vec<BindGroupEntry>,
    pub data: D,
}

/// The single retryable runtime error: a referenced image is not loaded yet,
/// and the caller should re-invoke `prepare` later.
#[derive(Debug, Clone, Copy, PartialEq, Eq, Structural)]
pub enum AsBindGroupError {
    RetryNextUpdate,
}

/// First registry entry with the given handle, searched from position `i`.
pub open spec fn find_image_from(images: Seq<LoadedImage>, i: int, h: u64) -> Option<LoadedImage>
    decreases images.len() - i,
{
    if i < 0 || i >= images.len() {
        None
    } else if images[i].handle == h {
        Some(images[i])
    } else {
        find_image_from(images, i + 1, h)
    }
}

/// The optional handle a member's runtime value holds.
pub open spec fn member_handle(vals: Seq<MemberValue>, m: int) -> Option<u64> {
    match vals[m] {
        MemberValue::ImageHandle(h) => h,
        MemberValue::Bytes(_) => None,
    }
}

/// Packed bytes of the merged uniform record at binding `b`: the members'
/// packed bytes concatenated in declaration order, from position `i` on.
pub open spec fn merged_bytes(
    ms: Seq<MemberDecl>,
    vals: Seq<MemberValue>,
    i: int,
    b: u32,
) -> Seq<u8>
    decreases ms.len() - i,
{
    if i < 0 || i >= ms.len() {
        Seq::empty()
    } else {
        (
        if ms[i].kind is Uniform && ms[i].index == b {
            match vals[i] {
                MemberValue::Bytes(bs) => bs@,
                MemberValue::ImageHandle(_) => Seq::empty(),
            }
        } else {
            Seq::empty()
        }
        ) + merged_bytes(ms, vals, i + 1, b)
    }
}

/// Bytes of the aggregate's conversion to the converted-uniform target type.
pub open spec fn conv_bytes(inst: AggregateValues) -> Seq<u8> {
    match inst.converted {
        Some(bs) => bs@,
        None => Seq::empty(),
    }
}

/// Whether one construction hits a referenced but unloaded image.
pub open spec fn needs_retry_con(
    c: Construction,
    vals: Seq<MemberValue>,
    images: Seq<LoadedImage>,
) -> bool {
    match c {
        Construction::TextureView { member } => member_handle(vals, member as int) matches Some(h)
            && find_image_from(images, 0, h) is None,
        Construction::SamplerHandle { member } => member_handle(vals, member as int) matches Some(
            h,
        ) && find_image_from(images, 0, h) is None,
        _ => false,
    }
}

/// Whether any construction of the list hits an unloaded image.
pub open spec fn any_retry(
    cons: Seq<Construction>,
    vals: Seq<MemberValue>,
    images: Seq<LoadedImage>,
) -> bool {
    exists|j: int| 0 <= j < cons.len() && needs_retry_con(#[trigger] cons[j], vals, images)
}

/// The resource one construction materializes, assuming it needs no retry.
pub open spec fn resource_model(
    c: Construction,
    ms: Seq<MemberDecl>,
    inst: AggregateValues,
    images: Seq<LoadedImage>,
    fallback: FallbackImage,
) -> ResourceModel {
    match c {
        Construction::ConvertedUniform => ResourceModel::Buffer(conv_bytes(inst)),
        Construction::TextureView { member } => match member_handle(inst.values@, member as int) {
            Some(h) => match find_image_from(images, 0, h) {
                Some(img) => ResourceModel::TextureView(img.texture_view),
                None => ResourceModel::TextureView(0),
            },
            None => ResourceModel::TextureView(fallback.texture_view),
        },
        Construction::SamplerHandle { member } => match member_handle(inst.values@, member as int) {
            Some(h) => match find_image_from(images, 0, h) {
                Some(img) => ResourceModel::Sampler(img.sampler),
                None => ResourceModel::Sampler(0),
            },
            None => ResourceModel::Sampler(fallback.sampler),
        },
        Construction::MergedUniform { binding } => ResourceModel::Buffer(
            merged_bytes(ms, inst.values@, 0, binding),
        ),
    }
}

/// One construction only references members of its own kind, and a converted
/// construction only exists alongside the aggregate-level declaration.
pub open spec fn cons_member_ok(
    ms: Seq<MemberDecl>,
    conv: Option<ConvertedUniformDecl>,
    c: Construction,
) -> bool {
    match c {
        Construction::TextureView { member } => member < ms.len() && ms[member as int].kind
            is Texture,
        Construction::SamplerHandle { member } => member < ms.len() && ms[member as int].kind
            is Sampler,
        Construction::ConvertedUniform => conv is Some,
        Construction::MergedUniform { .. } => true,
    }
}

/// Well-formedness of a construction list against its declaration set.
pub open spec fn cons_all_ok(
    ms: Seq<MemberDecl>,
    conv: Option<ConvertedUniformDecl>,
    cons: Seq<Construction>,
) -> bool {
    forall|j: int| 0 <= j < cons.len() ==> cons_member_ok(ms, conv, #[trigger] cons[j])
}

/// The runtime values fit the declaration set: one value per member, packed
/// bytes exactly for uniform members (of the reported size), and converted
/// bytes exactly when the aggregate-level declaration exists.
pub open spec fn values_match(input: BindGroupInput, inst: AggregateValues) -> bool {
    &&& inst.values@.len() == input.members@.len()
    &&& forall|k: int|
        0 <= k < input.members@.len() ==> (input.members@[k].kind is Uniform
            <==> (#[trigger] inst.values@[k]) is Bytes)
    &&& forall|k: int|
        0 <= k < input.members@.len() ==> match #[trigger] inst.values@[k] {
            MemberValue::Bytes(bs) => bs@.len() == input.members@[k].size,
            MemberValue::ImageHandle(_) => true,
        }
    &&& (input.converted is Some <==> inst.converted is Some)
    &&& match (input.converted, inst.converted) {
        (Some(c), Some(bs)) => bs@.len() == c.size,
        _ => true,
    }
}

/// A byte-for-byte copy with its contents pinned down.
fn clone_bytes(v: &Vec<u8>) -> (r: Vec<u8>)
    ensures
        r@ == v@,
{
    let mut r: Vec<u8> = Vec::new();
    let mut i: usize = 0;
    while i < v.len()
        invariant
            0 <= i <= v@.len(),
            r@ == v@.take(i as int),
        decreases v@.len() - i,
    {
        r.push(v[i]);
        proof {
            assert(r@ =~= v@.take(i as int + 1));
        }
        i = i + 1;
    }
    proof {
        assert(r@ =~= v@);
    }
    r
}

/// Append a byte vector's contents to another.
fn append_bytes(dst: &mut Vec<u8>, src: &Vec<u8>)
    ensures
        final(dst)@ == old(dst)@ + src@,
{
    let mut i: usize = 0;
    while i < src.len()
        invariant
            0 <= i <= src@.len(),
            dst@ == old(dst)@ + src@.take(i as int),
        decreases src@.len() - i,
    {
        dst.push(src[i]);
        proof {
            assert(dst@ =~= old(dst)@ + src@.take(i as int + 1));
        }
        i = i + 1;
    }
    proof {
        assert(dst@ =~= old(dst)@ + src@);
    }
}

/// Linear search of the loaded-image registry.
fn find_image(images: &Vec<LoadedImage>, h: u64) -> (r: Option<LoadedImage>)
    ensures
        r == find_image_from(images@, 0, h),
{
    let mut i: usize = 0;
    while i < images.len()
        invariant
            0 <= i <= images@.len(),
            find_image_from(images@, 0, h) == find_image_from(images@, i as int, h),
        decreases images@.len() - i,
    {
        if images[i].handle == h {
            return Some(images[i]);
        }
        i = i + 1;
    }
    None
}

/// Build the packed bytes of the merged uniform record at binding `b`.
fn build_merged_bytes(input: &BindGroupInput, instance: &AggregateValues, b: u32) -> (r: Vec<u8>)
    requires
        values_match(*input, *instance),
    ensures
        r@ == merged_bytes(input.members@, instance.values@, 0, b),
{
    let ghost ms = input.members@;
    let ghost vals = instance.values@;
    let mut out: Vec<u8> = Vec::new();
    let mut j: usize = 0;
    while j < input.members.len()
        invariant
            0 <= j <= ms.len(),
            ms == input.members@,
            vals == instance.values@,
            values_match(*input, *instance),
            out@ + merged_bytes(ms, vals, j as int, b) == merged_bytes(ms, vals, 0, b),
        decreases ms.len() - j,
    {
        let m = &input.members[j];
        let ghost out_pre = out@;
        if matches!(m.kind, BindingType::Uniform) && m.index == b {
            match &instance.values[j] {
                MemberValue::Bytes(bs) => {
                    append_bytes(&mut out, bs);
                    proof {
                        assert(out@ + merged_bytes(ms, vals, j as int + 1, b) =~= out_pre + (bs@
                            + merged_bytes(ms, vals, j as int + 1, b)));
                    }
                },
                MemberValue::ImageHandle(_) => {
                    return unreached();
                },
            }
        } else {
            proof {
                assert(Seq::<u8>::empty() + merged_bytes(ms, vals, j as int + 1, b)
                    =~= merged_bytes(ms, vals, j as int + 1, b));
            }
        }
        j = j + 1;
    }
    proof {
        assert(out@ =~= out@ + merged_bytes(ms, vals, ms.len() as int, b));
    }
    out
}

/// Materialize every construction of a resolution into an owned resource and
/// bundle the result with the bind-group entries and the extra payload.
///
/// The call fails — with the only retryable error — exactly when some texture
/// or sampler construction references a handle that the registry has not
/// loaded; a member without a handle uses the fallback image instead.  On
/// success every resource equals its construction's model and the entries
/// attach resource `j` to the binding of layout entry `j`.
pub fn prepare<D>(
    input: &BindGroupInput,
    resolved: &Resolved,
    instance: &AggregateValues,
    images: &Vec<LoadedImage>,
    fallback: &FallbackImage,
    data: D,
) -> (r: Result<PreparedBindGroup<D>, AsBindGroupError>)
    requires
        cons_all_ok(input.members@, input.converted, resolved.constructions@),
        values_match(*input, *instance),
    ensures
        r is Err <==> any_retry(resolved.constructions@, instance.values@, images@),
        r matches Err(e) ==> e == AsBindGroupError::RetryNextUpdate,
        r matches Ok(p) ==> {
            &&& p.data == data
            &&& p.bindings@.len() == resolved.constructions@.len()
            &&& forall|j: int|
                0 <= j < p.bindings@.len() ==> (#[trigger] p.bindings@[j])@ == resource_model(
                    resolved.constructions@[j],
                    input.members@,
                    *instance,
                    images@,
                    *fallback,
                )
            &&& p.entries@.len() == resolved.layout@.len()
            &&& forall|j: int|
                0 <= j < p.entries@.len() ==> #[trigger] p.entries@[j] == (BindGroupEntry {
                    binding: resolved.layout@[j].binding,
                    resource: j as usize,
                })
        },
{
    let ghost cons = resolved.constructions@;
    let mut bindings: Vec<OwnedBindingResource> = Vec::new();
    let mut j: usize = 0;
    while j < resolved.constructions.len()
        invariant
            0 <= j <= cons.len(),
            cons == resolved.constructions@,
            cons_all_ok(input.members@, input.converted, cons),
            values_match(*input, *instance),
            bindings@.len() == j,
            forall|t: int|
                0 <= t < j ==> !needs_retry_con(#[trigger] cons[t], instance.values@, images@),
            forall|t: int|
                0 <= t < j ==> (#[trigger] bindings@[t])@ == resource_model(
                    cons[t],
                    input.members@,
                    *instance,
                    images@,
                    *fallback,
                ),
        decreases cons.len() - j,
    {
        let c = resolved.constructions[j];
        match c {
            Construction::ConvertedUniform => {
                match &instance.converted {
                    Some(bs) => {
                        bindings.push(OwnedBindingResource::Buffer(clone_bytes(bs)));
                    },
                    None => {
                        return unreached();
                    },
                }
            },
            Construction::TextureView { member } => {
                match &instance.values[member] {
                    MemberValue::ImageHandle(h) => {
                        match h {
                            Some(hh) => {
                                match find_image(images, *hh) {
                                    Some(img) => {
                                        bindings.push(
                                            OwnedBindingResource::TextureView(img.texture_view),
                                        );
                                    },
                                    None => {
                                        return Err(AsBindGroupError::RetryNextUpdate);
                                    },
                                }
                            },
                            None => {
                                bindings.push(
                                    OwnedBindingResource::TextureView(fallback.texture_view),
                                );
                            },
                        }
                    },
                    MemberValue::Bytes(_) => {
                        return unreached();
                    },
                }
            },
            Construction::SamplerHandle { member } => {
                match &instance.values[member] {
                    MemberValue::ImageHandle(h) => {
                        match h {
                            Some(hh) => {
                                match find_image(images, *hh) {
                                    Some(img) => {
                                        bindings.push(OwnedBindingResource::Sampler(img.sampler));
                                    },
                                    None => {
                                        return Err(AsBindGroupError::RetryNextUpdate);
                                    },
                                }
                            },
                            None => {
                                bindings.push(OwnedBindingResource::Sampler(fallback.sampler));
                            },
                        }
                    },
                    MemberValue::Bytes(_) => {
                        return unreached();
                    },
                }
            },
            Construction::MergedUniform { binding } => {
                let buf = build_merged_bytes(input, instance, binding);
                bindings.push(OwnedBindingResource::Buffer(buf));
            },
        }
        j = j + 1;
    }

    let mut entries: Vec<BindGroupEntry> = Vec::new();
    let mut e: usize = 0;
    while e < resolved.layout.len()
        invariant
            0 <= e <= resolved.layout@.len(),
            entries@.len() == e,
            forall|t: int|
                0 <= t < e ==> #[trigger] entries@[t] == (BindGroupEntry {
                    binding: resolved.layout@[t].binding,
                    resource: t as usize,
                }),
        decreases resolved.layout@.len() - e,
    {
        entries.push(BindGroupEntry { binding: resolved.layout[e].binding, resource: e });
        e = e + 1;
    }

    Ok(PreparedBindGroup { bindings, entries, data })
}

} // verus!
