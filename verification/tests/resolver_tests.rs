use bind_group_resolver::attrs::{AttrToken, AttrValue, BindingType, SamplerBindingType};
use bind_group_resolver::error::ResolveError;
use bind_group_resolver::resolve::{
    merged_member_indices, resolve, BindGroupInput, BindingState, Construction,
    ConvertedUniformDecl, LayoutKind, MemberDecl,
};

fn member(name: &str, kind: BindingType, index: u32, size: u64) -> MemberDecl {
    MemberDecl { name: name.to_string(), kind, index, options: Vec::new(), size }
}

fn input(members: Vec<MemberDecl>) -> BindGroupInput {
    BindGroupInput { converted: None, data_type: None, members }
}

#[test]
fn example_mixed_set_resolves_in_two_pass_order() {
    // uniform(0) on a, texture(1) on b, sampler(2) on c, uniform(0) on d:
    // three layout entries, non-uniform ones first in encounter order, then
    // the merged uniform slot.
    let tex_opts = vec![AttrToken::NameValue {
        key: "dimension".to_string(),
        value: AttrValue::Str("2d".to_string()),
    }];
    let inp = input(vec![
        member("a", BindingType::Uniform, 0, 4),
        MemberDecl {
            name: "b".to_string(),
            kind: BindingType::Texture,
            index: 1,
            options: tex_opts,
            size: 0,
        },
        member("c", BindingType::Sampler, 2, 0),
        member("d", BindingType::Uniform, 0, 4),
    ]);
    let res = resolve(&inp).unwrap();
    assert_eq!(res.layout.len(), 3);
    assert_eq!(res.constructions.len(), 3);
    let bindings: Vec<u32> = res.layout.iter().map(|e| e.binding).collect();
    assert_eq!(bindings, vec![1, 2, 0]);
    assert!(matches!(res.constructions[0], Construction::TextureView { member: 1 }));
    assert!(matches!(res.constructions[1], Construction::SamplerHandle { member: 2 }));
    assert!(matches!(res.constructions[2], Construction::MergedUniform { binding: 0 }));
    // the merged slot's minimum size is the size of a record holding both
    // members' types in declaration order
    assert_eq!(res.layout[2].kind, LayoutKind::UniformBuffer { min_size: 8 });
    match res.layout[0].kind {
        LayoutKind::Texture { multisampled, .. } => assert!(multisampled),
        _ => panic!("expected a texture layout entry"),
    }
    assert_eq!(
        res.layout[1].kind,
        LayoutKind::Sampler { binding_type: SamplerBindingType::Filtering }
    );
    assert_eq!(merged_member_indices(&inp, 0), vec![0, 3]);
}

#[test]
fn struct_level_uniform_conflict_names_struct_occupant() {
    // uniform(0, ConvType) at aggregate level plus uniform(0) on a member is
    // a fatal conflict blaming the struct-level binding
    let inp = BindGroupInput {
        converted: Some(ConvertedUniformDecl {
            index: 0,
            target: "ConvType".to_string(),
            size: 16,
        }),
        data_type: None,
        members: vec![member("x", BindingType::Uniform, 0, 4)],
    };
    assert_eq!(
        resolve(&inp),
        Err(ResolveError::SlotOccupiedByStructUniform { member: "x".to_string(), binding: 0 })
    );
}

#[test]
fn two_non_uniform_members_conflict_either_order() {
    let inp = input(vec![
        member("b", BindingType::Texture, 1, 0),
        member("c", BindingType::Sampler, 1, 0),
    ]);
    assert_eq!(
        resolve(&inp),
        Err(ResolveError::SlotOccupied {
            member: "c".to_string(),
            binding: 1,
            occupant: "b".to_string(),
            occupant_kind: BindingType::Texture,
        })
    );
    let inp = input(vec![
        member("c", BindingType::Sampler, 1, 0),
        member("b", BindingType::Texture, 1, 0),
    ]);
    assert_eq!(
        resolve(&inp),
        Err(ResolveError::SlotOccupied {
            member: "b".to_string(),
            binding: 1,
            occupant: "c".to_string(),
            occupant_kind: BindingType::Sampler,
        })
    );
}

#[test]
fn uniform_against_non_uniform_conflicts() {
    // non-uniform first: the later uniform member hits an occupied slot
    let inp = input(vec![
        member("t", BindingType::Texture, 2, 0),
        member("u", BindingType::Uniform, 2, 4),
    ]);
    assert_eq!(
        resolve(&inp),
        Err(ResolveError::SlotOccupied {
            member: "u".to_string(),
            binding: 2,
            occupant: "t".to_string(),
            occupant_kind: BindingType::Texture,
        })
    );
    // uniform first: the later non-uniform member hits the merged slot
    let inp = input(vec![
        member("u", BindingType::Uniform, 2, 4),
        member("t", BindingType::Texture, 2, 0),
    ]);
    assert_eq!(
        resolve(&inp),
        Err(ResolveError::SlotOccupiedByMergedUniform { member: "t".to_string(), binding: 2 })
    );
}

#[test]
fn uniforms_merge_with_summed_min_size() {
    let inp = input(vec![
        member("u1", BindingType::Uniform, 3, 4),
        member("u2", BindingType::Uniform, 3, 8),
    ]);
    let res = resolve(&inp).unwrap();
    assert_eq!(res.layout.len(), 1);
    assert_eq!(res.layout[0].binding, 3);
    assert_eq!(res.layout[0].kind, LayoutKind::UniformBuffer { min_size: 12 });
    assert!(matches!(res.constructions[0], Construction::MergedUniform { binding: 3 }));
    // the table is sparse up to the referenced index
    assert_eq!(res.slots.len(), 4);
    assert!(matches!(res.slots[0], BindingState::Free));
    assert!(matches!(res.slots[3], BindingState::OccupiedMergeableUniform));
    assert_eq!(merged_member_indices(&inp, 3), vec![0, 1]);
}

#[test]
fn single_uniform_matches_merged_singleton() {
    // one member alone emits the same minimum size the merged path gives a
    // singleton: the member's own reported size
    let single = input(vec![member("u", BindingType::Uniform, 0, 4)]);
    let res = resolve(&single).unwrap();
    assert_eq!(res.layout.len(), 1);
    assert_eq!(res.layout[0].kind, LayoutKind::UniformBuffer { min_size: 4 });
    assert_eq!(merged_member_indices(&single, 0), vec![0]);
}

#[test]
fn converted_uniform_alone_emits_first() {
    let inp = BindGroupInput {
        converted: Some(ConvertedUniformDecl {
            index: 5,
            target: "ConvType".to_string(),
            size: 32,
        }),
        data_type: Some("ExtraData".to_string()),
        members: vec![member("t", BindingType::Texture, 0, 0)],
    };
    let res = resolve(&inp).unwrap();
    assert_eq!(res.layout.len(), 2);
    assert_eq!(res.layout[0].binding, 5);
    assert_eq!(res.layout[0].kind, LayoutKind::UniformBuffer { min_size: 32 });
    assert!(matches!(res.constructions[0], Construction::ConvertedUniform));
    assert_eq!(res.layout[1].binding, 0);
    assert_eq!(res.data_type, Some("ExtraData".to_string()));
}

#[test]
fn bad_member_options_abort_resolution() {
    let inp = input(vec![MemberDecl {
        name: "t".to_string(),
        kind: BindingType::Texture,
        index: 0,
        options: vec![AttrToken::NameValue {
            key: "dimension".to_string(),
            value: AttrValue::Str("bogus".to_string()),
        }],
        size: 0,
    }]);
    assert_eq!(
        resolve(&inp),
        Err(ResolveError::InvalidDimension { value: "bogus".to_string() })
    );
}

#[test]
fn layout_indices_are_distinct_and_exactly_declared() {
    let inp = input(vec![
        member("a", BindingType::Uniform, 7, 4),
        member("b", BindingType::Texture, 2, 0),
        member("c", BindingType::Uniform, 7, 4),
        member("d", BindingType::Sampler, 4, 0),
    ]);
    let res = resolve(&inp).unwrap();
    let mut bindings: Vec<u32> = res.layout.iter().map(|e| e.binding).collect();
    assert_eq!(bindings, vec![2, 4, 7]);
    bindings.sort();
    bindings.dedup();
    assert_eq!(bindings, vec![2, 4, 7]);
}
