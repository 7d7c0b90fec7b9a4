use bind_group_resolver::attrs::BindingType;
use bind_group_resolver::prepare::{
    prepare, AggregateValues, AsBindGroupError, FallbackImage, LoadedImage, MemberValue,
    OwnedBindingResource,
};
use bind_group_resolver::resolve::{resolve, BindGroupInput, ConvertedUniformDecl, MemberDecl};

fn member(name: &str, kind: BindingType, index: u32, size: u64) -> MemberDecl {
    MemberDecl { name: name.to_string(), kind, index, options: Vec::new(), size }
}

fn fallback() -> FallbackImage {
    FallbackImage { texture_view: 900, sampler: 901 }
}

#[test]
fn loaded_handle_resolves_to_its_texture_view() {
    let inp = BindGroupInput {
        converted: None,
        data_type: None,
        members: vec![member("t", BindingType::Texture, 0, 0)],
    };
    let res = resolve(&inp).unwrap();
    let values = AggregateValues {
        values: vec![MemberValue::ImageHandle(Some(7))],
        converted: None,
    };
    let images = vec![LoadedImage { handle: 7, texture_view: 70, sampler: 71 }];
    let p = prepare(&inp, &res, &values, &images, &fallback(), ()).unwrap();
    assert_eq!(p.bindings, vec![OwnedBindingResource::TextureView(70)]);
    assert_eq!(p.entries.len(), 1);
    assert_eq!(p.entries[0].binding, 0);
    assert_eq!(p.entries[0].resource, 0);
}

#[test]
fn unloaded_handle_returns_retry_signal() {
    let inp = BindGroupInput {
        converted: None,
        data_type: None,
        members: vec![member("t", BindingType::Texture, 0, 0)],
    };
    let res = resolve(&inp).unwrap();
    let values = AggregateValues {
        values: vec![MemberValue::ImageHandle(Some(7))],
        converted: None,
    };
    let images: Vec<LoadedImage> = Vec::new();
    assert_eq!(
        prepare(&inp, &res, &values, &images, &fallback(), ()),
        Err(AsBindGroupError::RetryNextUpdate)
    );
}

#[test]
fn missing_handle_substitutes_fallback() {
    let inp = BindGroupInput {
        converted: None,
        data_type: None,
        members: vec![
            member("t", BindingType::Texture, 0, 0),
            member("s", BindingType::Sampler, 1, 0),
        ],
    };
    let res = resolve(&inp).unwrap();
    let values = AggregateValues {
        values: vec![MemberValue::ImageHandle(None), MemberValue::ImageHandle(None)],
        converted: None,
    };
    let images: Vec<LoadedImage> = Vec::new();
    let p = prepare(&inp, &res, &values, &images, &fallback(), ()).unwrap();
    assert_eq!(
        p.bindings,
        vec![OwnedBindingResource::TextureView(900), OwnedBindingResource::Sampler(901)]
    );
}

#[test]
fn merged_uniform_buffer_concatenates_member_bytes_in_order() {
    let inp = BindGroupInput {
        converted: None,
        data_type: None,
        members: vec![
            member("u1", BindingType::Uniform, 0, 2),
            member("u2", BindingType::Uniform, 0, 3),
        ],
    };
    let res = resolve(&inp).unwrap();
    let values = AggregateValues {
        values: vec![
            MemberValue::Bytes(vec![1, 2]),
            MemberValue::Bytes(vec![3, 4, 5]),
        ],
        converted: None,
    };
    let images: Vec<LoadedImage> = Vec::new();
    let p = prepare(&inp, &res, &values, &images, &fallback(), 42u32).unwrap();
    assert_eq!(p.bindings, vec![OwnedBindingResource::Buffer(vec![1, 2, 3, 4, 5])]);
    assert_eq!(p.data, 42u32);
}

#[test]
fn singleton_uniform_buffer_is_the_member_bytes() {
    // the merged path reduced to one member serializes exactly that member
    let inp = BindGroupInput {
        converted: None,
        data_type: None,
        members: vec![member("u", BindingType::Uniform, 0, 4)],
    };
    let res = resolve(&inp).unwrap();
    let values = AggregateValues {
        values: vec![MemberValue::Bytes(vec![9, 8, 7, 6])],
        converted: None,
    };
    let images: Vec<LoadedImage> = Vec::new();
    let p = prepare(&inp, &res, &values, &images, &fallback(), ()).unwrap();
    assert_eq!(p.bindings, vec![OwnedBindingResource::Buffer(vec![9, 8, 7, 6])]);
}

#[test]
fn converted_uniform_serializes_the_conversion() {
    let inp = BindGroupInput {
        converted: Some(ConvertedUniformDecl {
            index: 0,
            target: "ConvType".to_string(),
            size: 4,
        }),
        data_type: None,
        members: Vec::new(),
    };
    let res = resolve(&inp).unwrap();
    let values = AggregateValues { values: Vec::new(), converted: Some(vec![4, 3, 2, 1]) };
    let images: Vec<LoadedImage> = Vec::new();
    let p = prepare(&inp, &res, &values, &images, &fallback(), ()).unwrap();
    assert_eq!(p.bindings, vec![OwnedBindingResource::Buffer(vec![4, 3, 2, 1])]);
}

#[test]
fn mixed_set_prepares_in_emission_order() {
    let inp = BindGroupInput {
        converted: None,
        data_type: None,
        members: vec![
            member("a", BindingType::Uniform, 0, 1),
            member("b", BindingType::Texture, 1, 0),
            member("c", BindingType::Sampler, 2, 0),
            member("d", BindingType::Uniform, 0, 1),
        ],
    };
    let res = resolve(&inp).unwrap();
    let values = AggregateValues {
        values: vec![
            MemberValue::Bytes(vec![10]),
            MemberValue::ImageHandle(Some(1)),
            MemberValue::ImageHandle(None),
            MemberValue::Bytes(vec![20]),
        ],
        converted: None,
    };
    let images = vec![LoadedImage { handle: 1, texture_view: 11, sampler: 12 }];
    let p = prepare(&inp, &res, &values, &images, &fallback(), ()).unwrap();
    assert_eq!(
        p.bindings,
        vec![
            OwnedBindingResource::TextureView(11),
            OwnedBindingResource::Sampler(901),
            OwnedBindingResource::Buffer(vec![10, 20]),
        ]
    );
    let entry_bindings: Vec<u32> = p.entries.iter().map(|e| e.binding).collect();
    assert_eq!(entry_bindings, vec![1, 2, 0]);
    for (j, e) in p.entries.iter().enumerate() {
        assert_eq!(e.resource, j);
    }
}
