use bind_group_resolver::attrs::{
    get_sampler_attrs, get_sampler_binding_type_value, get_texture_attrs,
    get_texture_dimension_value, get_texture_sample_type_value, AttrToken, AttrValue,
    BindingTextureDimension, BindingTextureSampleType, SamplerAttrs, SamplerBindingType,
    TextureAttrs,
};
use bind_group_resolver::error::ResolveError;

fn nv_str(key: &str, value: &str) -> AttrToken {
    AttrToken::NameValue { key: key.to_string(), value: AttrValue::Str(value.to_string()) }
}

fn nv_bool(key: &str, value: bool) -> AttrToken {
    AttrToken::NameValue { key: key.to_string(), value: AttrValue::Bool(value) }
}

#[test]
fn dimension_vocabulary() {
    let cases = [
        ("1d", BindingTextureDimension::D1),
        ("2d", BindingTextureDimension::D2),
        ("2d_array", BindingTextureDimension::D2Array),
        ("3d", BindingTextureDimension::D3),
        ("cube", BindingTextureDimension::Cube),
        ("cube_array", BindingTextureDimension::CubeArray),
    ];
    for (text, expected) in cases {
        assert_eq!(get_texture_dimension_value(&text.to_string()), Ok(expected));
    }
}

#[test]
fn dimension_bogus_rejected() {
    assert_eq!(
        get_texture_dimension_value(&"bogus".to_string()),
        Err(ResolveError::InvalidDimension { value: "bogus".to_string() })
    );
}

#[test]
fn sample_type_vocabulary() {
    assert_eq!(
        get_texture_sample_type_value(&"float".to_string()),
        Ok(BindingTextureSampleType::Float { filterable: true })
    );
    assert_eq!(
        get_texture_sample_type_value(&"depth".to_string()),
        Ok(BindingTextureSampleType::Depth)
    );
    assert_eq!(
        get_texture_sample_type_value(&"s_int".to_string()),
        Ok(BindingTextureSampleType::Sint)
    );
    assert_eq!(
        get_texture_sample_type_value(&"u_int".to_string()),
        Ok(BindingTextureSampleType::Uint)
    );
}

#[test]
fn sample_type_bogus_rejected() {
    assert_eq!(
        get_texture_sample_type_value(&"bogus".to_string()),
        Err(ResolveError::InvalidSampleType { value: "bogus".to_string() })
    );
}

#[test]
fn sampler_type_vocabulary() {
    assert_eq!(
        get_sampler_binding_type_value(&"filtering".to_string()),
        Ok(SamplerBindingType::Filtering)
    );
    assert_eq!(
        get_sampler_binding_type_value(&"non_filtering".to_string()),
        Ok(SamplerBindingType::NonFiltering)
    );
    assert_eq!(
        get_sampler_binding_type_value(&"comparison".to_string()),
        Ok(SamplerBindingType::Comparison)
    );
    assert_eq!(
        get_sampler_binding_type_value(&"bogus".to_string()),
        Err(ResolveError::InvalidSamplerType { value: "bogus".to_string() })
    );
}

#[test]
fn texture_defaults() {
    let got = get_texture_attrs(&Vec::new()).unwrap();
    assert_eq!(got, TextureAttrs::default());
    assert_eq!(got.dimension, BindingTextureDimension::D2);
    assert_eq!(got.sample_type, BindingTextureSampleType::Float { filterable: true });
    assert!(got.multisampled);
}

#[test]
fn texture_all_options() {
    let toks = vec![
        nv_str("dimension", "cube"),
        nv_str("sample_type", "u_int"),
        nv_bool("multisampled", false),
    ];
    let got = get_texture_attrs(&toks).unwrap();
    assert_eq!(got.dimension, BindingTextureDimension::Cube);
    assert_eq!(got.sample_type, BindingTextureSampleType::Uint);
    assert!(!got.multisampled);
}

#[test]
fn filterable_with_depth_rejected() {
    let toks = vec![nv_str("sample_type", "depth"), nv_bool("filterable", true)];
    assert_eq!(get_texture_attrs(&toks), Err(ResolveError::FilterableRequiresFloat));
    // order does not matter: the flag is applied as a post-pass
    let toks = vec![nv_bool("filterable", true), nv_str("sample_type", "depth")];
    assert_eq!(get_texture_attrs(&toks), Err(ResolveError::FilterableRequiresFloat));
}

#[test]
fn filterable_with_float_accepted() {
    let toks = vec![nv_str("sample_type", "float"), nv_bool("filterable", false)];
    let got = get_texture_attrs(&toks).unwrap();
    assert_eq!(got.sample_type, BindingTextureSampleType::Float { filterable: false });
}

#[test]
fn filterable_with_omitted_sample_type_accepted() {
    let toks = vec![nv_bool("filterable", false)];
    let got = get_texture_attrs(&toks).unwrap();
    assert_eq!(got.sample_type, BindingTextureSampleType::Float { filterable: false });
}

#[test]
fn texture_unknown_key_rejected() {
    let toks = vec![nv_str("mip_level", "3")];
    assert_eq!(
        get_texture_attrs(&toks),
        Err(ResolveError::UnknownTextureKey { key: "mip_level".to_string() })
    );
}

#[test]
fn texture_wrong_value_shapes_rejected() {
    assert_eq!(
        get_texture_attrs(&vec![nv_bool("dimension", true)]),
        Err(ResolveError::ExpectedStringValue { key: "dimension".to_string() })
    );
    assert_eq!(
        get_texture_attrs(&vec![nv_str("multisampled", "yes")]),
        Err(ResolveError::ExpectedBoolValue { key: "multisampled".to_string() })
    );
    assert_eq!(get_texture_attrs(&vec![AttrToken::Other]), Err(ResolveError::NotNameValue));
}

#[test]
fn sampler_defaults_and_options() {
    assert_eq!(get_sampler_attrs(&Vec::new()).unwrap(), SamplerAttrs::default());
    let got = get_sampler_attrs(&vec![nv_str("sampler_type", "comparison")]).unwrap();
    assert_eq!(got.sampler_binding_type, SamplerBindingType::Comparison);
}

#[test]
fn sampler_unknown_key_rejected() {
    assert_eq!(
        get_sampler_attrs(&vec![nv_str("dimension", "2d")]),
        Err(ResolveError::UnknownSamplerKey { key: "dimension".to_string() })
    );
    assert_eq!(get_sampler_attrs(&vec![AttrToken::Other]), Err(ResolveError::NotNameValue));
}
