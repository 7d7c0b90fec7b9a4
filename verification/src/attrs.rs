//! Binding kinds and the kind-specific option parsers.
//!
//! Texture and sampler declarations carry name/value options with fixed
//! string vocabularies and defaults.  The parsers here take the structured
//! tokens of such a declaration and either produce the resolved option record
//! or reject the declaration with a fault naming the offending key or value.

use vstd::prelude::*;

use crate::error::{res_matches, ErrModel, ResolveError};

verus! {

/// The kind of a member-level binding declaration.
#[derive(Debug, Clone, Copy, PartialEq, Eq, Structural)]
pub enum BindingType {
    Uniform,
    Texture,
    Sampler,
}

/// View dimension vocabulary of a texture declaration.
#[derive(Debug, Clone, Copy, PartialEq, Eq, Structural)]
pub enum BindingTextureDimension {
    D1,
    D2,
    D2Array,
    Cube,
    CubeArray,
    D3,
}

/// Sample-type vocabulary of a texture declaration.  Only the `float` sample
/// type carries a filterability flag.
#[derive(Debug, Clone, Copy, PartialEq, Eq, Structural)]
pub enum BindingTextureSampleType {
    Float { filterable: bool },
    Depth,
    Sint,
    Uint,
}

/// Resolved options of a texture declaration.
#[derive(Debug, Clone, Copy, PartialEq, Eq, Structural)]
pub struct TextureAttrs {
    pub dimension: BindingTextureDimension,
    pub sample_type: BindingTextureSampleType,
    pub multisampled: bool,
}

/// Sampler binding vocabulary of a sampler declaration.
#[derive(Debug, Clone, Copy, PartialEq, Eq, Structural)]
pub enum SamplerBindingType {
    Filtering,
    NonFiltering,
    Comparison,
}

/// Resolved options of a sampler declaration.
#[derive(Debug, Clone, Copy, PartialEq, Eq, Structural)]
pub struct SamplerAttrs {
    pub sampler_binding_type: SamplerBindingType,
}

impl Default for BindingTextureDimension {
    /// The documented default dimension is `2d`.
    fn default() -> (d: Self)
        ensures
            d == BindingTextureDimension::D2,
    {
        BindingTextureDimension::D2
    }
}

impl Default for BindingTextureSampleType {
    /// The documented default sample type is filterable `float`.
    fn default() -> (s: Self)
        ensures
            s == (BindingTextureSampleType::Float { filterable: true }),
    {
        BindingTextureSampleType::Float { filterable: true }
    }
}

impl Default for TextureAttrs {
    /// All texture options default: `2d`, filterable `float`, multisampled.
    fn default() -> (t: Self)
        ensures
            t == default_texture_attrs(),
    {
        TextureAttrs {
            dimension: BindingTextureDimension::D2,
            sample_type: BindingTextureSampleType::Float { filterable: true },
            multisampled: true,
        }
    }
}

impl Default for SamplerBindingType {
    /// The documented default sampler binding type is `filtering`.
    fn default() -> (s: Self)
        ensures
            s == SamplerBindingType::Filtering,
    {
        SamplerBindingType::Filtering
    }
}

impl Default for SamplerAttrs {
    fn default() -> (s: Self)
        ensures
            s == (SamplerAttrs { sampler_binding_type: SamplerBindingType::Filtering }),
    {
        SamplerAttrs { sampler_binding_type: SamplerBindingType::Filtering }
    }
}

/// The value of a structured name/value option token.
#[derive(Debug, Clone, PartialEq, Eq)]
pub enum AttrValue {
    Str(String),
    Bool(bool),
}

/// One structured option token of a member-level declaration, as handed over
/// by the attribute scanner.  Anything that is not a name/value pair is kept
/// as `Other` so the parsers can reject it.
#[derive(Debug, Clone, PartialEq, Eq)]
pub enum AttrToken {
    NameValue { key: String, value: AttrValue },
    Other,
}

/// String comparison against a literal, with the comparison's meaning stated
/// over the views.
pub fn str_is(s: &String, lit: &str) -> (r: bool)
    ensures
        r == (s@ == lit@),
{
    let owned: String = lit.to_owned();
    *s == owned
}

/// What `dimension` string values denote.
pub open spec fn dimension_of(s: Seq<char>) -> Result<BindingTextureDimension, ErrModel> {
    if s == "1d"@ {
        Ok(BindingTextureDimension::D1)
    } else if s == "2d"@ {
        Ok(BindingTextureDimension::D2)
    } else if s == "2d_array"@ {
        Ok(BindingTextureDimension::D2Array)
    } else if s == "3d"@ {
        Ok(BindingTextureDimension::D3)
    } else if s == "cube"@ {
        Ok(BindingTextureDimension::Cube)
    } else if s == "cube_array"@ {
        Ok(BindingTextureDimension::CubeArray)
    } else {
        Err(ErrModel::InvalidDimension { value: s })
    }
}

/// Match a `dimension` value against its vocabulary.
pub fn get_texture_dimension_value(value: &String) -> (r: Result<
    BindingTextureDimension,
    ResolveError,
>)
    ensures
        res_matches(r, dimension_of(value@)),
{
    if str_is(value, "1d") {
        Ok(BindingTextureDimension::D1)
    } else if str_is(value, "2d") {
        Ok(BindingTextureDimension::D2)
    } else if str_is(value, "2d_array") {
        Ok(BindingTextureDimension::D2Array)
    } else if str_is(value, "3d") {
        Ok(BindingTextureDimension::D3)
    } else if str_is(value, "cube") {
        Ok(BindingTextureDimension::Cube)
    } else if str_is(value, "cube_array") {
        Ok(BindingTextureDimension::CubeArray)
    } else {
        Err(ResolveError::InvalidDimension { value: value.clone() })
    }
}

/// What `sample_type` string values denote.  A plain `float` is filterable.
pub open spec fn sample_type_of(s: Seq<char>) -> Result<BindingTextureSampleType, ErrModel> {
    if s == "float"@ {
        Ok(BindingTextureSampleType::Float { filterable: true })
    } else if s == "depth"@ {
        Ok(BindingTextureSampleType::Depth)
    } else if s == "s_int"@ {
        Ok(BindingTextureSampleType::Sint)
    } else if s == "u_int"@ {
        Ok(BindingTextureSampleType::Uint)
    } else {
        Err(ErrModel::InvalidSampleType { value: s })
    }
}

/// Match a `sample_type` value against its vocabulary.
pub fn get_texture_sample_type_value(value: &String) -> (r: Result<
    BindingTextureSampleType,
    ResolveError,
>)
    ensures
        res_matches(r, sample_type_of(value@)),
{
    if str_is(value, "float") {
        Ok(BindingTextureSampleType::Float { filterable: true })
    } else if str_is(value, "depth") {
        Ok(BindingTextureSampleType::Depth)
    } else if str_is(value, "s_int") {
        Ok(BindingTextureSampleType::Sint)
    } else if str_is(value, "u_int") {
        Ok(BindingTextureSampleType::Uint)
    } else {
        Err(ResolveError::InvalidSampleType { value: value.clone() })
    }
}

/// What `sampler_type` string values denote.
pub open spec fn sampler_type_of(s: Seq<char>) -> Result<SamplerBindingType, ErrModel> {
    if s == "filtering"@ {
        Ok(SamplerBindingType::Filtering)
    } else if s == "non_filtering"@ {
        Ok(SamplerBindingType::NonFiltering)
    } else if s == "comparison"@ {
        Ok(SamplerBindingType::Comparison)
    } else {
        Err(ErrModel::InvalidSamplerType { value: s })
    }
}

/// Match a `sampler_type` value against its vocabulary.
pub fn get_sampler_binding_type_value(value: &String) -> (r: Result<
    SamplerBindingType,
    ResolveError,
>)
    ensures
        res_matches(r, sampler_type_of(value@)),
{
    if str_is(value, "filtering") {
        Ok(SamplerBindingType::Filtering)
    } else if str_is(value, "non_filtering") {
        Ok(SamplerBindingType::NonFiltering)
    } else if str_is(value, "comparison") {
        Ok(SamplerBindingType::Comparison)
    } else {
        Err(ResolveError::InvalidSamplerType { value: value.clone() })
    }
}

/// Accumulator of the texture option fold: resolved options so far, plus a
/// pending `filterable` flag applied as a post-pass.
#[derive(Debug, Clone, Copy, PartialEq, Eq, Structural)]
pub struct TexFold {
    pub dimension: BindingTextureDimension,
    pub sample_type: BindingTextureSampleType,
    pub multisampled: bool,
    pub filterable: Option<bool>,
}

/// Default starting point of the texture option fold.
pub open spec fn tex_fold_init() -> TexFold {
    TexFold {
        dimension: BindingTextureDimension::D2,
        sample_type: BindingTextureSampleType::Float { filterable: true },
        multisampled: true,
        filterable: None,
    }
}

/// Default texture options, applied when a declaration gives none.
pub open spec fn default_texture_attrs() -> TextureAttrs {
    TextureAttrs {
        dimension: BindingTextureDimension::D2,
        sample_type: BindingTextureSampleType::Float { filterable: true },
        multisampled: true,
    }
}

/// One step of the texture option fold: dispatch a token on its key.
pub open spec fn tex_step(st: TexFold, tok: AttrToken) -> Result<TexFold, ErrModel> {
    match tok {
        AttrToken::NameValue { key, value } => {
            if key@ == "dimension"@ {
                match value {
                    AttrValue::Str(s) => match dimension_of(s@) {
                        Ok(d) => Ok(TexFold { dimension: d, ..st }),
                        Err(e) => Err(e),
                    },
                    AttrValue::Bool(_) => Err(ErrModel::ExpectedStringValue { key: key@ }),
                }
            } else if key@ == "sample_type"@ {
                match value {
                    AttrValue::Str(s) => match sample_type_of(s@) {
                        Ok(t) => Ok(TexFold { sample_type: t, ..st }),
                        Err(e) => Err(e),
                    },
                    AttrValue::Bool(_) => Err(ErrModel::ExpectedStringValue { key: key@ }),
                }
            } else if key@ == "multisampled"@ {
                match value {
                    AttrValue::Bool(b) => Ok(TexFold { multisampled: b, ..st }),
                    AttrValue::Str(_) => Err(ErrModel::ExpectedBoolValue { key: key@ }),
                }
            } else if key@ == "filterable"@ {
                match value {
                    AttrValue::Bool(b) => Ok(TexFold { filterable: Some(b), ..st }),
                    AttrValue::Str(_) => Err(ErrModel::ExpectedBoolValue { key: key@ }),
                }
            } else {
                Err(ErrModel::UnknownTextureKey { key: key@ })
            }
        },
        AttrToken::Other => Err(ErrModel::NotNameValue),
    }
}

/// The texture option fold from position `i` on.
pub open spec fn tex_scan(toks: Seq<AttrToken>, i: int, st: TexFold) -> Result<TexFold, ErrModel>
    decreases toks.len() - i,
{
    if i < 0 || i >= toks.len() {
        Ok(st)
    } else {
        match tex_step(st, toks[i]) {
            Ok(st2) => tex_scan(toks, i + 1, st2),
            Err(e) => Err(e),
        }
    }
}

/// Post-pass of the texture option fold: a pending `filterable` flag is only
/// legal on (and overwrites the flag of) the `float` sample type.
pub open spec fn tex_finish(st: TexFold) -> Result<TextureAttrs, ErrModel> {
    match st.filterable {
        Some(f) => match st.sample_type {
            BindingTextureSampleType::Float { filterable: _ } => Ok(
                TextureAttrs {
                    dimension: st.dimension,
                    sample_type: BindingTextureSampleType::Float { filterable: f },
                    multisampled: st.multisampled,
                },
            ),
            _ => Err(ErrModel::FilterableRequiresFloat),
        },
        None => Ok(
            TextureAttrs {
                dimension: st.dimension,
                sample_type: st.sample_type,
                multisampled: st.multisampled,
            },
        ),
    }
}

/// What a texture declaration's option tokens resolve to.
pub open spec fn texture_attrs_of(toks: Seq<AttrToken>) -> Result<TextureAttrs, ErrModel> {
    match tex_scan(toks, 0, tex_fold_init()) {
        Ok(st) => tex_finish(st),
        Err(e) => Err(e),
    }
}

/// Parse the option tokens of a texture declaration: fixed key vocabulary,
/// string vocabularies for `dimension` and `sample_type`, defaults for every
/// unspecified option, and the `filterable` post-pass.
pub fn get_texture_attrs(metas: &Vec<AttrToken>) -> (r: Result<TextureAttrs, ResolveError>)
    ensures
        res_matches(r, texture_attrs_of(metas@)),
{
    let mut st = TexFold {
        dimension: BindingTextureDimension::D2,
        sample_type: BindingTextureSampleType::Float { filterable: true },
        multisampled: true,
        filterable: None,
    };
    let mut i: usize = 0;
    while i < metas.len()
        invariant
            0 <= i <= metas@.len(),
            tex_scan(metas@, 0, tex_fold_init()) == tex_scan(metas@, i as int, st),
        decreases metas@.len() - i,
    {
        match &metas[i] {
            AttrToken::NameValue { key, value } => {
                if str_is(key, "dimension") {
                    match value {
                        AttrValue::Str(s) => match get_texture_dimension_value(s) {
                            Ok(d) => {
                                st = TexFold { dimension: d, ..st };
                            },
                            Err(e) => {
                                return Err(e);
                            },
                        },
                        AttrValue::Bool(_) => {
                            return Err(ResolveError::ExpectedStringValue { key: key.clone() });
                        },
                    }
                } else if str_is(key, "sample_type") {
                    match value {
                        AttrValue::Str(s) => match get_texture_sample_type_value(s) {
                            Ok(t) => {
                                st = TexFold { sample_type: t, ..st };
                            },
                            Err(e) => {
                                return Err(e);
                            },
                        },
                        AttrValue::Bool(_) => {
                            return Err(ResolveError::ExpectedStringValue { key: key.clone() });
                        },
                    }
                } else if str_is(key, "multisampled") {
                    match value {
                        AttrValue::Bool(b) => {
                            st = TexFold { multisampled: *b, ..st };
                        },
                        AttrValue::Str(_) => {
                            return Err(ResolveError::ExpectedBoolValue { key: key.clone() });
                        },
                    }
                } else if str_is(key, "filterable") {
                    match value {
                        AttrValue::Bool(b) => {
                            st = TexFold { filterable: Some(*b), ..st };
                        },
                        AttrValue::Str(_) => {
                            return Err(ResolveError::ExpectedBoolValue { key: key.clone() });
                        },
                    }
                } else {
                    return Err(ResolveError::UnknownTextureKey { key: key.clone() });
                }
            },
            AttrToken::Other => {
                return Err(ResolveError::NotNameValue);
            },
        }
        i = i + 1;
    }
    match st.filterable {
        Some(f) => match st.sample_type {
            BindingTextureSampleType::Float { filterable: _ } => Ok(
                TextureAttrs {
                    dimension: st.dimension,
                    sample_type: BindingTextureSampleType::Float { filterable: f },
                    multisampled: st.multisampled,
                },
            ),
            _ => Err(ResolveError::FilterableRequiresFloat),
        },
        None => Ok(
            TextureAttrs {
                dimension: st.dimension,
                sample_type: st.sample_type,
                multisampled: st.multisampled,
            },
        ),
    }
}

/// One step of the sampler option fold: only `sampler_type` is accepted.
pub open spec fn samp_step(st: SamplerAttrs, tok: AttrToken) -> Result<SamplerAttrs, ErrModel> {
    match tok {
        AttrToken::NameValue { key, value } => {
            if key@ == "sampler_type"@ {
                match value {
                    AttrValue::Str(s) => match sampler_type_of(s@) {
                        Ok(t) => Ok(SamplerAttrs { sampler_binding_type: t }),
                        Err(e) => Err(e),
                    },
                    AttrValue::Bool(_) => Err(ErrModel::ExpectedStringValue { key: key@ }),
                }
            } else {
                Err(ErrModel::UnknownSamplerKey { key: key@ })
            }
        },
        AttrToken::Other => Err(ErrModel::NotNameValue),
    }
}

/// The sampler option fold from position `i` on.
pub open spec fn samp_scan(toks: Seq<AttrToken>, i: int, st: SamplerAttrs) -> Result<
    SamplerAttrs,
    ErrModel,
>
    decreases toks.len() - i,
{
    if i < 0 || i >= toks.len() {
        Ok(st)
    } else {
        match samp_step(st, toks[i]) {
            Ok(st2) => samp_scan(toks, i + 1, st2),
            Err(e) => Err(e),
        }
    }
}

/// What a sampler declaration's option tokens resolve to.
pub open spec fn sampler_attrs_of(toks: Seq<AttrToken>) -> Result<SamplerAttrs, ErrModel> {
    samp_scan(toks, 0, SamplerAttrs { sampler_binding_type: SamplerBindingType::Filtering })
}

/// Parse the option tokens of a sampler declaration.
pub fn get_sampler_attrs(metas: &Vec<AttrToken>) -> (r: Result<SamplerAttrs, ResolveError>)
    ensures
        res_matches(r, sampler_attrs_of(metas@)),
{
    let mut st = SamplerAttrs { sampler_binding_type: SamplerBindingType::Filtering };
    let mut i: usize = 0;
    while i < metas.len()
        invariant
            0 <= i <= metas@.len(),
            sampler_attrs_of(metas@) == samp_scan(metas@, i as int, st),
        decreases metas@.len() - i,
    {
        match &metas[i] {
            AttrToken::NameValue { key, value } => {
                if str_is(key, "sampler_type") {
                    match value {
                        AttrValue::Str(s) => match get_sampler_binding_type_value(s) {
                            Ok(t) => {
                                st = SamplerAttrs { sampler_binding_type: t };
                            },
                            Err(e) => {
                                return Err(e);
                            },
                        },
                        AttrValue::Bool(_) => {
                            return Err(ResolveError::ExpectedStringValue { key: key.clone() });
                        },
                    }
                } else {
                    return Err(ResolveError::UnknownSamplerKey { key: key.clone() });
                }
            },
            AttrToken::Other => {
                return Err(ResolveError::NotNameValue);
            },
        }
        i = i + 1;
    }
    Ok(st)
}

} // verus!
