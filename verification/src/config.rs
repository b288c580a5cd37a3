//! Which framebuffer configuration is asked for, and which one is chosen.

use vstd::prelude::*;
use glutin::config::{ConfigSurfaceTypes, ConfigTemplate, ConfigTemplateBuilder};
use crate::error::InstanceError;
use crate::srgb::SrgbFrameBufferKind;

verus! {

/// The bit of the surface types that stands for windows.
pub const WINDOW_SURFACES: u8 = 0b0000_0001;

/// The size of the alpha channel that is asked for where nothing else is said.
pub const DEFAULT_ALPHA_SIZE: u8 = 8;

/// What is asked of a configuration.
#[derive(Clone, Copy, Debug, PartialEq, Eq, Structural)]
pub struct ConfigRequest {
    /// The types of surfaces that it has to support, one bit each.
    pub surface_types: u8,
    /// The bits of its alpha channel, where that matters.
    pub alpha_size: Option<u8>,
}

/// What counts in the choice between configurations.
#[derive(Clone, Copy, Debug, PartialEq, Eq, Structural)]
pub struct ConfigInfo {
    /// Whether it supports transparent surfaces, where that is known.
    pub supports_transparency: Option<bool>,
    /// The number of its samples.
    pub num_samples: u8,
}

/// `glutin::config::ConfigTemplate`, which is only carried from where it is built to where it is
/// used.
#[verifier::external_type_specification]
#[verifier::external_body]
pub struct ExConfigTemplate(ConfigTemplate);

/// The template that glutin's `ConfigTemplateBuilder` builds for surfaces of these types with an
/// alpha channel of this size, all else being left as it is by default.
pub uninterp spec fn glutin_config_template(surface_types: u8, alpha_size: u8) -> ConfigTemplate;

/// Builds a template with glutin's `ConfigTemplateBuilder`: `new`, `with_surface_type`,
/// `with_alpha_size`, `build`. Claims that the template depends on the two arguments alone.
#[verifier::external_body]
fn template_with_alpha(surface_types: u8, alpha_size: u8) -> (r: ConfigTemplate)
    ensures
        r == glutin_config_template(surface_types, alpha_size),
{
    ConfigTemplateBuilder::new()
        .with_surface_type(ConfigSurfaceTypes::from_bits_retain(surface_types))
        .with_alpha_size(alpha_size)
        .build()
}

/// Builds a template with glutin's `ConfigTemplateBuilder`: `new`, `with_surface_type`, `build`.
/// Claims that the template is the one with an alpha channel of eight bits, which
/// `with_alpha_size` documents as the default.
#[verifier::external_body]
fn template_without_alpha(surface_types: u8) -> (r: ConfigTemplate)
    ensures
        r == glutin_config_template(surface_types, DEFAULT_ALPHA_SIZE),
{
    ConfigTemplateBuilder::new()
        .with_surface_type(ConfigSurfaceTypes::from_bits_retain(surface_types))
        .build()
}

impl ConfigRequest {
    /// What is asked for where sRGB is supported in this way.
    pub open spec fn spec_for_srgb(srgb_kind: SrgbFrameBufferKind) -> ConfigRequest {
        ConfigRequest {
            surface_types: WINDOW_SURFACES,
            alpha_size: if srgb_kind == SrgbFrameBufferKind::Unsupported {
                None
            } else {
                Some(8u8)
            },
        }
    }

    /// What is asked for: window surfaces, and for sRGB an alpha channel of eight bits.
    pub fn for_srgb(srgb_kind: SrgbFrameBufferKind) -> (r: ConfigRequest)
        ensures
            r == Self::spec_for_srgb(srgb_kind),
    {
        let alpha_size: Option<u8> = if srgb_kind != SrgbFrameBufferKind::Unsupported {
            Some(8)
        } else {
            None
        };
        ConfigRequest { surface_types: WINDOW_SURFACES, alpha_size }
    }

    /// The template that finds the configurations that are asked for.
    pub fn template(&self) -> (r: ConfigTemplate)
        ensures
            r == glutin_config_template(
                self.surface_types,
                match self.alpha_size {
                    Some(alpha_size) => alpha_size,
                    None => DEFAULT_ALPHA_SIZE,
                },
            ),
    {
        match self.alpha_size {
            Some(alpha_size) => template_with_alpha(self.surface_types, alpha_size),
            None => template_without_alpha(self.surface_types),
        }
    }
}

impl ConfigInfo {
    /// Whether it is known to support transparent surfaces.
    pub open spec fn is_transparent(self) -> bool {
        self.supports_transparency == Some(true)
    }

    /// Whether `config` takes the place of this one: it alone is transparent, or it has more
    /// samples.
    pub open spec fn yields_to(self, config: ConfigInfo) -> bool {
        (config.is_transparent() && !self.is_transparent()) || config.num_samples
            > self.num_samples
    }

    /// Whether `config` takes the place of this one.
    fn replaced_by(&self, config: &ConfigInfo) -> (r: bool)
        ensures
            r == self.yields_to(*config),
    {
        let transparency_check = config.supports_transparency.unwrap_or(false)
            && !self.supports_transparency.unwrap_or(false);
        transparency_check || config.num_samples > self.num_samples
    }
}

/// The one that is left when the configurations are gone through in order and each one takes the
/// place of the one before it if that one yields.
pub open spec fn chosen(configs: Seq<ConfigInfo>) -> int
    decreases configs.len(),
{
    if configs.len() <= 1 {
        0
    } else {
        let before = chosen(configs.drop_last());
        if configs[before].yields_to(configs.last()) {
            configs.len() - 1
        } else {
            before
        }
    }
}

/// Chooses among the configurations that were found. The second part of the result says that
/// the chosen one supports windows.
pub fn choose_config(configs: &Vec<ConfigInfo>) -> (r: Result<(usize, bool), InstanceError>)
    ensures
        configs@.len() == 0 ==> r is Err && r->Err_0.message@
            == "No EGL config found for window surface"@,
        configs@.len() > 0 ==> r is Ok && r->Ok_0.0 == chosen(configs@) && r->Ok_0.0 < configs@.len()
            && r->Ok_0.1,
{
    if configs.len() == 0 {
        return Err(InstanceError::new("No EGL config found for window surface".to_owned()));
    }
    let mut best: usize = 0;
    let mut i: usize = 1;
    while i < configs.len()
        invariant
            1 <= i <= configs.len(),
            best < i,
            best == chosen(configs@.take(i as int)),
        decreases configs.len() - i,
    {
        assert(configs@.take(i + 1).drop_last() =~= configs@.take(i as int));
        if configs[best].replaced_by(&configs[i]) {
            best = i;
        }
        i += 1;
    }
    assert(configs@.take(configs@.len() as int) =~= configs@);
    Ok((best, true))
}

/// No configuration after the chosen one would take its place.
pub proof fn law_chosen_yields_to_no_later_one(configs: Seq<ConfigInfo>, j: int)
    requires
        configs.len() > 0,
        chosen(configs) < j < configs.len(),
    ensures
        0 <= chosen(configs),
        !configs[chosen(configs)].yields_to(configs[j]),
    decreases configs.len(),
{
    lemma_chosen_in_range(configs);
    if configs.len() > 1 && chosen(configs) < configs.len() - 1 {
        if j < configs.len() - 1 {
            law_chosen_yields_to_no_later_one(configs.drop_last(), j);
        }
        lemma_chosen_in_range(configs.drop_last());
    }
}

/// The chosen configuration is one of them.
pub proof fn lemma_chosen_in_range(configs: Seq<ConfigInfo>)
    requires
        configs.len() > 0,
    ensures
        0 <= chosen(configs) < configs.len(),
    decreases configs.len(),
{
    if configs.len() > 1 {
        lemma_chosen_in_range(configs.drop_last());
    }
}

/// Among configurations of which either all or none are transparent, the first one with the most
/// samples is chosen.
pub proof fn law_equal_transparency_leaves_samples(configs: Seq<ConfigInfo>, transparent: bool)
    requires
        configs.len() > 0,
        forall|i: int|
            0 <= i < configs.len() ==> (#[trigger] configs[i]).is_transparent() == transparent,
    ensures
        0 <= chosen(configs) < configs.len(),
        forall|i: int|
            0 <= i < configs.len() ==> (#[trigger] configs[i]).num_samples
                <= configs[chosen(configs)].num_samples,
        forall|i: int|
            0 <= i < chosen(configs) ==> (#[trigger] configs[i]).num_samples
                < configs[chosen(configs)].num_samples,
    decreases configs.len(),
{
    if configs.len() > 1 {
        let before = configs.drop_last();
        assert forall|i: int| 0 <= i < before.len() implies (
        #[trigger] before[i]).is_transparent() == transparent by {
            assert(before[i] == configs[i]);
        }
        law_equal_transparency_leaves_samples(before, transparent);
        assert forall|i: int| 0 <= i < configs.len() implies (#[trigger] configs[i]).num_samples
            <= configs[chosen(configs)].num_samples by {
            if i < before.len() {
                assert(before[i] == configs[i]);
            }
        }
        assert forall|i: int| 0 <= i < chosen(configs) implies (#[trigger] configs[i]).num_samples
            < configs[chosen(configs)].num_samples by {
            assert(before[i] == configs[i]);
        }
    }
}

/// Among configurations with equally many samples, the first transparent one is chosen, or the
/// first one where none is.
pub proof fn law_equal_samples_leave_transparency(configs: Seq<ConfigInfo>, num_samples: u8)
    requires
        configs.len() > 0,
        forall|i: int|
            0 <= i < configs.len() ==> (#[trigger] configs[i]).num_samples == num_samples,
    ensures
        0 <= chosen(configs) < configs.len(),
        configs[chosen(configs)].is_transparent() || chosen(configs) == 0,
        forall|i: int|
            0 <= i < chosen(configs) ==> !(#[trigger] configs[i]).is_transparent(),
        !configs[chosen(configs)].is_transparent() ==> forall|i: int|
            0 <= i < configs.len() ==> !(#[trigger] configs[i]).is_transparent(),
    decreases configs.len(),
{
    if configs.len() > 1 {
        let before = configs.drop_last();
        assert forall|i: int| 0 <= i < before.len() implies (#[trigger] before[i]).num_samples
            == num_samples by {
            assert(before[i] == configs[i]);
        }
        law_equal_samples_leave_transparency(before, num_samples);
        assert forall|i: int| 0 <= i < chosen(configs) implies !(
        #[trigger] configs[i]).is_transparent() by {
            assert(before[i] == configs[i]);
        }
        if !configs[chosen(configs)].is_transparent() {
            assert forall|i: int| 0 <= i < configs.len() implies !(
            #[trigger] configs[i]).is_transparent() by {
                if i < before.len() {
                    assert(before[i] == configs[i]);
                }
            }
        }
    }
}

/// A transparent configuration with more samples than any other is chosen.
pub proof fn law_transparent_with_most_samples_is_chosen(configs: Seq<ConfigInfo>, best: int)
    requires
        0 <= best < configs.len(),
        configs[best].is_transparent(),
        forall|i: int|
            0 <= i < configs.len() && i != best ==> (#[trigger] configs[i]).num_samples
                < configs[best].num_samples,
    ensures
        chosen(configs) == best,
    decreases configs.len(),
{
    if configs.len() > 1 {
        let before = configs.drop_last();
        lemma_chosen_in_range(before);
        if best < before.len() {
            assert forall|i: int| 0 <= i < before.len() && i != best implies (
            #[trigger] before[i]).num_samples < before[best].num_samples by {
                assert(before[i] == configs[i]);
            }
            law_transparent_with_most_samples_is_chosen(before, best);
        }
    }
}

/// What is asked for always has to support windows and nothing else. An alpha channel of eight bits
/// is asked for exactly where sRGB is supported, by EGL itself or by the extension.
pub proof fn law_request_cases(srgb_kind: SrgbFrameBufferKind)
    ensures
        ConfigRequest::spec_for_srgb(srgb_kind).surface_types == 0b0000_0001u8,
        srgb_kind == SrgbFrameBufferKind::Core || srgb_kind == SrgbFrameBufferKind::Khr
            ==> ConfigRequest::spec_for_srgb(srgb_kind).alpha_size == Some(8u8),
        srgb_kind == SrgbFrameBufferKind::Unsupported ==> ConfigRequest::spec_for_srgb(
            srgb_kind,
        ).alpha_size is None,
        DEFAULT_ALPHA_SIZE == 8,
{
}

/// One more configuration is chosen if it alone is known to be transparent, whatever its samples
/// are, or if it has more samples; else the choice stays. A single configuration is chosen.
pub proof fn law_one_more_config(configs: Seq<ConfigInfo>, further: ConfigInfo)
    requires
        configs.len() > 0,
    ensures
        chosen(seq![further]) == 0,
        0 <= chosen(configs) < configs.len(),
        ({
            let best = configs[chosen(configs)];
            let gains_transparency = further.supports_transparency == Some(true)
                && best.supports_transparency != Some(true);
            &&& gains_transparency ==> chosen(configs.push(further)) == configs.len()
            &&& further.num_samples > best.num_samples ==> chosen(configs.push(further))
                == configs.len()
            &&& !gains_transparency && further.num_samples <= best.num_samples ==> chosen(
                configs.push(further),
            ) == chosen(configs)
        }),
{
    lemma_chosen_in_range(configs);
    assert(configs.push(further).drop_last() =~= configs);
}

/// A transparent configuration that comes last and is the only one is chosen, whatever the samples
/// of all of them are.
pub proof fn law_only_transparent_config_at_the_end(configs: Seq<ConfigInfo>, last: ConfigInfo)
    requires
        last.supports_transparency == Some(true),
        forall|i: int|
            0 <= i < configs.len() ==> (#[trigger] configs[i]).supports_transparency != Some(true),
    ensures
        chosen(configs.push(last)) == configs.len(),
{
    if configs.len() > 0 {
        law_one_more_config(configs, last);
    }
}

/// Of two configurations the second one is chosen exactly if it alone is transparent or it has more
/// samples.
pub proof fn law_choice_of_two(a: ConfigInfo, b: ConfigInfo)
    ensures
        chosen(seq![a, b]) == 0 || chosen(seq![a, b]) == 1,
        chosen(seq![a, b]) == 1 <==> ((b.supports_transparency == Some(true)
            && a.supports_transparency != Some(true)) || b.num_samples > a.num_samples),
{
    law_one_more_config(seq![a], b);
    law_one_more_config(seq![a], a);
    assert(seq![a].push(b) =~= seq![a, b]);
}

/// A configuration that is known to be transparent always takes the place of one that is not, and
/// one with more samples that of one with fewer. In no other case is the place of one taken, and
/// never by one that counts the same.
pub proof fn law_who_takes_the_place(a: ConfigInfo, b: ConfigInfo)
    ensures
        b.supports_transparency == Some(true) && a.supports_transparency != Some(true)
            ==> a.yields_to(b),
        b.num_samples > a.num_samples ==> a.yields_to(b),
        b.num_samples <= a.num_samples && (b.supports_transparency != Some(true)
            || a.supports_transparency == Some(true)) ==> !a.yields_to(b),
        !a.yields_to(a),
{
}

} // verus!
