//! Pipeline configurations for the supported stable-diffusion variants:
//! each constructor pins the image geometry, the text-encoder choice, the
//! autoencoder layout, the UNet layout, and the scheduler family. The
//! numeric tables of the schedulers and the model weights live with the
//! model implementations outside this crate; what is pinned here is every
//! discrete, layout-determining choice.

use vstd::prelude::*;
use vstd::string::StringExecFns;

verus! {

/// Prediction target of a diffusion scheduler.
#[derive(Clone, Copy, PartialEq, Eq, Structural, Debug)]
pub enum PredictionType {
    Epsilon,
    VPrediction,
}

/// How a scheduler spaces its timesteps.
#[derive(Clone, Copy, PartialEq, Eq, Structural, Debug)]
pub enum TimestepSpacing {
    Leading,
    Trailing,
}

/// Which scheduler family drives the denoising loop, with its discrete
/// parameters.
#[derive(Clone, Copy, PartialEq, Eq, Structural, Debug)]
pub enum SchedulerConfig {
    Ddim { prediction_type: PredictionType },
    Ddpm { prediction_type: PredictionType },
    EulerAncestralDiscrete {
        prediction_type: PredictionType,
        timestep_spacing: TimestepSpacing,
    },
}

/// Which pretrained text-encoder configuration a pipeline uses.
#[derive(Clone, Copy, PartialEq, Eq, Structural, Debug)]
pub enum ClipConfig {
    V1_5,
    V2_1,
    Sdxl,
    Sdxl2,
    Ssd1b,
    Ssd1b2,
}

/// One stage of the UNet: its channel count, how many cross-attention
/// transformer layers it runs (none for a plain stage), and the attention
/// head dimension.
#[derive(Clone, Copy, PartialEq, Debug)]
pub struct BlockConfig {
    pub out_channels: usize,
    pub use_cross_attn: Option<usize>,
    pub attention_head_dim: usize,
}

/// The discrete layout parameters of the UNet.
#[derive(Clone, PartialEq, Debug)]
pub struct UNet2DConditionModelConfig {
    pub blocks: Vec<BlockConfig>,
    pub center_input_sample: bool,
    pub cross_attention_dim: usize,
    pub downsample_padding: usize,
    pub flip_sin_to_cos: bool,
    pub layers_per_block: usize,
    pub norm_num_groups: usize,
    pub sliced_attention_size: Option<usize>,
    pub use_linear_projection: bool,
}

/// The discrete layout parameters of the variational autoencoder.
#[derive(Clone, PartialEq, Debug)]
pub struct AutoEncoderKLConfig {
    pub block_out_channels: Vec<usize>,
    pub layers_per_block: usize,
    pub latent_channels: usize,
    pub norm_num_groups: usize,
    pub use_quant_conv: bool,
    pub use_post_quant_conv: bool,
}

/// A full pipeline configuration.
#[derive(Clone, PartialEq, Debug)]
pub struct StableDiffusionConfig {
    pub width: usize,
    pub height: usize,
    pub clip: ClipConfig,
    pub clip2: Option<ClipConfig>,
    pub autoencoder: AutoEncoderKLConfig,
    pub unet: UNet2DConditionModelConfig,
    pub scheduler: SchedulerConfig,
}

/// The autoencoder every supported variant uses.
pub open spec fn is_standard_autoencoder(a: AutoEncoderKLConfig) -> bool {
    &&& a.block_out_channels@ =~= seq![128usize, 256, 512, 512]
    &&& a.layers_per_block == 2
    &&& a.latent_channels == 4
    &&& a.norm_num_groups == 32
    &&& a.use_quant_conv == true
    &&& a.use_post_quant_conv == true
}

/// The UNet fields shared by every supported variant.
pub open spec fn unet_common(
    u: UNet2DConditionModelConfig,
    cross_attention_dim: usize,
    use_linear_projection: bool,
    sliced_attention_size: Option<usize>,
) -> bool {
    &&& u.center_input_sample == false
    &&& u.cross_attention_dim == cross_attention_dim
    &&& u.downsample_padding == 1
    &&& u.flip_sin_to_cos == true
    &&& u.layers_per_block == 2
    &&& u.norm_num_groups == 32
    &&& u.sliced_attention_size == sliced_attention_size
    &&& u.use_linear_projection == use_linear_projection
}

/// The v1.5 UNet: four stages, 768-wide cross attention, convolutional
/// projection.
pub open spec fn is_v1_5_unet(u: UNet2DConditionModelConfig, sliced: Option<usize>) -> bool {
    &&& unet_common(u, 768, false, sliced)
    &&& u.blocks@ =~= seq![
        BlockConfig { out_channels: 320, use_cross_attn: Some(1), attention_head_dim: 8 },
        BlockConfig { out_channels: 640, use_cross_attn: Some(1), attention_head_dim: 8 },
        BlockConfig { out_channels: 1280, use_cross_attn: Some(1), attention_head_dim: 8 },
        BlockConfig { out_channels: 1280, use_cross_attn: None, attention_head_dim: 8 },
    ]
}

/// The v2.1 UNet: four stages, 1024-wide cross attention, linear
/// projection.
pub open spec fn is_v2_1_unet(u: UNet2DConditionModelConfig, sliced: Option<usize>) -> bool {
    &&& unet_common(u, 1024, true, sliced)
    &&& u.blocks@ =~= seq![
        BlockConfig { out_channels: 320, use_cross_attn: Some(1), attention_head_dim: 5 },
        BlockConfig { out_channels: 640, use_cross_attn: Some(1), attention_head_dim: 10 },
        BlockConfig { out_channels: 1280, use_cross_attn: Some(1), attention_head_dim: 20 },
        BlockConfig { out_channels: 1280, use_cross_attn: None, attention_head_dim: 20 },
    ]
}

/// The XL-family UNet (base, turbo and distilled variants): three stages,
/// 2048-wide cross attention, linear projection.
pub open spec fn is_xl_unet(u: UNet2DConditionModelConfig, sliced: Option<usize>) -> bool {
    &&& unet_common(u, 2048, true, sliced)
    &&& u.blocks@ =~= seq![
        BlockConfig { out_channels: 320, use_cross_attn: None, attention_head_dim: 5 },
        BlockConfig { out_channels: 640, use_cross_attn: Some(2), attention_head_dim: 10 },
        BlockConfig { out_channels: 1280, use_cross_attn: Some(10), attention_head_dim: 20 },
    ]
}

/// An extent rounded up to the next multiple of 8.
pub open spec fn round_up_to_8(x: usize) -> int {
    if x % 8 == 0 {
        x as int
    } else {
        (x / 8 + 1) * 8
    }
}

fn standard_autoencoder() -> (r: AutoEncoderKLConfig)
    ensures
        is_standard_autoencoder(r),
{
    AutoEncoderKLConfig {
        block_out_channels: vec![128, 256, 512, 512],
        layers_per_block: 2,
        latent_channels: 4,
        norm_num_groups: 32,
        use_quant_conv: true,
        use_post_quant_conv: true,
    }
}

fn xl_unet(sliced_attention_size: Option<usize>) -> (r: UNet2DConditionModelConfig)
    ensures
        is_xl_unet(r, sliced_attention_size),
{
    UNet2DConditionModelConfig {
        blocks: vec![
            BlockConfig { out_channels: 320, use_cross_attn: None, attention_head_dim: 5 },
            BlockConfig { out_channels: 640, use_cross_attn: Some(2), attention_head_dim: 10 },
            BlockConfig { out_channels: 1280, use_cross_attn: Some(10), attention_head_dim: 20 },
        ],
        center_input_sample: false,
        cross_attention_dim: 2048,
        downsample_padding: 1,
        flip_sin_to_cos: true,
        layers_per_block: 2,
        norm_num_groups: 32,
        sliced_attention_size,
        use_linear_projection: true,
    }
}

impl StableDiffusionConfig {
    /// The v1.5 pipeline. Geometry defaults to 512x512; a given extent
    /// must be a multiple of 8.
    pub fn v1_5(
        sliced_attention_size: Option<usize>,
        height: Option<usize>,
        width: Option<usize>,
    ) -> (r: Self)
        requires
            height matches Some(h) ==> h % 8 == 0,
            width matches Some(w) ==> w % 8 == 0,
        ensures
            r.height == (match height {
                Some(h) => h as int,
                None => 512,
            }),
            r.width == (match width {
                Some(w) => w as int,
                None => 512,
            }),
            r.clip == ClipConfig::V1_5,
            r.clip2 is None,
            is_standard_autoencoder(r.autoencoder),
            is_v1_5_unet(r.unet, sliced_attention_size),
            r.scheduler == (SchedulerConfig::Ddim { prediction_type: PredictionType::Epsilon }),
    {
        let unet = UNet2DConditionModelConfig {
            blocks: vec![
                BlockConfig { out_channels: 320, use_cross_attn: Some(1), attention_head_dim: 8 },
                BlockConfig { out_channels: 640, use_cross_attn: Some(1), attention_head_dim: 8 },
                BlockConfig { out_channels: 1280, use_cross_attn: Some(1), attention_head_dim: 8 },
                BlockConfig { out_channels: 1280, use_cross_attn: None, attention_head_dim: 8 },
            ],
            center_input_sample: false,
            cross_attention_dim: 768,
            downsample_padding: 1,
            flip_sin_to_cos: true,
            layers_per_block: 2,
            norm_num_groups: 32,
            sliced_attention_size,
            use_linear_projection: false,
        };
        let autoencoder = standard_autoencoder();
        let height = match height {
            Some(h) => h,
            None => 512,
        };
        let width = match width {
            Some(w) => w,
            None => 512,
        };
        StableDiffusionConfig {
            width,
            height,
            clip: ClipConfig::V1_5,
            clip2: None,
            autoencoder,
            unet,
            scheduler: SchedulerConfig::Ddim { prediction_type: PredictionType::Epsilon },
        }
    }

    /// The v2.1 pipeline with an explicit prediction target. Geometry
    /// defaults to 768x768; a given extent must be a multiple of 8.
    pub fn v2_1_(
        sliced_attention_size: Option<usize>,
        height: Option<usize>,
        width: Option<usize>,
        prediction_type: PredictionType,
    ) -> (r: Self)
        requires
            height matches Some(h) ==> h % 8 == 0,
            width matches Some(w) ==> w % 8 == 0,
        ensures
            r.height == (match height {
                Some(h) => h as int,
                None => 768,
            }),
            r.width == (match width {
                Some(w) => w as int,
                None => 768,
            }),
            r.clip == ClipConfig::V2_1,
            r.clip2 is None,
            is_standard_autoencoder(r.autoencoder),
            is_v2_1_unet(r.unet, sliced_attention_size),
            r.scheduler == (SchedulerConfig::Ddim { prediction_type }),
    {
        let unet = UNet2DConditionModelConfig {
            blocks: vec![
                BlockConfig { out_channels: 320, use_cross_attn: Some(1), attention_head_dim: 5 },
                BlockConfig { out_channels: 640, use_cross_attn: Some(1), attention_head_dim: 10 },
                BlockConfig {
                    out_channels: 1280,
                    use_cross_attn: Some(1),
                    attention_head_dim: 20,
                },
                BlockConfig { out_channels: 1280, use_cross_attn: None, attention_head_dim: 20 },
            ],
            center_input_sample: false,
            cross_attention_dim: 1024,
            downsample_padding: 1,
            flip_sin_to_cos: true,
            layers_per_block: 2,
            norm_num_groups: 32,
            sliced_attention_size,
            use_linear_projection: true,
        };
        let autoencoder = standard_autoencoder();
        let height = match height {
            Some(h) => h,
            None => 768,
        };
        let width = match width {
            Some(w) => w,
            None => 768,
        };
        StableDiffusionConfig {
            width,
            height,
            clip: ClipConfig::V2_1,
            clip2: None,
            autoencoder,
            unet,
            scheduler: SchedulerConfig::Ddim { prediction_type },
        }
    }

    /// The v2.1 pipeline with its published prediction target.
    pub fn v2_1(
        sliced_attention_size: Option<usize>,
        height: Option<usize>,
        width: Option<usize>,
    ) -> (r: Self)
        requires
            height matches Some(h) ==> h % 8 == 0,
            width matches Some(w) ==> w % 8 == 0,
        ensures
            r.height == (match height {
                Some(h) => h as int,
                None => 768,
            }),
            r.width == (match width {
                Some(w) => w as int,
                None => 768,
            }),
            r.clip == ClipConfig::V2_1,
            r.clip2 is None,
            is_standard_autoencoder(r.autoencoder),
            is_v2_1_unet(r.unet, sliced_attention_size),
            r.scheduler == (SchedulerConfig::Ddim {
                prediction_type: PredictionType::VPrediction,
            }),
    {
        Self::v2_1_(sliced_attention_size, height, width, PredictionType::VPrediction)
    }

    /// The XL base pipeline with an explicit prediction target. Geometry
    /// defaults to 1024x1024 and is taken exactly as given.
    pub fn sdxl_(
        sliced_attention_size: Option<usize>,
        height: Option<usize>,
        width: Option<usize>,
        prediction_type: PredictionType,
    ) -> (r: Self)
        ensures
            r.height == (match height {
                Some(h) => h as int,
                None => 1024,
            }),
            r.width == (match width {
                Some(w) => w as int,
                None => 1024,
            }),
            r.clip == ClipConfig::Sdxl,
            r.clip2 == Some(ClipConfig::Sdxl2),
            is_standard_autoencoder(r.autoencoder),
            is_xl_unet(r.unet, sliced_attention_size),
            r.scheduler == (SchedulerConfig::Ddim { prediction_type }),
    {
        let unet = xl_unet(sliced_attention_size);
        let autoencoder = standard_autoencoder();
        let height = match height {
            Some(h) => h,
            None => 1024,
        };
        let width = match width {
            Some(w) => w,
            None => 1024,
        };
        StableDiffusionConfig {
            width,
            height,
            clip: ClipConfig::Sdxl,
            clip2: Some(ClipConfig::Sdxl2),
            autoencoder,
            unet,
            scheduler: SchedulerConfig::Ddim { prediction_type },
        }
    }

    /// The XL base pipeline with sampler selection: geometry defaults to
    /// 1024x1024 and a given extent is rounded up to the next multiple of
    /// 8; the sampler name picks the scheduler family, any unrecognized
    /// name falling back to the default family.
    fn sdxl_aifx_(
        sliced_attention_size: Option<usize>,
        height: Option<usize>,
        width: Option<usize>,
        prediction_type: PredictionType,
        sampler: Option<String>,
    ) -> (r: Self)
        requires
            height matches Some(h) ==> h <= usize::MAX - 7,
            width matches Some(w) ==> w <= usize::MAX - 7,
        ensures
            r.height == (match height {
                Some(h) => round_up_to_8(h),
                None => 1024,
            }),
            r.width == (match width {
                Some(w) => round_up_to_8(w),
                None => 1024,
            }),
            r.clip == ClipConfig::Sdxl,
            r.clip2 == Some(ClipConfig::Sdxl2),
            is_standard_autoencoder(r.autoencoder),
            is_xl_unet(r.unet, sliced_attention_size),
            r.scheduler == (match sampler {
                Some(s) => {
                    if s@ == "DDPM"@ {
                        SchedulerConfig::Ddpm { prediction_type }
                    } else if s@ == "EULER_ANCESTRAL"@ {
                        SchedulerConfig::EulerAncestralDiscrete {
                            prediction_type,
                            timestep_spacing: TimestepSpacing::Leading,
                        }
                    } else {
                        SchedulerConfig::Ddim { prediction_type }
                    }
                },
                None => SchedulerConfig::Ddim { prediction_type },
            }),
    {
        let unet = xl_unet(sliced_attention_size);
        let autoencoder = standard_autoencoder();
        let height = match height {
            Some(h) => {
                if h % 8 != 0 {
                    let t = h / 8;
                    (t + 1) * 8
                } else {
                    h
                }
            },
            None => 1024,
        };
        let width = match width {
            Some(w) => {
                if w % 8 != 0 {
                    let t = w / 8;
                    (t + 1) * 8
                } else {
                    w
                }
            },
            None => 1024,
        };
        let scheduler = match sampler {
            Some(s) => {
                let ddpm = "DDPM".to_owned();
                let euler = "EULER_ANCESTRAL".to_owned();
                if s == ddpm {
                    SchedulerConfig::Ddpm { prediction_type }
                } else if s == euler {
                    SchedulerConfig::EulerAncestralDiscrete {
                        prediction_type,
                        timestep_spacing: TimestepSpacing::Leading,
                    }
                } else {
                    SchedulerConfig::Ddim { prediction_type }
                }
            },
            None => SchedulerConfig::Ddim { prediction_type },
        };
        StableDiffusionConfig {
            width,
            height,
            clip: ClipConfig::Sdxl,
            clip2: Some(ClipConfig::Sdxl2),
            autoencoder,
            unet,
            scheduler,
        }
    }

    /// The XL base pipeline with its published prediction target and
    /// sampler selection by name.
    pub fn sdxl(
        sliced_attention_size: Option<usize>,
        height: Option<usize>,
        width: Option<usize>,
        sampler: Option<String>,
    ) -> (r: Self)
        requires
            height matches Some(h) ==> h <= usize::MAX - 7,
            width matches Some(w) ==> w <= usize::MAX - 7,
        ensures
            r.height == (match height {
                Some(h) => round_up_to_8(h),
                None => 1024,
            }),
            r.width == (match width {
                Some(w) => round_up_to_8(w),
                None => 1024,
            }),
            r.clip == ClipConfig::Sdxl,
            r.clip2 == Some(ClipConfig::Sdxl2),
            is_standard_autoencoder(r.autoencoder),
            is_xl_unet(r.unet, sliced_attention_size),
            r.scheduler == (match sampler {
                Some(s) => {
                    if s@ == "DDPM"@ {
                        SchedulerConfig::Ddpm { prediction_type: PredictionType::Epsilon }
                    } else if s@ == "EULER_ANCESTRAL"@ {
                        SchedulerConfig::EulerAncestralDiscrete {
                            prediction_type: PredictionType::Epsilon,
                            timestep_spacing: TimestepSpacing::Leading,
                        }
                    } else {
                        SchedulerConfig::Ddim { prediction_type: PredictionType::Epsilon }
                    }
                },
                None => SchedulerConfig::Ddim { prediction_type: PredictionType::Epsilon },
            }),
    {
        Self::sdxl_aifx_(
            sliced_attention_size,
            height,
            width,
            PredictionType::Epsilon,
            sampler,
        )
    }

    /// The XL turbo pipeline with an explicit prediction target. Geometry
    /// defaults to 512x512; a given extent must be a multiple of 8; the
    /// scheduler is the ancestral Euler family with trailing timesteps.
    pub fn sdxl_turbo_(
        sliced_attention_size: Option<usize>,
        height: Option<usize>,
        width: Option<usize>,
        prediction_type: PredictionType,
    ) -> (r: Self)
        requires
            height matches Some(h) ==> h % 8 == 0,
            width matches Some(w) ==> w % 8 == 0,
        ensures
            r.height == (match height {
                Some(h) => h as int,
                None => 512,
            }),
            r.width == (match width {
                Some(w) => w as int,
                None => 512,
            }),
            r.clip == ClipConfig::Sdxl,
            r.clip2 == Some(ClipConfig::Sdxl2),
            is_standard_autoencoder(r.autoencoder),
            is_xl_unet(r.unet, sliced_attention_size),
            r.scheduler == (SchedulerConfig::EulerAncestralDiscrete {
                prediction_type,
                timestep_spacing: TimestepSpacing::Trailing,
            }),
    {
        let unet = xl_unet(sliced_attention_size);
        let autoencoder = standard_autoencoder();
        let height = match height {
            Some(h) => h,
            None => 512,
        };
        let width = match width {
            Some(w) => w,
            None => 512,
        };
        StableDiffusionConfig {
            width,
            height,
            clip: ClipConfig::Sdxl,
            clip2: Some(ClipConfig::Sdxl2),
            autoencoder,
            unet,
            scheduler: SchedulerConfig::EulerAncestralDiscrete {
                prediction_type,
                timestep_spacing: TimestepSpacing::Trailing,
            },
        }
    }

    /// The XL turbo pipeline with its published prediction target.
    pub fn sdxl_turbo(
        sliced_attention_size: Option<usize>,
        height: Option<usize>,
        width: Option<usize>,
    ) -> (r: Self)
        requires
            height matches Some(h) ==> h % 8 == 0,
            width matches Some(w) ==> w % 8 == 0,
        ensures
            r.height == (match height {
                Some(h) => h as int,
                None => 512,
            }),
            r.width == (match width {
                Some(w) => w as int,
                None => 512,
            }),
            r.clip == ClipConfig::Sdxl,
            r.clip2 == Some(ClipConfig::Sdxl2),
            is_standard_autoencoder(r.autoencoder),
            is_xl_unet(r.unet, sliced_attention_size),
            r.scheduler == (SchedulerConfig::EulerAncestralDiscrete {
                prediction_type: PredictionType::Epsilon,
                timestep_spacing: TimestepSpacing::Trailing,
            }),
    {
        Self::sdxl_turbo_(sliced_attention_size, height, width, PredictionType::Epsilon)
    }

    /// The distilled SSD-1B pipeline. Geometry defaults to 1024x1024; a
    /// given extent must be a multiple of 8; the scheduler is the default
    /// family with its default prediction target.
    pub fn ssd1b(
        sliced_attention_size: Option<usize>,
        height: Option<usize>,
        width: Option<usize>,
    ) -> (r: Self)
        requires
            height matches Some(h) ==> h % 8 == 0,
            width matches Some(w) ==> w % 8 == 0,
        ensures
            r.height == (match height {
                Some(h) => h as int,
                None => 1024,
            }),
            r.width == (match width {
                Some(w) => w as int,
                None => 1024,
            }),
            r.clip == ClipConfig::Ssd1b,
            r.clip2 == Some(ClipConfig::Ssd1b2),
            is_standard_autoencoder(r.autoencoder),
            is_xl_unet(r.unet, sliced_attention_size),
            r.scheduler == (SchedulerConfig::Ddim { prediction_type: PredictionType::Epsilon }),
    {
        let unet = xl_unet(sliced_attention_size);
        let autoencoder = standard_autoencoder();
        let height = match height {
            Some(h) => h,
            None => 1024,
        };
        let width = match width {
            Some(w) => w,
            None => 1024,
        };
        StableDiffusionConfig {
            width,
            height,
            clip: ClipConfig::Ssd1b,
            clip2: Some(ClipConfig::Ssd1b2),
            autoencoder,
            unet,
            scheduler: SchedulerConfig::Ddim { prediction_type: PredictionType::Epsilon },
        }
    }
}

} // verus!
