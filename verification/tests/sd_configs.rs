use candle_metal_kernels::stable_diffusion::{
    ClipConfig, PredictionType, SchedulerConfig, StableDiffusionConfig, TimestepSpacing,
};

#[test]
fn v1_5_defaults() {
    let c = StableDiffusionConfig::v1_5(None, None, None);
    assert_eq!(c.width, 512);
    assert_eq!(c.height, 512);
    assert_eq!(c.clip, ClipConfig::V1_5);
    assert_eq!(c.clip2, None);
    assert_eq!(
        c.scheduler,
        SchedulerConfig::Ddim { prediction_type: PredictionType::Epsilon }
    );
    assert_eq!(c.unet.cross_attention_dim, 768);
    assert!(!c.unet.use_linear_projection);
    assert_eq!(c.unet.blocks.len(), 4);
    assert_eq!(c.unet.blocks[0].out_channels, 320);
    assert_eq!(c.unet.blocks[0].use_cross_attn, Some(1));
    assert_eq!(c.unet.blocks[0].attention_head_dim, 8);
    assert_eq!(c.unet.blocks[3].use_cross_attn, None);
    assert_eq!(c.autoencoder.block_out_channels, vec![128, 256, 512, 512]);
    assert_eq!(c.autoencoder.latent_channels, 4);
    assert!(c.autoencoder.use_quant_conv);
}

#[test]
fn v1_5_explicit_geometry() {
    let c = StableDiffusionConfig::v1_5(Some(4), Some(768), Some(640));
    assert_eq!(c.height, 768);
    assert_eq!(c.width, 640);
    assert_eq!(c.unet.sliced_attention_size, Some(4));
}

#[test]
fn v2_1_defaults() {
    let c = StableDiffusionConfig::v2_1(None, None, None);
    assert_eq!(c.width, 768);
    assert_eq!(c.height, 768);
    assert_eq!(c.clip, ClipConfig::V2_1);
    assert_eq!(
        c.scheduler,
        SchedulerConfig::Ddim { prediction_type: PredictionType::VPrediction }
    );
    assert_eq!(c.unet.cross_attention_dim, 1024);
    assert!(c.unet.use_linear_projection);
    assert_eq!(c.unet.blocks.len(), 4);
    assert_eq!(c.unet.blocks[1].attention_head_dim, 10);
}

#[test]
fn v2_1_with_explicit_prediction() {
    let c = StableDiffusionConfig::v2_1_(None, None, None, PredictionType::Epsilon);
    assert_eq!(
        c.scheduler,
        SchedulerConfig::Ddim { prediction_type: PredictionType::Epsilon }
    );
}

#[test]
fn sdxl_defaults() {
    let c = StableDiffusionConfig::sdxl(None, None, None, None);
    assert_eq!(c.width, 1024);
    assert_eq!(c.height, 1024);
    assert_eq!(c.clip, ClipConfig::Sdxl);
    assert_eq!(c.clip2, Some(ClipConfig::Sdxl2));
    assert_eq!(
        c.scheduler,
        SchedulerConfig::Ddim { prediction_type: PredictionType::Epsilon }
    );
    assert_eq!(c.unet.cross_attention_dim, 2048);
    assert_eq!(c.unet.blocks.len(), 3);
    assert_eq!(c.unet.blocks[0].use_cross_attn, None);
    assert_eq!(c.unet.blocks[1].use_cross_attn, Some(2));
    assert_eq!(c.unet.blocks[2].use_cross_attn, Some(10));
}

#[test]
fn sdxl_rounds_geometry_up_to_multiple_of_8() {
    let c = StableDiffusionConfig::sdxl(None, Some(100), Some(96), None);
    assert_eq!(c.height, 104);
    assert_eq!(c.width, 96);
}

#[test]
fn sdxl_sampler_selection() {
    let ddpm = StableDiffusionConfig::sdxl(None, None, None, Some("DDPM".to_string()));
    assert_eq!(
        ddpm.scheduler,
        SchedulerConfig::Ddpm { prediction_type: PredictionType::Epsilon }
    );
    let euler =
        StableDiffusionConfig::sdxl(None, None, None, Some("EULER_ANCESTRAL".to_string()));
    assert_eq!(
        euler.scheduler,
        SchedulerConfig::EulerAncestralDiscrete {
            prediction_type: PredictionType::Epsilon,
            timestep_spacing: TimestepSpacing::Leading,
        }
    );
    let fallback = StableDiffusionConfig::sdxl(None, None, None, Some("UNKNOWN".to_string()));
    assert_eq!(
        fallback.scheduler,
        SchedulerConfig::Ddim { prediction_type: PredictionType::Epsilon }
    );
    let ddim = StableDiffusionConfig::sdxl(None, None, None, Some("DDIM".to_string()));
    assert_eq!(
        ddim.scheduler,
        SchedulerConfig::Ddim { prediction_type: PredictionType::Epsilon }
    );
}

#[test]
fn sdxl_turbo_defaults() {
    let c = StableDiffusionConfig::sdxl_turbo(None, None, None);
    assert_eq!(c.width, 512);
    assert_eq!(c.height, 512);
    assert_eq!(c.clip, ClipConfig::Sdxl);
    assert_eq!(c.clip2, Some(ClipConfig::Sdxl2));
    assert_eq!(
        c.scheduler,
        SchedulerConfig::EulerAncestralDiscrete {
            prediction_type: PredictionType::Epsilon,
            timestep_spacing: TimestepSpacing::Trailing,
        }
    );
    assert_eq!(c.unet.cross_attention_dim, 2048);
}

#[test]
fn sdxl_with_explicit_prediction() {
    let c = StableDiffusionConfig::sdxl_(None, None, None, PredictionType::VPrediction);
    assert_eq!(
        c.scheduler,
        SchedulerConfig::Ddim { prediction_type: PredictionType::VPrediction }
    );
    assert_eq!(c.clip2, Some(ClipConfig::Sdxl2));
}

#[test]
fn sdxl_turbo_with_explicit_prediction() {
    let c = StableDiffusionConfig::sdxl_turbo_(None, Some(512), Some(512), PredictionType::VPrediction);
    assert_eq!(
        c.scheduler,
        SchedulerConfig::EulerAncestralDiscrete {
            prediction_type: PredictionType::VPrediction,
            timestep_spacing: TimestepSpacing::Trailing,
        }
    );
}

#[test]
fn ssd1b_defaults() {
    let c = StableDiffusionConfig::ssd1b(None, None, None);
    assert_eq!(c.width, 1024);
    assert_eq!(c.height, 1024);
    assert_eq!(c.clip, ClipConfig::Ssd1b);
    assert_eq!(c.clip2, Some(ClipConfig::Ssd1b2));
    assert_eq!(
        c.scheduler,
        SchedulerConfig::Ddim { prediction_type: PredictionType::Epsilon }
    );
}
