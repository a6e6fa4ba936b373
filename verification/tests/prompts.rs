use media_prompt::llm::types::PromptContext;
use media_prompt::model::prompt::{MediaPrompt, PromptStatus, PromptType};

const ALL: [PromptType; 7] = [
    PromptType::VideoPrompt,
    PromptType::MultiViewPrompt,
    PromptType::TextToImage,
    PromptType::SpatialCompositionDrawing,
    PromptType::FusionImage,
    PromptType::SoundEffect,
    PromptType::SpecialEffect,
];

fn context(prompt_type: PromptType) -> PromptContext {
    PromptContext {
        prompt_type,
        scene_index: 1,
        storyboard_index: Some(2),
        scene_description: "雨夜".to_string(),
        storyboard_content: Some("远景".to_string()),
        video_prompt: Some("VP".to_string()),
        multi_view_prompt: Some("MV".to_string()),
        previous_prompts: vec![
            (PromptType::TextToImage, "T2I".to_string()),
            (PromptType::SpatialCompositionDrawing, "SCD".to_string()),
            (PromptType::TextToImage, "later".to_string()),
        ],
    }
}

#[test]
fn stored_names() {
    let names: Vec<&str> = ALL.iter().map(|t| t.as_str()).collect();
    assert_eq!(
        names,
        vec![
            "video_prompt",
            "multi_view_prompt",
            "text_to_image",
            "spatial_composition_drawing",
            "fusion_image",
            "sound_effect",
            "special_effect",
        ]
    );
    for i in 0..ALL.len() {
        for j in 0..i {
            assert_ne!(names[i], names[j]);
        }
    }
}

#[test]
fn storyboard_order() {
    assert_eq!(
        PromptType::storyboard_sequence(),
        &[
            PromptType::TextToImage,
            PromptType::SpatialCompositionDrawing,
            PromptType::FusionImage,
            PromptType::SoundEffect,
            PromptType::SpecialEffect,
        ]
    );
}

#[test]
fn status_codes() {
    assert_eq!(PromptStatus::Success.code(), 0);
    assert_eq!(PromptStatus::Failed.code(), 1);
}

#[test]
fn success_records() {
    let p = MediaPrompt::success(
        7,
        1,
        None,
        PromptType::VideoPrompt,
        "text".to_string(),
        120,
        Some(33),
        2,
    );
    assert_eq!((p.task_id, p.scene_index, p.storyboard_index), (7, 1, None));
    assert_eq!(p.prompt_type, PromptType::VideoPrompt);
    assert_eq!(p.prompt_content.as_deref(), Some("text"));
    assert_eq!(p.status, PromptStatus::Success);
    assert_eq!(p.error_message, None);
    assert_eq!(p.llm_error_code, None);
    assert_eq!(p.llm_response_snippet, None);
    assert_eq!(p.llm_duration_ms, Some(120));
    assert_eq!(p.token_usage, Some(33));
    assert_eq!(p.llm_retries, Some(2));
}

#[test]
fn failure_records() {
    let p = MediaPrompt::failed(
        7,
        1,
        Some(4),
        PromptType::FusionImage,
        "broken".to_string(),
        Some("HTTP_400".to_string()),
        Some("body".to_string()),
        Some(9),
        Some(0),
    );
    assert_eq!(p.prompt_content, None);
    assert_eq!(p.status, PromptStatus::Failed);
    assert_eq!(p.error_message.as_deref(), Some("broken"));
    assert_eq!(p.llm_error_code.as_deref(), Some("HTTP_400"));
    assert_eq!(p.llm_response_snippet.as_deref(), Some("body"));
    assert_eq!(p.llm_duration_ms, Some(9));
    assert_eq!(p.token_usage, None);
    assert_eq!(p.llm_retries, Some(0));
    assert_eq!(p.storyboard_index, Some(4));
}

#[test]
fn retries_that_do_not_fit_are_left_out() {
    let p = MediaPrompt::success(
        1,
        1,
        None,
        PromptType::VideoPrompt,
        String::new(),
        0,
        None,
        2_147_483_648,
    );
    assert_eq!(p.llm_retries, None);
    let p = MediaPrompt::success(
        1,
        1,
        None,
        PromptType::VideoPrompt,
        String::new(),
        0,
        None,
        2_147_483_647,
    );
    assert_eq!(p.llm_retries, Some(i32::MAX));
}

#[test]
fn system_prompts() {
    assert_eq!(
        context(PromptType::VideoPrompt).build_system_prompt(),
        "你是一个专业的影视视频提示词生成专家。\n请根据以下场景描述，生成一段详细的视频提示词(video prompt)。\n场景描述：雨夜\n要求：提示词应包含画面风格、色调、运镜方式等关键信息。"
    );
    assert_eq!(
        context(PromptType::MultiViewPrompt).build_system_prompt(),
        "你是一个专业的多视角提示词生成专家。\n请根据以下场景描述和已生成的视频提示词，生成多视角提示词(multi-view prompt)。\n场景描述：雨夜\n视频提示词：VP\n要求：提示词应涵盖不同机位和视角的描述。"
    );
    assert_eq!(
        context(PromptType::TextToImage).build_system_prompt(),
        "你是一个专业的文生图提示词生成专家。\n请根据以下分镜内容及上下文，生成 text-to-image 提示词。\n视频提示词：VP\n多视角提示词：MV\n分镜内容：远景\n要求：提示词应精确描述画面主体、构图、光影和风格。"
    );
    assert_eq!(
        context(PromptType::SpatialCompositionDrawing).build_system_prompt(),
        "你是一个专业的空间构图绘画提示词生成专家。\n请根据以下上下文，生成空间构图提示词。\n视频提示词：VP\n多视角提示词：MV\n文生图提示词：T2I\n分镜内容：远景\n要求：提示词应精确描述空间布局、前中后景层次和透视关系。"
    );
    assert_eq!(
        context(PromptType::FusionImage).build_system_prompt(),
        "你是一个专业的融合图像提示词生成专家。\n请根据以下上下文，生成融合图像提示词。\n视频提示词：VP\n多视角提示词：MV\n文生图提示词：T2I\n空间构图提示词：SCD\n分镜内容：远景\n要求：提示词应描述如何将各元素融合为最终画面。"
    );
    assert_eq!(
        context(PromptType::SoundEffect).build_system_prompt(),
        "你是一个专业的音效设计提示词生成专家。\n请根据以下分镜内容和视觉提示词，生成音效提示词。\n视频提示词：VP\n分镜内容：远景\n要求：提示词应描述环境音、音效类型、节奏和情绪氛围。"
    );
    assert_eq!(
        context(PromptType::SpecialEffect).build_system_prompt(),
        "你是一个专业的特效设计提示词生成专家。\n请根据以下分镜内容和视觉提示词，生成特效提示词。\n视频提示词：VP\n分镜内容：远景\n要求：提示词应描述粒子效果、光影特效、转场效果等。"
    );
}

#[test]
fn first_earlier_prompt_of_a_type_counts() {
    let ctx = context(PromptType::FusionImage);
    assert_eq!(ctx.get_previous(PromptType::TextToImage), "T2I");
    assert_eq!(ctx.get_previous(PromptType::SpatialCompositionDrawing), "SCD");
    assert_eq!(ctx.get_previous(PromptType::SoundEffect), "");
}
