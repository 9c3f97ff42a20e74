use glm_vision_rs::prompts::{
    ui_to_artifact_prompt, DATA_VIZ_ANALYSIS, DIAGRAM_UNDERSTANDING, ERROR_DIAGNOSIS,
    GENERAL_IMAGE_ANALYSIS, TEXT_EXTRACTION, UI_DIFF_CHECK, UI_TO_ARTIFACT_CODE,
    UI_TO_ARTIFACT_DESCRIPTION, UI_TO_ARTIFACT_PROMPT, UI_TO_ARTIFACT_SPEC, VIDEO_ANALYSIS,
};

#[test]
fn test_ui_to_artifact_prompt_lookup() {
    assert!(ui_to_artifact_prompt("code").is_some());
    assert!(ui_to_artifact_prompt("prompt").is_some());
    assert!(ui_to_artifact_prompt("spec").is_some());
    assert!(ui_to_artifact_prompt("description").is_some());
    assert!(ui_to_artifact_prompt("Code").is_some());
    assert!(ui_to_artifact_prompt("CODE").is_some());
    assert!(ui_to_artifact_prompt("invalid").is_none());
    assert!(ui_to_artifact_prompt("").is_none());
}

#[test]
fn test_prompts_not_empty() {
    assert!(!UI_TO_ARTIFACT_CODE.is_empty());
    assert!(!UI_TO_ARTIFACT_PROMPT.is_empty());
    assert!(!UI_TO_ARTIFACT_SPEC.is_empty());
    assert!(!UI_TO_ARTIFACT_DESCRIPTION.is_empty());
    assert!(!TEXT_EXTRACTION.is_empty());
    assert!(!ERROR_DIAGNOSIS.is_empty());
    assert!(!DIAGRAM_UNDERSTANDING.is_empty());
    assert!(!DATA_VIZ_ANALYSIS.is_empty());
    assert!(!UI_DIFF_CHECK.is_empty());
    assert!(!GENERAL_IMAGE_ANALYSIS.is_empty());
    assert!(!VIDEO_ANALYSIS.is_empty());
}

#[test]
fn test_ui_to_artifact_prompt_selection() {
    for t in &["code", "prompt", "spec", "description"] {
        let p = ui_to_artifact_prompt(t);
        assert!(p.is_some(), "missing prompt for output_type={}", t);
        assert!(!p.unwrap().is_empty());
    }
}

#[test]
fn test_prompt_enhancement_with_language() {
    let base = "Extract the code from this screenshot";
    let lang = "python";
    let enhanced = format!("Programming language context: {}\n\n{}", lang, base);
    assert!(enhanced.contains("python"));
    assert!(enhanced.contains(base));
}

#[test]
fn test_prompt_enhancement_with_context() {
    let base = "What is this error?";
    let ctx = "Running cargo build on a fresh clone";
    let enhanced = format!("Context: {}\n\n{}", ctx, base);
    assert!(enhanced.contains(ctx));
    assert!(enhanced.contains(base));
}

#[test]
fn test_prompt_enhancement_with_diagram_type() {
    let base = "Explain this diagram";
    let dt = "UML class";
    let enhanced = format!("Diagram type: {}\n\n{}", dt, base);
    assert!(enhanced.contains("UML class"));
}

#[test]
fn test_ui_diff_prompt_enhancement() {
    let prompt = "Compare these two designs";
    let enhanced = format!(
        "<images>\nThe first image is the EXPECTED/REFERENCE design (the target).\n\
         The second image is the ACTUAL/CURRENT implementation (what needs to be checked).\n\
         </images>\n\n{}",
        prompt
    );
    assert!(enhanced.contains("EXPECTED/REFERENCE"));
    assert!(enhanced.contains("ACTUAL/CURRENT"));
    assert!(enhanced.contains(prompt));
}
