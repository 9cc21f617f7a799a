//! The plan-synthesis pipeline: prompt rendering, request preparation,
//! strict reply validation, and the chat relay.

use study_planner::ai::{
    chat_reply, config_response, handle_plan_reply, mask_api_key, prepare_chat_request,
    prepare_plan_request, prepare_probe_request, resolve_config_input, AIConfig, ChatMessage,
    SaveAIConfigInput, ServiceOutcome,
};
use study_planner::errors::AppError;
use study_planner::preferences::{
    preference_response, validate_preference_input, SaveStudyPreferenceInput, StudyPhase,
    StudyPreferenceResponse,
};
use study_planner::prompt::{render_plan_prompt, AIContext};
use study_planner::suggestions::parse_suggestions;
use study_planner::timedate::Date;

fn config() -> AIConfig {
    AIConfig {
        id: 1,
        owner_id: 1,
        api_key: "sk-test-key-123456".to_string(),
        model_name: "Qwen/Qwen2.5-7B-Instruct".to_string(),
        api_endpoint: "https://api.siliconflow.cn/v1/chat/completions".to_string(),
    }
}

fn sprint_input() -> SaveStudyPreferenceInput {
    SaveStudyPreferenceInput {
        daily_hours: 8,
        start_time: "07:00".to_string(),
        end_time: "22:00".to_string(),
        lunch_break_start: "12:00".to_string(),
        lunch_break_end: "14:00".to_string(),
        study_phase: "sprint".to_string(),
        focus_subjects: vec![],
        weak_subjects: vec![],
        exam_date: None,
        notes: None,
    }
}

fn context() -> AIContext {
    AIContext {
        exam_date: None,
        subjects: vec!["Math".to_string(), "English".to_string()],
        incomplete_tasks: vec![],
        review_content: None,
    }
}

#[test]
fn rendered_prompt_names_the_phase_and_every_subject() {
    let pref = validate_preference_input(1, 1, sprint_input()).unwrap();
    assert_eq!(pref.phase, StudyPhase::Sprint);
    let today = Date { year: 2025, month: 6, day: 1 };
    let prompt = render_plan_prompt(Some(&pref), &context(), &vec![], &vec![], &today);
    assert!(prompt.contains("冲刺阶段"));
    assert!(prompt.contains("Math"));
    assert!(prompt.contains("English"));
    assert!(prompt.contains("每日学习时长: 8小时"));
    assert!(prompt.contains("学习时间: 07:00 - 22:00"));
}

#[test]
fn rendered_prompt_uses_defaults_without_preferences() {
    let today = Date { year: 2025, month: 6, day: 1 };
    let prompt = render_plan_prompt(None, &context(), &vec![], &vec![], &today);
    assert!(prompt.contains("学习时间: 07:00 - 22:00"));
    assert!(prompt.contains("午休时间: 12:00 - 14:00"));
}

#[test]
fn reply_with_one_object_parses_to_one_suggestion() {
    let reply = "[{\"start_time\":\"07:00\",\"end_time\":\"08:30\",\"content\":\"Review calculus Ch.3\",\"subject\":\"Math\"}]";
    let batch = parse_suggestions(reply).unwrap();
    assert_eq!(batch.len(), 1);
    assert_eq!(batch[0].start_time, "07:00");
    assert_eq!(batch[0].end_time, "08:30");
    assert_eq!(batch[0].content, "Review calculus Ch.3");
    assert_eq!(batch[0].subject, "Math");
}

#[test]
fn reply_that_is_not_an_array_is_malformed() {
    match parse_suggestions("{\"not\":\"an array\"}") {
        Err(AppError::MalformedSuggestions(raw)) => assert_eq!(raw, "{\"not\":\"an array\"}"),
        other => panic!("expected a malformed-suggestions error, got {other:?}"),
    }
}

#[test]
fn reply_missing_a_field_is_malformed_and_never_partially_accepted() {
    let reply = "[{\"start_time\":\"07:00\",\"end_time\":\"08:30\",\"content\":\"ok\",\"subject\":\"Math\"},{\"start_time\":\"09:00\",\"end_time\":\"10:00\",\"content\":\"x\"}]";
    assert!(matches!(
        parse_suggestions(reply),
        Err(AppError::MalformedSuggestions(_))
    ));
}

#[test]
fn reply_with_an_extra_field_is_malformed() {
    let reply = "[{\"start_time\":\"07:00\",\"end_time\":\"08:30\",\"content\":\"x\",\"subject\":\"Math\",\"note\":\"y\"}]";
    assert!(parse_suggestions(reply).is_err());
}

#[test]
fn reply_with_times_out_of_order_is_malformed() {
    let reply = "[{\"start_time\":\"09:00\",\"end_time\":\"08:30\",\"content\":\"x\",\"subject\":\"Math\"}]";
    assert!(parse_suggestions(reply).is_err());
    let equal = "[{\"start_time\":\"09:00\",\"end_time\":\"09:00\",\"content\":\"x\",\"subject\":\"Math\"}]";
    assert!(parse_suggestions(equal).is_err());
}

#[test]
fn reply_with_empty_content_or_subject_is_malformed() {
    let no_content = "[{\"start_time\":\"07:00\",\"end_time\":\"08:00\",\"content\":\"\",\"subject\":\"Math\"}]";
    assert!(parse_suggestions(no_content).is_err());
    let no_subject = "[{\"start_time\":\"07:00\",\"end_time\":\"08:00\",\"content\":\"x\",\"subject\":\"\"}]";
    assert!(parse_suggestions(no_subject).is_err());
}

#[test]
fn reply_parsing_tolerates_whitespace_and_decodes_escapes() {
    let reply = " [ { \"start_time\" : \"07:00\" ,\n\t\"end_time\": \"08:30\", \"content\": \"Review \\\"limits\\\"\\n\", \"subject\": \"数学\" } ] ";
    let batch = parse_suggestions(reply).unwrap();
    assert_eq!(batch[0].content, "Review \"limits\"\n");
    assert_eq!(batch[0].subject, "数学");
}

#[test]
fn empty_array_is_an_empty_batch() {
    assert_eq!(parse_suggestions("[]").unwrap().len(), 0);
    assert!(parse_suggestions("").is_err());
    assert!(parse_suggestions("[] trailing").is_err());
}

#[test]
fn missing_credential_is_not_configured_before_any_call() {
    let today = Date { year: 2025, month: 6, day: 1 };
    let r = prepare_plan_request(None, None, &context(), &vec![], &vec![], &today);
    assert_eq!(r.unwrap_err(), AppError::NotConfigured);
    assert_eq!(prepare_probe_request(None).unwrap_err(), AppError::NotConfigured);
    let chat = prepare_chat_request(None, "hi".to_string(), &vec![]);
    assert_eq!(chat.unwrap_err(), AppError::NotConfigured);
}

#[test]
fn plan_request_carries_the_prompt_as_the_sole_user_turn() {
    let cfg = config();
    let today = Date { year: 2025, month: 6, day: 1 };
    let req = prepare_plan_request(Some(&cfg), None, &context(), &vec![], &vec![], &today)
        .unwrap();
    assert_eq!(req.messages.len(), 1);
    assert_eq!(req.messages[0].role, "user");
    assert!(req.messages[0].content.contains("## 输出要求："));
    assert_eq!(req.max_tokens, 1000);
    assert_eq!(req.temperature_tenths, 7);
    assert_eq!(req.api_endpoint, cfg.api_endpoint);
}

#[test]
fn service_failure_surfaces_as_external_service_error() {
    let r = handle_plan_reply(ServiceOutcome::Failure("boom".to_string()));
    assert_eq!(r.unwrap_err(), AppError::ExternalServiceError("boom".to_string()));
    let c = chat_reply(ServiceOutcome::Failure("down".to_string()));
    assert_eq!(c.unwrap_err(), AppError::ExternalServiceError("down".to_string()));
}

#[test]
fn successful_reply_is_validated_strictly() {
    let good = ServiceOutcome::Success(Some(
        "[{\"start_time\":\"07:00\",\"end_time\":\"08:30\",\"content\":\"x\",\"subject\":\"Math\"}]".to_string(),
    ));
    assert_eq!(handle_plan_reply(good).unwrap().len(), 1);
    let empty = handle_plan_reply(ServiceOutcome::Success(None));
    assert!(matches!(empty, Err(AppError::MalformedSuggestions(_))));
}

#[test]
fn chat_request_keeps_only_the_ten_most_recent_turns() {
    let cfg = config();
    let history: Vec<ChatMessage> = (0..12)
        .map(|i| ChatMessage { role: "user".to_string(), content: format!("turn {i}") })
        .collect();
    let req = prepare_chat_request(Some(&cfg), "now".to_string(), &history).unwrap();
    // persona + 10 turns + the new message
    assert_eq!(req.messages.len(), 12);
    assert_eq!(req.messages[0].role, "system");
    assert_eq!(req.messages[1].content, "turn 2");
    assert_eq!(req.messages[10].content, "turn 11");
    assert_eq!(req.messages[11].content, "now");
    assert_eq!(req.messages[11].role, "user");
}

#[test]
fn chat_reply_falls_back_on_an_empty_success() {
    assert_eq!(
        chat_reply(ServiceOutcome::Success(None)).unwrap(),
        "抱歉，我暂时无法回答这个问题。"
    );
    assert_eq!(
        chat_reply(ServiceOutcome::Success(Some("答案".to_string()))).unwrap(),
        "答案"
    );
}

#[test]
fn config_defaults_apply_when_fields_are_omitted() {
    let cfg = resolve_config_input(
        1,
        1,
        SaveAIConfigInput { api_key: "k".to_string(), model_name: None, api_endpoint: None },
    );
    assert_eq!(cfg.model_name, "Qwen/Qwen2.5-7B-Instruct");
    assert_eq!(cfg.api_endpoint, "https://api.siliconflow.cn/v1/chat/completions");
}

#[test]
fn saved_keys_are_masked_for_display() {
    assert_eq!(mask_api_key("sk-12345678901"), "sk-1****8901");
    assert_eq!(mask_api_key("short"), "****");
    let shown = config_response(Some(&config()));
    assert!(shown.is_configured);
    assert!(!shown.api_key_masked.contains("sk-test-key-123456"));
    let absent = config_response(None);
    assert!(!absent.is_configured);
    assert_eq!(absent.api_key_masked, "");
}

#[test]
fn preference_validation_rejects_bad_times_and_keeps_good_ones() {
    let mut bad = sprint_input();
    bad.end_time = "25:00".to_string();
    assert!(matches!(
        validate_preference_input(1, 1, bad),
        Err(AppError::ValidationError(_))
    ));
    let mut odd = sprint_input();
    odd.start_time = "7:00".to_string();
    assert!(validate_preference_input(1, 1, odd).is_err());
    let pref = validate_preference_input(1, 1, sprint_input()).unwrap();
    assert_eq!(pref.start_minutes, 7 * 60);
    assert_eq!(pref.end_minutes, 22 * 60);
}

#[test]
fn preference_response_round_trips_the_times() {
    let mut input = sprint_input();
    input.exam_date = Some("2025-12-20".to_string());
    input.focus_subjects = vec!["数学".to_string()];
    let pref = validate_preference_input(9, 1, input).unwrap();
    let today = Date { year: 2025, month: 6, day: 1 };
    let resp = preference_response(&pref, &today);
    assert_eq!(resp.start_time, "07:00");
    assert_eq!(resp.end_time, "22:00");
    assert_eq!(resp.study_phase, "sprint");
    assert_eq!(resp.study_phase_label, "冲刺阶段");
    assert_eq!(resp.exam_date.as_deref(), Some("2025-12-20"));
    assert_eq!(resp.days_until_exam, Some(202));
    assert_eq!(resp.focus_subjects, vec!["数学".to_string()]);
}

#[test]
fn default_preference_response_matches_the_documented_defaults() {
    let d = StudyPreferenceResponse::default();
    assert_eq!(d.daily_hours, 8);
    assert_eq!(d.start_time, "07:00");
    assert_eq!(d.end_time, "22:00");
    assert_eq!(d.lunch_break_start, "12:00");
    assert_eq!(d.lunch_break_end, "14:00");
    assert_eq!(d.study_phase_label, "基础阶段");
    assert!(d.exam_date.is_none());
}

#[test]
fn reply_with_a_duplicated_field_is_malformed() {
    let reply = "[{\"start_time\":\"07:00\",\"start_time\":\"07:30\",\"end_time\":\"08:00\",\"subject\":\"Math\"}]";
    assert!(parse_suggestions(reply).is_err());
}

#[test]
fn reply_with_several_objects_keeps_their_order() {
    let reply = "[{\"start_time\":\"07:00\",\"end_time\":\"08:00\",\"content\":\"a\",\"subject\":\"M\"},{\"start_time\":\"08:00\",\"end_time\":\"09:00\",\"content\":\"b\",\"subject\":\"E\"}]";
    let batch = parse_suggestions(reply).unwrap();
    assert_eq!(batch.len(), 2);
    assert_eq!(batch[0].content, "a");
    assert_eq!(batch[1].content, "b");
}
