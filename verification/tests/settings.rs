use meridian::settings::{
    app_settings_key, default_model, health_action_key, history_limit, include_completed,
    model_to_pull, ollama_base, ollama_status, theme_key, theme_or_default, ApiError, AppSettings,
};
use meridian::tasks::{complete_in, Task};

#[test]
fn default_settings() {
    let s = AppSettings::default();
    assert_eq!(s.theme, "dark");
    assert_eq!(s.scan_interval_mins, 60);
    assert_eq!((s.working_hours_start, s.working_hours_end), (9, 18));
    assert!(s.health_nudges && s.notifications);
    assert_eq!(s.news_topics, vec!["technology".to_string(), "ai".to_string()]);
    assert_eq!(s.user_name, "User");
    assert!(s.avatar_url.is_none());
}

#[test]
fn keys_and_defaults() {
    assert_eq!(app_settings_key(), "app_settings");
    assert_eq!(theme_key(), "theme");
    assert_eq!(theme_or_default(None), "dark");
    assert_eq!(theme_or_default(Some("light".to_string())), "light");
    assert_eq!(health_action_key("water"), "last_water");
    assert_eq!(history_limit(None), 7);
    assert_eq!(history_limit(Some(3)), 3);
    assert!(!include_completed(None));
    assert!(include_completed(Some(true)));
    assert_eq!(model_to_pull(None), "phi3:mini");
    assert_eq!(default_model(), "phi3:mini");
    assert_eq!(ollama_base(), "http://127.0.0.1:11434");
    assert_eq!(ApiError::from_message("x".to_string()).message, "x");
}

#[test]
fn status_needs_both() {
    let s = ollama_status(false, true);
    assert!(!s.model_ready);
    assert_eq!(s.model_name, "phi3:mini");
    assert!(ollama_status(true, true).model_ready);
}

fn task(id: &str) -> Task {
    Task {
        id: id.to_string(),
        title: "t".to_string(),
        description: None,
        due_at: None,
        completed: false,
        priority: "medium".to_string(),
        recurrence_rule: None,
        source_url: None,
        created_at: "c".to_string(),
        updated_at: "u".to_string(),
    }
}

#[test]
fn completing_a_task() {
    let t = complete_in(vec![task("a"), task("b")], "b").unwrap();
    assert_eq!(t.id, "b");
    assert!(t.completed);
    assert!(complete_in(vec![task("a")], "z").is_none());
}
