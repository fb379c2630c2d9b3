use reading_app_web::model::{Article, Settings, DEFAULT_FONT_SIZE_BITS};
use reading_app_web::reading_app::{AppCommand, AppMessage, Panel, ReadingApp};

fn article(id: &str, title: &str, created_at: i64) -> Article {
    Article {
        id: id.to_string(),
        title: title.to_string(),
        content: format!("content of {title}"),
        created_at,
        word_count: 3,
        reading_time_minutes: 1,
    }
}

fn dark_settings() -> Settings {
    Settings {
        id: "default".to_string(),
        font_size_bits: 20.0f32.to_bits(),
        font_family: "Default".to_string(),
        theme: "Dark".to_string(),
    }
}

fn ready_app() -> ReadingApp {
    let (mut app, _) = ReadingApp::new();
    let cmds = app.process_messages(vec![AppMessage::Initialized { articles: Vec::new(), settings: None }]);
    assert!(cmds.is_empty());
    app
}

#[test]
fn new_app_starts_loading_and_opens_storage() {
    let (app, cmd) = ReadingApp::new();
    assert_eq!(cmd, AppCommand::OpenStorage);
    assert!(app.loading);
    assert!(!app.storage_ready);
    assert!(app.articles.is_empty());
    assert!(app.current_article.is_none());
    assert!(app.error_message.is_none());
    assert_eq!(app.settings.id, "default");
    assert_eq!(app.settings.font_size_bits, DEFAULT_FONT_SIZE_BITS);
    assert_eq!(f32::from_bits(app.settings.font_size_bits), 16.0);
    assert_eq!(app.settings.font_family, "Default");
    assert_eq!(app.settings.theme, "Light");
    assert!(!app.settings.uses_dark_theme());
    assert_eq!(app.panel(), Panel::Loading);
    let d = ReadingApp::default();
    assert!(d.loading);
}

#[test]
fn initialization_selects_newest_article_and_settings() {
    let (mut app, _) = ReadingApp::new();
    let articles = vec![article("a", "A", 10), article("b", "B", 30), article("c", "C", 30), article("d", "D", 5)];
    app.process_messages(vec![AppMessage::Initialized { articles, settings: Some(dark_settings()) }]);
    assert!(app.storage_ready);
    assert!(!app.loading);
    assert_eq!(app.articles.len(), 4);
    assert_eq!(app.current_article.as_ref().unwrap().id, "c");
    assert!(app.settings.uses_dark_theme());
    assert_eq!(app.panel(), Panel::Article);
}

#[test]
fn initialization_without_settings_keeps_defaults() {
    let app = ready_app();
    assert_eq!(app.settings.theme, "Light");
    assert!(app.current_article.is_none());
    assert_eq!(app.panel(), Panel::ArticleList);
}

#[test]
fn initialization_failure_reports_error() {
    let (mut app, _) = ReadingApp::new();
    app.process_messages(vec![AppMessage::InitializationFailed("no database".to_string())]);
    assert!(!app.loading);
    assert!(!app.storage_ready);
    assert_eq!(app.error_message.as_deref(), Some("Initialization failed: no database"));
}

#[test]
fn saving_new_article_appends_and_reloads() {
    let mut app = ready_app();
    app.new_article();
    app.editor_title = "T".to_string();
    let cmds = app.process_messages(vec![AppMessage::ArticleSaved(article("x", "X", 1))]);
    assert_eq!(cmds, vec![AppCommand::LoadArticles]);
    assert_eq!(app.articles.len(), 1);
    assert_eq!(app.current_article.as_ref().unwrap().id, "x");
    assert!(!app.show_editor);
    assert!(app.editor_title.is_empty());
    assert!(app.editor_content.is_empty());
    assert!(app.editing_article_id.is_none());
}

#[test]
fn saving_existing_article_replaces_first_with_id() {
    let mut app = ready_app();
    app.process_messages(vec![AppMessage::ArticlesLoaded(vec![article("a", "A", 1), article("b", "B", 2)])]);
    app.process_messages(vec![AppMessage::ArticleSaved(article("a", "A2", 3))]);
    assert_eq!(app.articles.len(), 2);
    assert_eq!(app.articles[0].title, "A2");
    assert_eq!(app.articles[1].title, "B");
}

#[test]
fn saving_without_storage_asks_for_nothing() {
    let (mut app, _) = ReadingApp::new();
    let cmds = app.process_messages(vec![AppMessage::ArticleSaved(article("x", "X", 1))]);
    assert!(cmds.is_empty());
    assert_eq!(app.articles.len(), 1);
    assert!(app.load_articles().is_none());
    assert!(app.save_article(article("y", "Y", 2)).is_none());
    assert!(app.delete_article("y".to_string()).is_none());
    assert!(app.save_settings().is_none());
}

#[test]
fn deleting_removes_article_and_selection() {
    let mut app = ready_app();
    app.process_messages(vec![
        AppMessage::ArticlesLoaded(vec![article("a", "A", 1), article("b", "B", 2)]),
        AppMessage::DataError("oops".to_string()),
    ]);
    assert_eq!(app.current_article.as_ref().unwrap().id, "b");
    assert_eq!(app.error_message.as_deref(), Some("oops"));
    app.process_messages(vec![AppMessage::ArticleDeleted("b".to_string())]);
    assert_eq!(app.articles.len(), 1);
    assert_eq!(app.articles[0].id, "a");
    assert!(app.current_article.is_none());
    assert!(app.error_message.is_none());
}

#[test]
fn deleting_other_article_keeps_selection() {
    let mut app = ready_app();
    app.process_messages(vec![AppMessage::ArticlesLoaded(vec![article("a", "A", 1), article("b", "B", 2)])]);
    app.process_messages(vec![AppMessage::ArticleDeleted("a".to_string())]);
    assert_eq!(app.current_article.as_ref().unwrap().id, "b");
}

#[test]
fn save_then_delete_restores_list() {
    let mut app = ready_app();
    app.process_messages(vec![AppMessage::ArticlesLoaded(vec![article("a", "A", 1)])]);
    app.process_messages(vec![
        AppMessage::ArticleSaved(article("n", "N", 9)),
        AppMessage::ArticleDeleted("n".to_string()),
    ]);
    assert_eq!(app.articles, vec![article("a", "A", 1)]);
}

#[test]
fn settings_saved_clears_error() {
    let mut app = ready_app();
    app.process_messages(vec![AppMessage::DataError("x".to_string()), AppMessage::SettingsSaved]);
    assert!(app.error_message.is_none());
}

#[test]
fn batches_give_same_result_as_one_queue() {
    let msgs = || {
        vec![
            AppMessage::ArticleSaved(article("a", "A", 1)),
            AppMessage::ArticleSaved(article("b", "B", 2)),
            AppMessage::ArticleDeleted("a".to_string()),
        ]
    };
    let mut one = ready_app();
    let c1 = one.process_messages(msgs());
    let mut two = ready_app();
    let mut m = msgs();
    let rest = m.split_off(1);
    let mut c2 = two.process_messages(m);
    c2.extend(two.process_messages(rest));
    assert_eq!(c1, c2);
    assert_eq!(one.articles, two.articles);
    assert_eq!(one.current_article, two.current_article);
    assert_eq!(c1.len(), 2);
}

#[test]
fn outcome_messages() {
    assert_eq!(AppMessage::from_articles_load(Ok(Vec::new())), AppMessage::ArticlesLoaded(Vec::new()));
    assert_eq!(
        AppMessage::from_articles_load(Err("e1".to_string())),
        AppMessage::DataError("Failed to load articles: e1".to_string())
    );
    assert_eq!(
        AppMessage::from_article_save(article("a", "A", 1), Ok(())),
        AppMessage::ArticleSaved(article("a", "A", 1))
    );
    assert_eq!(
        AppMessage::from_article_save(article("a", "A", 1), Err("e2".to_string())),
        AppMessage::DataError("Failed to save article: e2".to_string())
    );
    assert_eq!(AppMessage::from_article_delete("a".to_string(), Ok(())), AppMessage::ArticleDeleted("a".to_string()));
    assert_eq!(
        AppMessage::from_article_delete("a".to_string(), Err("e3".to_string())),
        AppMessage::DataError("Failed to delete article: e3".to_string())
    );
    assert_eq!(AppMessage::from_settings_save(Ok(())), AppMessage::SettingsSaved);
    assert_eq!(
        AppMessage::from_settings_save(Err("e4".to_string())),
        AppMessage::DataError("Failed to save settings: e4".to_string())
    );
}

#[test]
fn initialization_messages() {
    let ms = AppMessage::from_initialization(Ok(vec![article("a", "A", 1)]), Ok(Some(dark_settings())));
    assert_eq!(ms, vec![AppMessage::Initialized { articles: vec![article("a", "A", 1)], settings: Some(dark_settings()) }]);
    let ms = AppMessage::from_initialization(Err("x".to_string()), Err("y".to_string()));
    assert_eq!(
        ms,
        vec![
            AppMessage::Initialized { articles: Vec::new(), settings: None },
            AppMessage::DataError("Failed to load articles: x".to_string()),
            AppMessage::DataError("Failed to load settings: y".to_string()),
        ]
    );
    let ms = AppMessage::from_initialization(Ok(Vec::new()), Err("y".to_string()));
    assert_eq!(ms.len(), 2);
    assert_eq!(ms[1], AppMessage::DataError("Failed to load settings: y".to_string()));
}

#[test]
fn navigation_events() {
    let mut app = ready_app();
    app.toggle_settings();
    assert_eq!(app.panel(), Panel::Settings);
    app.new_article();
    assert!(!app.show_settings);
    assert_eq!(app.panel(), Panel::Editor);
    app.toggle_settings();
    assert!(!app.show_editor);
    assert_eq!(app.panel(), Panel::Settings);
    app.toggle_settings();
    app.open_article(article("a", "A", 1));
    assert_eq!(app.panel(), Panel::Article);
    app.open_article_list();
    assert_eq!(app.panel(), Panel::ArticleList);
    assert!(app.current_article.is_none());
}

#[test]
fn editing_and_cancelling() {
    let mut app = ready_app();
    let a = article("a", "Title", 1);
    app.edit_article(&a);
    assert!(app.show_editor);
    assert_eq!(app.editor_title, "Title");
    assert_eq!(app.editor_content, "content of Title");
    assert_eq!(app.editing_article_id.as_deref(), Some("a"));
    app.cancel_editing();
    assert!(!app.show_editor);
    assert!(app.editor_title.is_empty());
    assert!(app.editor_content.is_empty());
    assert!(app.editing_article_id.is_none());
}

#[test]
fn submit_requires_title_and_content() {
    let mut app = ready_app();
    app.new_article();
    assert!(app.submit_editor(1).is_none());
    app.editor_title = "T".to_string();
    assert!(app.submit_editor(1).is_none());
    app.editor_title = String::new();
    app.editor_content = "words here".to_string();
    assert!(app.submit_editor(1).is_none());
}

#[test]
fn submit_new_article_gets_fresh_id() {
    let mut app = ready_app();
    app.new_article();
    app.editor_title = "Title".to_string();
    app.editor_content = "one two three".to_string();
    let cmd = app.submit_editor(7).unwrap();
    let a = match cmd {
        AppCommand::SaveArticle(a) => a,
        other => panic!("unexpected command {other:?}"),
    };
    assert_eq!(a.title, "Title");
    assert_eq!(a.content, "one two three");
    assert_eq!(a.word_count, 3);
    assert_eq!(a.reading_time_minutes, 7);
    assert_eq!(a.id.len(), 36);
    let chars: Vec<char> = a.id.chars().collect();
    for (i, c) in chars.iter().enumerate() {
        if [8, 13, 18, 23].contains(&i) {
            assert_eq!(*c, '-');
        } else {
            assert!(c.is_ascii_hexdigit() && !c.is_ascii_uppercase());
        }
    }
    assert_eq!(chars[14], '4');
    assert!(a.created_at > 1_600_000_000);
    let b = match app.submit_editor(7).unwrap() {
        AppCommand::SaveArticle(b) => b,
        other => panic!("unexpected command {other:?}"),
    };
    assert_ne!(a.id, b.id);
}

#[test]
fn submit_edited_article_keeps_id() {
    let mut app = ready_app();
    app.edit_article(&article("keep", "Old", 1));
    app.editor_content = "new text".to_string();
    match app.submit_editor(1) {
        Some(AppCommand::SaveArticle(a)) => {
            assert_eq!(a.id, "keep");
            assert_eq!(a.title, "Old");
            assert_eq!(a.word_count, 2);
        }
        other => panic!("unexpected {other:?}"),
    }
}

#[test]
fn submit_without_storage_asks_for_nothing() {
    let (mut app, _) = ReadingApp::new();
    app.editor_title = "T".to_string();
    app.editor_content = "c".to_string();
    assert!(app.submit_editor(1).is_none());
}

#[test]
fn commands_when_ready() {
    let app = ready_app();
    assert_eq!(app.load_articles(), Some(AppCommand::LoadArticles));
    assert_eq!(app.delete_article("a".to_string()), Some(AppCommand::DeleteArticle("a".to_string())));
    assert_eq!(app.save_article(article("a", "A", 1)), Some(AppCommand::SaveArticle(article("a", "A", 1))));
    match app.save_settings() {
        Some(AppCommand::SaveSettings(s)) => assert_eq!(s, app.settings),
        other => panic!("unexpected {other:?}"),
    }
}
