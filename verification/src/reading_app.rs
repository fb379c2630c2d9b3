//! The reading application's state and the decisions it takes.
//!
//! The application is driven from outside: user interface events call the
//! methods of [`ReadingApp`], which update the state and hand back the
//! storage work to perform as [`AppCommand`]s; when that work finishes, its
//! outcome comes back as [`AppMessage`]s, which [`ReadingApp::process_messages`]
//! applies in order.

use vstd::prelude::*;
use vstd::string::*;
use crate::model::{Article, Settings};
use crate::text::{joined, count_words, preview, preview_spec, word_count_spec};

verus! {

/// An outcome of storage work, delivered back to the application.
#[derive(Debug, PartialEq, Eq)]
pub enum AppMessage {
    /// Storage opened; the stored articles and settings were read.
    Initialized { articles: Vec<Article>, settings: Option<Settings> },
    /// Storage could not be opened.
    InitializationFailed(String),
    /// The article list was read again.
    ArticlesLoaded(Vec<Article>),
    /// An article was written.
    ArticleSaved(Article),
    /// The article with this id was deleted.
    ArticleDeleted(String),
    /// The settings were written.
    SettingsSaved,
    /// Some storage work failed, with this message.
    DataError(String),
}

/// Storage work that the application asks to be performed.
#[derive(Debug, PartialEq, Eq)]
pub enum AppCommand {
    /// Open storage and read the articles and settings.
    OpenStorage,
    /// Read all stored articles.
    LoadArticles,
    /// Insert or replace this article, keyed by its id.
    SaveArticle(Article),
    /// Delete the article with this id.
    DeleteArticle(String),
    /// Store these settings.
    SaveSettings(Settings),
}

/// The panel that the central area shows.
#[derive(Debug, PartialEq, Eq)]
pub enum Panel {
    Loading,
    Editor,
    Settings,
    Article,
    ArticleList,
}

/// The state of the reading application.
pub struct ReadingApp {
    /// Whether storage is open, so that storage work can be issued.
    pub storage_ready: bool,
    pub current_article: Option<Article>,
    pub articles: Vec<Article>,
    pub settings: Settings,
    pub loading: bool,
    pub error_message: Option<String>,
    pub show_settings: bool,
    pub show_editor: bool,
    pub editor_title: String,
    pub editor_content: String,
    pub editing_article_id: Option<String>,
}

/// The abstract state of the application, with texts as character sequences.
pub struct AppView {
    pub storage_ready: bool,
    pub current_article: Option<Article>,
    pub articles: Seq<Article>,
    pub settings: Settings,
    pub loading: bool,
    pub error_message: Option<Seq<char>>,
    pub show_settings: bool,
    pub show_editor: bool,
    pub editor_title: Seq<char>,
    pub editor_content: Seq<char>,
    pub editing_article_id: Option<Seq<char>>,
}

/// The characters of an optional text.
pub open spec fn text_of(o: Option<String>) -> Option<Seq<char>> {
    match o {
        Some(s) => Some(s@),
        None => None,
    }
}

impl View for ReadingApp {
    type V = AppView;

    open spec fn view(&self) -> AppView {
        AppView {
            storage_ready: self.storage_ready,
            current_article: self.current_article,
            articles: self.articles@,
            settings: self.settings,
            loading: self.loading,
            error_message: text_of(self.error_message),
            show_settings: self.show_settings,
            show_editor: self.show_editor,
            editor_title: self.editor_title@,
            editor_content: self.editor_content@,
            editing_article_id: text_of(self.editing_article_id),
        }
    }
}

/// `i` is the position of the newest article of `s`: no article is newer,
/// and every article after it is strictly older (the last of equally new
/// articles is chosen).
pub open spec fn is_latest_index(s: Seq<Article>, i: int) -> bool {
    &&& 0 <= i < s.len()
    &&& forall|j: int| 0 <= j < s.len() ==> #[trigger] s[j].created_at <= s[i].created_at
    &&& forall|j: int| i < j < s.len() ==> #[trigger] s[j].created_at < s[i].created_at
}

/// The newest article of a non-empty list (the last of equally new ones).
pub open spec fn latest(s: Seq<Article>) -> Article {
    s[choose|i: int| is_latest_index(s, i)]
}

/// `i` is the first position of `s` holding an article with this id.
pub open spec fn is_first_with_id(s: Seq<Article>, id: Seq<char>, i: int) -> bool {
    &&& 0 <= i < s.len()
    &&& s[i].id@ == id
    &&& forall|j: int| 0 <= j < i ==> #[trigger] s[j].id@ != id
}

/// Whether some article of `s` has this id.
pub open spec fn has_id(s: Seq<Article>, id: Seq<char>) -> bool {
    exists|i: int| 0 <= i < s.len() && #[trigger] s[i].id@ == id
}

/// `s` with `a` stored under its id: the first article with that id is
/// replaced by `a`, or `a` is appended when there is none.
pub open spec fn upsert(s: Seq<Article>, a: Article) -> Seq<Article> {
    if has_id(s, a.id@) {
        s.update(choose|i: int| is_first_with_id(s, a.id@, i), a)
    } else {
        s.push(a)
    }
}

/// `s` without the articles that have this id, the others kept in order.
pub open spec fn without_id(s: Seq<Article>, id: Seq<char>) -> Seq<Article> {
    s.filter(id_differs(id))
}

/// Whether an article's id differs from `id`.
pub open spec fn id_differs(id: Seq<char>) -> spec_fn(Article) -> bool {
    |a: Article| a.id@ != id
}

/// The state after one message.
pub open spec fn message_effect(v: AppView, m: AppMessage) -> AppView {
    match m {
        AppMessage::Initialized { articles, settings } => AppView {
            storage_ready: true,
            articles: articles@,
            settings: match settings {
                Some(s) => s,
                None => v.settings,
            },
            loading: false,
            error_message: None,
            current_article: if articles@.len() > 0 {
                Some(latest(articles@))
            } else {
                v.current_article
            },
            ..v
        },
        AppMessage::InitializationFailed(e) => AppView {
            loading: false,
            error_message: Some("Initialization failed: "@ + e@),
            ..v
        },
        AppMessage::ArticlesLoaded(articles) => AppView {
            articles: articles@,
            error_message: None,
            current_article: if articles@.len() > 0 {
                Some(latest(articles@))
            } else {
                v.current_article
            },
            ..v
        },
        AppMessage::ArticleSaved(a) => AppView {
            articles: upsert(v.articles, a),
            current_article: Some(a),
            show_editor: false,
            editor_title: Seq::empty(),
            editor_content: Seq::empty(),
            editing_article_id: None,
            ..v
        },
        AppMessage::ArticleDeleted(id) => AppView {
            articles: without_id(v.articles, id@),
            current_article: match v.current_article {
                Some(c) => if c.id@ == id@ {
                    None
                } else {
                    Some(c)
                },
                None => None,
            },
            error_message: None,
            ..v
        },
        AppMessage::SettingsSaved => AppView { error_message: None, ..v },
        AppMessage::DataError(e) => AppView { error_message: Some(e@), ..v },
    }
}

/// The storage work that one message asks for: reloading the article list
/// after an article was saved, when storage is open.
pub open spec fn message_command(v: AppView, m: AppMessage) -> Option<AppCommand> {
    match m {
        AppMessage::ArticleSaved(_) => if v.storage_ready {
            Some(AppCommand::LoadArticles)
        } else {
            None
        },
        _ => None,
    }
}

/// The state after a sequence of messages, applied in order.
pub open spec fn after_messages(v: AppView, ms: Seq<AppMessage>) -> AppView
    decreases ms.len(),
{
    if ms.len() == 0 {
        v
    } else {
        after_messages(message_effect(v, ms[0]), ms.drop_first())
    }
}

/// The storage work asked for by a sequence of messages, in order.
pub open spec fn commands_for(v: AppView, ms: Seq<AppMessage>) -> Seq<AppCommand>
    decreases ms.len(),
{
    if ms.len() == 0 {
        Seq::empty()
    } else {
        let first = match message_command(v, ms[0]) {
            Some(c) => seq![c],
            None => Seq::empty(),
        };
        first + commands_for(message_effect(v, ms[0]), ms.drop_first())
    }
}

/// A list has at most one newest position.
pub proof fn lemma_latest_index_unique(s: Seq<Article>, i: int, k: int)
    requires
        is_latest_index(s, i),
        is_latest_index(s, k),
    ensures
        i == k,
{
    if i < k {
        assert(s[k].created_at < s[i].created_at);
        assert(s[i].created_at <= s[k].created_at);
    } else if k < i {
        assert(s[i].created_at < s[k].created_at);
        assert(s[k].created_at <= s[i].created_at);
    }
}

/// A list has at most one first position for an id.
pub proof fn lemma_first_with_id_unique(s: Seq<Article>, id: Seq<char>, i: int, k: int)
    requires
        is_first_with_id(s, id, i),
        is_first_with_id(s, id, k),
    ensures
        i == k,
{
    if i < k {
        assert(s[i].id@ != id);
    } else if k < i {
        assert(s[k].id@ != id);
    }
}

/// Finds the position of the newest article (the last of equally new ones).
fn latest_article_index(articles: &Vec<Article>) -> (r: Option<usize>)
    ensures
        r is None <==> articles@.len() == 0,
        r matches Some(i) ==> is_latest_index(articles@, i as int),
{
    let n = articles.len();
    if n == 0 {
        return None;
    }
    let mut best: usize = 0;
    let mut i: usize = 1;
    while i < n
        invariant
            n == articles@.len(),
            1 <= i <= n,
            best < i,
            is_latest_index(articles@.take(i as int), best as int),
        decreases n - i,
    {
        proof {
            assert(articles@.take(i + 1) =~= articles@.take(i as int).push(articles@[i as int]));
        }
        if articles[i].created_at >= articles[best].created_at {
            best = i;
        }
        i = i + 1;
    }
    proof {
        assert(articles@.take(n as int) =~= articles@);
    }
    Some(best)
}

/// Finds the first position holding an article with the id `id`.
fn first_index_with_id(articles: &Vec<Article>, id: &String) -> (r: Option<usize>)
    ensures
        r matches Some(i) ==> is_first_with_id(articles@, id@, i as int),
        r is None ==> !has_id(articles@, id@),
{
    let n = articles.len();
    let mut i: usize = 0;
    while i < n
        invariant
            n == articles@.len(),
            i <= n,
            forall|j: int| 0 <= j < i ==> #[trigger] articles@[j].id@ != id@,
        decreases n - i,
    {
        if articles[i].id == *id {
            return Some(i);
        }
        i = i + 1;
    }
    None
}

/// Keeps the articles whose id differs from `id`, in order.
fn remove_with_id(articles: &Vec<Article>, id: &String) -> (r: Vec<Article>)
    ensures
        r@ == without_id(articles@, id@),
{
    let n = articles.len();
    let mut kept: Vec<Article> = Vec::new();
    let mut i: usize = 0;
    while i < n
        invariant
            n == articles@.len(),
            i <= n,
            kept@ == without_id(articles@.take(i as int), id@),
        decreases n - i,
    {
        proof {
            assert(articles@.take(i + 1).drop_last() =~= articles@.take(i as int));
            reveal_with_fuel(Seq::filter, 1);
        }
        if articles[i].id != *id {
            kept.push(articles[i].clone());
        }
        i = i + 1;
    }
    proof {
        assert(articles@.take(n as int) =~= articles@);
    }
    kept
}


/// Whether `c` is a lowercase hexadecimal digit.
pub open spec fn is_lower_hex(c: char) -> bool {
    ||| ('0' as u32 <= c as u32 && c as u32 <= '9' as u32)
    ||| ('a' as u32 <= c as u32 && c as u32 <= 'f' as u32)
}

/// Whether `s` is a random (version 4, RFC 4122 variant) UUID in lowercase
/// hyphenated form, such as "67e55044-10b1-426f-9247-bb680e5fe0c8".
pub open spec fn is_uuid_v4_text(s: Seq<char>) -> bool {
    &&& s.len() == 36
    &&& forall|i: int|
        0 <= i < 36 ==> if i == 8 || i == 13 || i == 18 || i == 23 {
            #[trigger] s[i] == '-'
        } else {
            is_lower_hex(s[i])
        }
    &&& s[14] == '4'
    &&& (s[19] == '8' || s[19] == '9' || s[19] == 'a' || s[19] == 'b')
}

/// A new article id: `uuid::Uuid::new_v4()` rendered by its `Display`
/// implementation, the 36-character lowercase hyphenated form, with the
/// version digit 4 and an RFC 4122 variant digit. Which UUID comes out
/// depends on the random number generator and is not stated.
#[verifier::external_body]
fn fresh_article_id() -> (id: String)
    ensures
        is_uuid_v4_text(id@),
{
    uuid::Uuid::new_v4().to_string()
}

/// The current time in seconds since the Unix epoch, from
/// `chrono::Utc::now().timestamp()`. Nothing is stated of the value: it
/// depends on the clock.
#[verifier::external_body]
fn current_timestamp() -> i64 {
    chrono::Utc::now().timestamp()
}

impl AppMessage {
    /// The outcome of reading the article list: the list, or an error
    /// message "Failed to load articles: " followed by the storage error.
    pub fn from_articles_load(result: Result<Vec<Article>, String>) -> (m: AppMessage)
        ensures
            match result {
                Ok(articles) => m == AppMessage::ArticlesLoaded(articles),
                Err(e) => m matches AppMessage::DataError(t) && t@ == "Failed to load articles: "@
                    + e@,
            },
    {
        match result {
            Ok(articles) => AppMessage::ArticlesLoaded(articles),
            Err(e) => AppMessage::DataError(joined("Failed to load articles: ", e.as_str())),
        }
    }

    /// The outcome of storing `article`: the saved article, or an error
    /// message "Failed to save article: " followed by the storage error.
    pub fn from_article_save(article: Article, result: Result<(), String>) -> (m: AppMessage)
        ensures
            match result {
                Ok(_) => m == AppMessage::ArticleSaved(article),
                Err(e) => m matches AppMessage::DataError(t) && t@ == "Failed to save article: "@
                    + e@,
            },
    {
        match result {
            Ok(_) => AppMessage::ArticleSaved(article),
            Err(e) => AppMessage::DataError(joined("Failed to save article: ", e.as_str())),
        }
    }

    /// The outcome of deleting the article `id`: the deleted id, or an error
    /// message "Failed to delete article: " followed by the storage error.
    pub fn from_article_delete(id: String, result: Result<(), String>) -> (m: AppMessage)
        ensures
            match result {
                Ok(_) => m == AppMessage::ArticleDeleted(id),
                Err(e) => m matches AppMessage::DataError(t) && t@ == "Failed to delete article: "@
                    + e@,
            },
    {
        match result {
            Ok(_) => AppMessage::ArticleDeleted(id),
            Err(e) => AppMessage::DataError(joined("Failed to delete article: ", e.as_str())),
        }
    }

    /// The outcome of storing the settings: success, or an error message
    /// "Failed to save settings: " followed by the storage error.
    pub fn from_settings_save(result: Result<(), String>) -> (m: AppMessage)
        ensures
            match result {
                Ok(_) => m is SettingsSaved,
                Err(e) => m matches AppMessage::DataError(t) && t@ == "Failed to save settings: "@
                    + e@,
            },
    {
        match result {
            Ok(_) => AppMessage::SettingsSaved,
            Err(e) => AppMessage::DataError(joined("Failed to save settings: ", e.as_str())),
        }
    }

    /// The messages that follow opening storage, given the outcomes of
    /// reading the articles and the settings: first `Initialized`, with the
    /// articles read (none when reading failed) and the settings read (none
    /// when reading failed), then one `DataError` for each failed read,
    /// articles first.
    pub fn from_initialization(
        articles: Result<Vec<Article>, String>,
        settings: Result<Option<Settings>, String>,
    ) -> (ms: Vec<AppMessage>)
        ensures
            ms@.len() == 1 + (if articles is Err { 1int } else { 0 }) + (if settings is Err {
                1int
            } else {
                0
            }),
            ms@[0] matches AppMessage::Initialized { articles: a, settings: s } && (match articles {
                Ok(v) => a == v,
                Err(_) => a@.len() == 0,
            }) && (match settings {
                Ok(v) => s == v,
                Err(_) => s is None,
            }),
            articles matches Err(e) ==> ms@[1] matches AppMessage::DataError(t) && t@
                == "Failed to load articles: "@ + e@,
            settings matches Err(e) ==> ms@[ms@.len() - 1] matches AppMessage::DataError(t) && t@
                == "Failed to load settings: "@ + e@,
    {
        let mut errors: Vec<AppMessage> = Vec::new();
        let loaded = match articles {
            Ok(v) => v,
            Err(e) => {
                errors.push(AppMessage::DataError(joined("Failed to load articles: ", e.as_str())));
                Vec::new()
            },
        };
        let stored = match settings {
            Ok(s) => s,
            Err(e) => {
                errors.push(AppMessage::DataError(joined("Failed to load settings: ", e.as_str())));
                None
            },
        };
        let mut ms: Vec<AppMessage> = Vec::new();
        ms.push(AppMessage::Initialized { articles: loaded, settings: stored });
        ms.append(&mut errors);
        ms
    }
}

impl ReadingApp {
    /// Whether `v` is the state in which the application starts: storage
    /// not yet open and loading, nothing selected, no articles, default
    /// settings, no error, no panel open and an empty editor.
    pub open spec fn is_initial(v: AppView) -> bool {
        &&& !v.storage_ready
        &&& v.current_article is None
        &&& v.articles.len() == 0
        &&& v.settings.is_default()
        &&& v.loading
        &&& v.error_message is None
        &&& !v.show_settings
        &&& !v.show_editor
        &&& v.editor_title.len() == 0
        &&& v.editor_content.len() == 0
        &&& v.editing_article_id is None
    }

    /// Creates the application state and the first storage work to perform:
    /// opening storage.
    pub fn new() -> (r: (ReadingApp, AppCommand))
        ensures
            Self::is_initial(r.0@),
            !r.0.storage_ready,
            r.0.loading,
            r.0.current_article is None,
            r.0.articles@.len() == 0,
            r.0.error_message is None,
            !r.0.show_settings,
            !r.0.show_editor,
            r.0.editor_title@.len() == 0,
            r.0.editor_content@.len() == 0,
            r.0.editing_article_id is None,
            r.0.settings.id@ == "default"@,
            r.0.settings.font_size_bits == 0x4180_0000u32,
            r.0.settings.font_family@ == "Default"@,
            r.0.settings.theme@ == "Light"@,
            r.1 is OpenStorage,
    {
        (Self::default(), AppCommand::OpenStorage)
    }

    /// Applies one storage outcome to the state, returning the storage work
    /// it asks for.
    pub fn apply_message(&mut self, message: AppMessage) -> (cmd: Option<AppCommand>)
        ensures
            final(self)@ == message_effect(old(self)@, message),
            cmd == message_command(old(self)@, message),
    {
        match message {
            AppMessage::Initialized { articles, settings } => {
                self.storage_ready = true;
                match latest_article_index(&articles) {
                    Some(i) => {
                        proof {
                            assert forall|k: int| is_latest_index(articles@, k) implies k == i by {
                                lemma_latest_index_unique(articles@, i as int, k);
                            }
                        }
                        self.current_article = Some(articles[i].clone());
                    },
                    None => {},
                }
                self.articles = articles;
                match settings {
                    Some(s) => {
                        self.settings = s;
                    },
                    None => {},
                }
                self.loading = false;
                self.error_message = None;
                None
            },
            AppMessage::InitializationFailed(error) => {
                self.loading = false;
                self.error_message = Some(joined("Initialization failed: ", error.as_str()));
                None
            },
            AppMessage::ArticlesLoaded(articles) => {
                match latest_article_index(&articles) {
                    Some(i) => {
                        proof {
                            assert forall|k: int| is_latest_index(articles@, k) implies k == i by {
                                lemma_latest_index_unique(articles@, i as int, k);
                            }
                        }
                        self.current_article = Some(articles[i].clone());
                    },
                    None => {},
                }
                self.articles = articles;
                self.error_message = None;
                None
            },
            AppMessage::ArticleSaved(article) => {
                match first_index_with_id(&self.articles, &article.id) {
                    Some(pos) => {
                        proof {
                            assert forall|k: int|
                                is_first_with_id(self.articles@, article.id@, k) implies k
                                == pos by {
                                lemma_first_with_id_unique(
                                    self.articles@,
                                    article.id@,
                                    pos as int,
                                    k,
                                );
                            }
                        }
                        self.articles.set(pos, article.clone());
                    },
                    None => {
                        self.articles.push(article.clone());
                    },
                }
                self.current_article = Some(article);
                self.show_editor = false;
                self.editor_title = String::new();
                self.editor_content = String::new();
                self.editing_article_id = None;
                self.load_articles()
            },
            AppMessage::ArticleDeleted(id) => {
                self.articles = remove_with_id(&self.articles, &id);
                let clear = match &self.current_article {
                    Some(current) => current.id == id,
                    None => false,
                };
                if clear {
                    self.current_article = None;
                }
                self.error_message = None;
                None
            },
            AppMessage::SettingsSaved => {
                self.error_message = None;
                None
            },
            AppMessage::DataError(error) => {
                self.error_message = Some(error);
                None
            },
        }
    }

    /// Applies queued storage outcomes in order, returning the storage work
    /// they ask for, in order.
    pub fn process_messages(&mut self, queued: Vec<AppMessage>) -> (cmds: Vec<AppCommand>)
        ensures
            final(self)@ == after_messages(old(self)@, queued@),
            cmds@ == commands_for(old(self)@, queued@),
    {
        let mut queue = queued;
        let mut cmds: Vec<AppCommand> = Vec::new();
        while queue.len() > 0
            invariant
                after_messages(self@, queue@) == after_messages(old(self)@, queued@),
                cmds@ + commands_for(self@, queue@) == commands_for(old(self)@, queued@),
            decreases queue.len(),
        {
            let ghost before = self@;
            let ghost rest = queue@;
            let message = queue.remove(0);
            proof {
                assert(rest.drop_first() =~= queue@);
            }
            let cmd = self.apply_message(message);
            match cmd {
                Some(c) => {
                    proof {
                        assert(cmds@.push(c) + commands_for(self@, queue@) =~= cmds@ + (seq![c]
                            + commands_for(self@, queue@)));
                    }
                    cmds.push(c);
                },
                None => {
                    proof {
                        assert(Seq::<AppCommand>::empty() + commands_for(self@, queue@)
                            =~= commands_for(self@, queue@));
                    }
                },
            }
        }
        proof {
            assert(cmds@ + Seq::<AppCommand>::empty() =~= cmds@);
        }
        cmds
    }


    /// Opens an empty editor for a new article, closing the settings.
    pub fn new_article(&mut self)
        ensures
            final(self)@ == (AppView {
                show_editor: true,
                show_settings: false,
                editor_title: Seq::empty(),
                editor_content: Seq::empty(),
                editing_article_id: None,
                ..old(self)@
            }),
    {
        self.show_editor = true;
        self.show_settings = false;
        self.editor_title = String::new();
        self.editor_content = String::new();
        self.editing_article_id = None;
    }

    /// Shows or hides the settings, closing the editor.
    pub fn toggle_settings(&mut self)
        ensures
            final(self)@ == (AppView {
                show_settings: !old(self).show_settings,
                show_editor: false,
                ..old(self)@
            }),
    {
        self.show_settings = !self.show_settings;
        self.show_editor = false;
    }

    /// Returns to the article list: closes the settings and the editor and
    /// deselects the current article.
    pub fn open_article_list(&mut self)
        ensures
            final(self)@ == (AppView {
                show_settings: false,
                show_editor: false,
                current_article: None,
                ..old(self)@
            }),
    {
        self.show_settings = false;
        self.show_editor = false;
        self.current_article = None;
    }

    /// Selects `article` for reading.
    pub fn open_article(&mut self, article: Article)
        ensures
            final(self)@ == (AppView { current_article: Some(article), ..old(self)@ }),
    {
        self.current_article = Some(article);
    }

    /// Opens the editor on `article`, to be saved under its id.
    pub fn edit_article(&mut self, article: &Article)
        ensures
            final(self)@ == (AppView {
                show_editor: true,
                editor_title: article.title@,
                editor_content: article.content@,
                editing_article_id: Some(article.id@),
                ..old(self)@
            }),
    {
        self.show_editor = true;
        self.editor_title = article.title.clone();
        self.editor_content = article.content.clone();
        self.editing_article_id = Some(article.id.clone());
    }

    /// Closes the editor and discards what it holds.
    pub fn cancel_editing(&mut self)
        ensures
            final(self)@ == (AppView {
                show_editor: false,
                editor_title: Seq::empty(),
                editor_content: Seq::empty(),
                editing_article_id: None,
                ..old(self)@
            }),
    {
        self.show_editor = false;
        self.editor_title = String::new();
        self.editor_content = String::new();
        self.editing_article_id = None;
    }

    /// The panel to show: the loading indicator while storage opens, else
    /// the editor, the settings, the selected article or the article list,
    /// in that order of precedence.
    pub fn panel(&self) -> (p: Panel)
        ensures
            p == (if self.loading {
                Panel::Loading
            } else if self.show_editor {
                Panel::Editor
            } else if self.show_settings {
                Panel::Settings
            } else if self.current_article is Some {
                Panel::Article
            } else {
                Panel::ArticleList
            }),
    {
        if self.loading {
            Panel::Loading
        } else if self.show_editor {
            Panel::Editor
        } else if self.show_settings {
            Panel::Settings
        } else if self.current_article.is_some() {
            Panel::Article
        } else {
            Panel::ArticleList
        }
    }

    /// Asks to store the current settings, when storage is open.
    pub fn save_settings(&self) -> (cmd: Option<AppCommand>)
        ensures
            cmd == (if self.storage_ready {
                Some(AppCommand::SaveSettings(self.settings))
            } else {
                None
            }),
    {
        if self.storage_ready {
            Some(AppCommand::SaveSettings(self.settings.clone()))
        } else {
            None
        }
    }

    /// The number of whitespace-separated words of `text`.
    pub fn calculate_word_count(text: &str) -> (r: usize)
        ensures
            r == word_count_spec(text@),
    {
        count_words(text)
    }

    /// The preview of `content`: its first `max_chars` characters, followed
    /// by "..." when it is longer.
    pub fn article_preview(content: &str, max_chars: usize) -> (r: String)
        ensures
            r@ == preview_spec(content@, max_chars as nat),
    {
        preview(content, max_chars)
    }

    /// The article that the editor describes, stamped `created_at`: stored
    /// under the id being edited, or under `fresh_id` for a new article; with
    /// the editor's title and content, the word count of the content and the
    /// given reading time.
    pub fn editor_article(&self, fresh_id: String, created_at: i64, reading_time_minutes: u32) -> (a:
        Article)
        ensures
            a.id@ == (match self.editing_article_id {
                Some(id) => id@,
                None => fresh_id@,
            }),
            a.title@ == self.editor_title@,
            a.content@ == self.editor_content@,
            a.created_at == created_at,
            a.word_count == word_count_spec(self.editor_content@),
            a.reading_time_minutes == reading_time_minutes,
    {
        let id = match &self.editing_article_id {
            Some(id) => id.clone(),
            None => fresh_id,
        };
        Article {
            id,
            title: self.editor_title.clone(),
            content: self.editor_content.clone(),
            created_at,
            word_count: count_words(self.editor_content.as_str()),
            reading_time_minutes,
        }
    }

    /// Submits the editor: when both the title and the content are
    /// non-empty, builds the article (under the id being edited, or a fresh
    /// random id; stamped with the current time; with its word count and the
    /// given reading time) and asks to store it when storage is open. The
    /// article is `editor_article` of a fresh id and of the clock read once
    /// here, for new and edited articles alike; what the clock returns is
    /// not stated.
    pub fn submit_editor(&self, reading_time_minutes: u32) -> (cmd: Option<AppCommand>)
        ensures
            match cmd {
                Some(AppCommand::SaveArticle(a)) => {
                    &&& self.storage_ready
                    &&& self.editor_title@.len() > 0
                    &&& self.editor_content@.len() > 0
                    &&& a.title@ == self.editor_title@
                    &&& a.content@ == self.editor_content@
                    &&& a.word_count == word_count_spec(self.editor_content@)
                    &&& a.reading_time_minutes == reading_time_minutes
                    &&& match self.editing_article_id {
                        Some(id) => a.id@ == id@,
                        None => is_uuid_v4_text(a.id@),
                    }
                },
                Some(_) => false,
                None => !(self.storage_ready && self.editor_title@.len() > 0
                    && self.editor_content@.len() > 0),
            },
    {
        if self.editor_title.as_str().is_empty() || self.editor_content.as_str().is_empty() {
            return None;
        }
        let fresh_id = match &self.editing_article_id {
            Some(_) => String::new(),
            None => fresh_article_id(),
        };
        let now = current_timestamp();
        let article = self.editor_article(fresh_id, now, reading_time_minutes);
        self.save_article(article)
    }

    /// Asks to reload the article list, when storage is open.
    pub fn load_articles(&self) -> (cmd: Option<AppCommand>)
        ensures
            cmd == (if self.storage_ready {
                Some(AppCommand::LoadArticles)
            } else {
                None
            }),
    {
        if self.storage_ready {
            Some(AppCommand::LoadArticles)
        } else {
            None
        }
    }

    /// Asks to store `article`, when storage is open.
    pub fn save_article(&self, article: Article) -> (cmd: Option<AppCommand>)
        ensures
            cmd == (if self.storage_ready {
                Some(AppCommand::SaveArticle(article))
            } else {
                None
            }),
    {
        if self.storage_ready {
            Some(AppCommand::SaveArticle(article))
        } else {
            None
        }
    }

    /// Asks to delete the article with id `id`, when storage is open.
    pub fn delete_article(&self, id: String) -> (cmd: Option<AppCommand>)
        ensures
            cmd == (if self.storage_ready {
                Some(AppCommand::DeleteArticle(id))
            } else {
                None
            }),
    {
        if self.storage_ready {
            Some(AppCommand::DeleteArticle(id))
        } else {
            None
        }
    }
}

impl Default for ReadingApp {
    fn default() -> (r: Self)
        ensures
            Self::is_initial(r@),
            !r.storage_ready,
            r.loading,
            r.current_article is None,
            r.articles@.len() == 0,
            r.error_message is None,
            !r.show_settings,
            !r.show_editor,
            r.editor_title@.len() == 0,
            r.editor_content@.len() == 0,
            r.editing_article_id is None,
            r.settings.id@ == "default"@,
            r.settings.font_size_bits == 0x4180_0000u32,
            r.settings.font_family@ == "Default"@,
            r.settings.theme@ == "Light"@,

    {
        ReadingApp {
            storage_ready: false,
            current_article: None,
            articles: Vec::new(),
            settings: Settings::default_settings(),
            loading: true,
            error_message: None,
            show_settings: false,
            show_editor: false,
            editor_title: String::new(),
            editor_content: String::new(),
            editing_article_id: None,
        }
    }
}

} // verus!
