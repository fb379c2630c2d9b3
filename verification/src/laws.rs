//! Properties that hold across the operations of the library.

use vstd::prelude::*;
use crate::model::{Article, Settings};
use crate::reading_app::{
    AppCommand, AppMessage, AppView, after_messages, commands_for, message_command, has_id, id_differs, is_first_with_id,
    is_latest_index, latest, message_effect, upsert, without_id,
};
use crate::serve_config::{decimal_text, decimal_value, digit_char};
use crate::text::{
    is_emoji_spec, is_whitespace_spec, preview_spec, starts_word, without_emoji, word_count_spec,
};

verus! {

broadcast use vstd::seq_lib::group_seq_properties, vstd::seq_lib::group_filter_ensures;

/// No two articles of `s` share an id.
pub open spec fn ids_unique(s: Seq<Article>) -> bool {
    forall|i: int, j: int| 0 <= i < j < s.len() ==> #[trigger] s[i].id@ != #[trigger] s[j].id@
}

/// Whether every article list that a message delivers has unique ids.
pub open spec fn delivers_unique_ids(m: AppMessage) -> bool {
    match m {
        AppMessage::Initialized { articles, settings: _ } => ids_unique(articles@),
        AppMessage::ArticlesLoaded(articles) => ids_unique(articles@),
        _ => true,
    }
}

proof fn lemma_first_with_id_exists(s: Seq<Article>, id: Seq<char>) -> (k: int)
    requires
        has_id(s, id),
    ensures
        is_first_with_id(s, id, k),
    decreases s.len(),
{
    if has_id(s.drop_last(), id) {
        let k = lemma_first_with_id_exists(s.drop_last(), id);
        assert forall|j: int| 0 <= j < k implies #[trigger] s[j].id@ != id by {
            assert(s.drop_last()[j] == s[j]);
        }
        k
    } else {
        assert forall|j: int| 0 <= j < s.len() - 1 implies #[trigger] s[j].id@ != id by {
            assert(s.drop_last()[j] == s[j]);
        }
        s.len() - 1
    }
}

proof fn lemma_upsert_position(s: Seq<Article>, a: Article) -> (k: int)
    ensures
        has_id(s, a.id@) ==> is_first_with_id(s, a.id@, k) && upsert(s, a) == s.update(k, a),
        !has_id(s, a.id@) ==> k == s.len() && upsert(s, a) == s.push(a),
{
    if has_id(s, a.id@) {
        lemma_first_with_id_exists(s, a.id@);
        let k = choose|i: int| is_first_with_id(s, a.id@, i);
        k
    } else {
        s.len() as int
    }
}

/// Saving an article stores it under its id: afterwards the first article
/// with that id is the saved one, the list grows by one exactly when no
/// article had that id, and the saved article is the one selected.
pub proof fn lemma_saved_article_is_found(v: AppView, a: Article)
    ensures
        ({
            let w = message_effect(v, AppMessage::ArticleSaved(a));
            &&& exists|i: int| is_first_with_id(w.articles, a.id@, i) && w.articles[i] == a
            &&& w.articles.len() == v.articles.len() + if has_id(v.articles, a.id@) {
                0int
            } else {
                1int
            }
            &&& w.current_article == Some(a)
        }),
{
    let s = v.articles;
    let k = lemma_upsert_position(s, a);
    let w = upsert(s, a);
    assert(message_effect(v, AppMessage::ArticleSaved(a)).articles == w);
    if has_id(s, a.id@) {
        assert forall|j: int| 0 <= j < k implies #[trigger] w[j].id@ != a.id@ by {
            assert(w[j] == s[j]);
        }
        assert(is_first_with_id(w, a.id@, k) && w[k] == a);
    } else {
        assert forall|j: int| 0 <= j < k implies #[trigger] w[j].id@ != a.id@ by {
            assert(w[j] == s[j]);
        }
        assert(is_first_with_id(w, a.id@, k) && w[k] == a);
    }
}

proof fn lemma_filter_single_rejected(x: Article, id: Seq<char>)
    requires
        x.id@ == id,
    ensures
        without_id(seq![x], id) == Seq::<Article>::empty(),
{
    assert(seq![x] =~= Seq::<Article>::empty().push(x));
    Seq::<Article>::empty().lemma_filter_push(x, id_differs(id));
    reveal(Seq::filter);
}

/// Saving an article leaves every article with another id as it was, in
/// order: deleting the saved id afterwards gives the list that deleting it
/// before would give.
pub proof fn lemma_save_keeps_other_articles(s: Seq<Article>, a: Article)
    ensures
        without_id(upsert(s, a), a.id@) == without_id(s, a.id@),
{
    let id = a.id@;
    let pred = id_differs(id);
    let k = lemma_upsert_position(s, a);
    if has_id(s, id) {
        let w = s.update(k, a);
        let front = s.take(k);
        let back = s.skip(k + 1);
        assert(s =~= front + seq![s[k]] + back);
        assert(w =~= front + seq![a] + back);
        Seq::filter_distributes_over_add(front + seq![s[k]], back, pred);
        Seq::filter_distributes_over_add(front, seq![s[k]], pred);
        Seq::filter_distributes_over_add(front + seq![a], back, pred);
        Seq::filter_distributes_over_add(front, seq![a], pred);
        lemma_filter_single_rejected(s[k], id);
        lemma_filter_single_rejected(a, id);
    } else {
        s.lemma_filter_push(a, pred);
    }
}

/// Deleting an id removes every article with that id, keeps every article
/// with another id, and deselects the current article when it has that id.
pub proof fn lemma_deleted_article_is_gone(v: AppView, id: String)
    ensures
        ({
            let w = message_effect(v, AppMessage::ArticleDeleted(id));
            &&& !has_id(w.articles, id@)
            &&& forall|i: int|
                0 <= i < v.articles.len() && v.articles[i].id@ != id@ ==> w.articles.contains(
                    #[trigger] v.articles[i],
                )
            &&& w.current_article matches Some(c) ==> c.id@ != id@
        }),
{
    let w = message_effect(v, AppMessage::ArticleDeleted(id));
    let pred = id_differs(id@);
    assert forall|i: int| 0 <= i < w.articles.len() implies #[trigger] w.articles[i].id@ != id@ by {
        v.articles.lemma_filter_pred(pred, i);
    }
    assert forall|i: int|
        0 <= i < v.articles.len() && v.articles[i].id@ != id@ implies w.articles.contains(
        #[trigger] v.articles[i],
    ) by {
        v.articles.lemma_filter_contains(pred, i);
    }
}

proof fn lemma_filter_keeps_unique(s: Seq<Article>, id: Seq<char>)
    requires
        ids_unique(s),
    ensures
        ids_unique(without_id(s, id)),
    decreases s.len(),
{
    let pred = id_differs(id);
    if s.len() > 0 {
        let init = s.drop_last();
        let x = s.last();
        assert(s =~= init.push(x));
        assert forall|i: int, j: int| 0 <= i < j < init.len() implies #[trigger] init[i].id@
            != #[trigger] init[j].id@ by {
            assert(init[i] == s[i] && init[j] == s[j]);
        }
        lemma_filter_keeps_unique(init, id);
        init.lemma_filter_push(x, pred);
        let f = without_id(init, id);
        if pred(x) {
            assert forall|i: int| 0 <= i < f.len() implies #[trigger] f[i].id@ != x.id@ by {
                assert(f.contains(f[i]));
                init.lemma_filter_contains_rev(pred, f[i]);
                let j = choose|j: int| 0 <= j < init.len() && init[j] == f[i];
                assert(s[j] == init[j]);
                assert(s[j].id@ != s[s.len() - 1].id@);
            }
            let g = f.push(x);
            assert forall|i: int, j: int| 0 <= i < j < g.len() implies #[trigger] g[i].id@
                != #[trigger] g[j].id@ by {
                if j == g.len() - 1 {
                    assert(g[i] == f[i]);
                } else {
                    assert(g[i] == f[i] && g[j] == f[j]);
                }
            }
        }
    } else {
        reveal(Seq::filter);
    }
}

/// Every message keeps the article ids unique, provided the lists that
/// storage delivers have unique ids.
pub proof fn lemma_message_keeps_ids_unique(v: AppView, m: AppMessage)
    requires
        ids_unique(v.articles),
        delivers_unique_ids(m),
    ensures
        ids_unique(message_effect(v, m).articles),
{
    match m {
        AppMessage::ArticleSaved(a) => {
            let s = v.articles;
            let k = lemma_upsert_position(s, a);
            let w = upsert(s, a);
            if has_id(s, a.id@) {
                assert forall|i: int| 0 <= i < w.len() implies #[trigger] w[i].id@ == s[i].id@ by {}
            } else {
                assert forall|i: int, j: int| 0 <= i < j < w.len() implies #[trigger] w[i].id@
                    != #[trigger] w[j].id@ by {
                    if j == s.len() {
                        assert(w[i] == s[i]);
                    } else {
                        assert(w[i] == s[i] && w[j] == s[j]);
                    }
                }
            }
        },
        AppMessage::ArticleDeleted(id) => {
            lemma_filter_keeps_unique(v.articles, id@);
        },
        _ => {},
    }
}

/// Processing any sequence of messages keeps the article ids unique,
/// provided the lists that storage delivers have unique ids.
pub proof fn lemma_messages_keep_ids_unique(v: AppView, ms: Seq<AppMessage>)
    requires
        ids_unique(v.articles),
        forall|i: int| 0 <= i < ms.len() ==> delivers_unique_ids(#[trigger] ms[i]),
    ensures
        ids_unique(after_messages(v, ms).articles),
    decreases ms.len(),
{
    if ms.len() > 0 {
        lemma_message_keeps_ids_unique(v, ms[0]);
        assert forall|i: int| 0 <= i < ms.drop_first().len() implies delivers_unique_ids(
            #[trigger] ms.drop_first()[i],
        ) by {
            assert(ms.drop_first()[i] == ms[i + 1]);
        }
        lemma_messages_keep_ids_unique(message_effect(v, ms[0]), ms.drop_first());
    }
}

/// Processing messages in two batches gives the state and the storage work
/// that processing them in one batch gives.
pub proof fn lemma_batches_compose(v: AppView, a: Seq<AppMessage>, b: Seq<AppMessage>)
    ensures
        after_messages(v, a + b) == after_messages(after_messages(v, a), b),
        commands_for(v, a + b) == commands_for(v, a) + commands_for(after_messages(v, a), b),
    decreases a.len(),
{
    if a.len() == 0 {
        assert(a + b =~= b);
    } else {
        assert((a + b).drop_first() =~= a.drop_first() + b);
        assert((a + b)[0] == a[0]);
        lemma_batches_compose(message_effect(v, a[0]), a.drop_first(), b);
    }
}

proof fn lemma_latest_exists(s: Seq<Article>) -> (i: int)
    requires
        s.len() > 0,
    ensures
        is_latest_index(s, i),
    decreases s.len(),
{
    if s.len() == 1 {
        0
    } else {
        let init = s.drop_last();
        let k = lemma_latest_exists(init);
        assert forall|j: int| 0 <= j < init.len() implies #[trigger] s[j] == init[j] by {}
        if s[s.len() - 1].created_at >= s[k].created_at {
            s.len() - 1
        } else {
            k
        }
    }
}

/// When storage delivers a non-empty article list, the selected article is
/// one of the delivered articles and none of them is newer.
pub proof fn lemma_delivered_list_selects_newest(v: AppView, m: AppMessage)
    requires
        match m {
            AppMessage::Initialized { articles, settings: _ } => articles@.len() > 0,
            AppMessage::ArticlesLoaded(articles) => articles@.len() > 0,
            _ => false,
        },
    ensures
        ({
            let w = message_effect(v, m);
            &&& w.current_article matches Some(c) && w.articles.contains(c)
            &&& forall|j: int|
                0 <= j < w.articles.len() ==> #[trigger] w.articles[j].created_at
                    <= w.current_article->0.created_at
            &&& exists|i: int|
                0 <= i < w.articles.len() && w.current_article == Some(#[trigger] w.articles[i])
                    && forall|j: int|
                    i < j < w.articles.len() ==> #[trigger] w.articles[j].created_at
                        < w.articles[i].created_at
        }),
{
    let s = match m {
        AppMessage::Initialized { articles, settings: _ } => articles@,
        AppMessage::ArticlesLoaded(articles) => articles@,
        _ => Seq::empty(),
    };
    lemma_latest_exists(s);
    let k = choose|k: int| is_latest_index(s, k);
    assert(s[k] == latest(s));
}

/// Removing emoji twice removes nothing more, and no emoji is left.
pub proof fn lemma_strip_emoji_idempotent(s: Seq<char>)
    ensures
        without_emoji(without_emoji(s)) == without_emoji(s),
        forall|i: int|
            0 <= i < without_emoji(s).len() ==> !is_emoji_spec(#[trigger] without_emoji(s)[i]),
    decreases s.len(),
{
    let pred = |c: char| !is_emoji_spec(c);
    if s.len() > 0 {
        let init = s.drop_last();
        assert(s =~= init.push(s.last()));
        lemma_strip_emoji_idempotent(init);
        init.lemma_filter_push(s.last(), pred);
        if pred(s.last()) {
            without_emoji(init).lemma_filter_push(s.last(), pred);
        }
    } else {
        reveal(Seq::filter);
    }
    assert forall|i: int| 0 <= i < without_emoji(s).len() implies !is_emoji_spec(
        #[trigger] without_emoji(s)[i],
    ) by {
        s.lemma_filter_pred(pred, i);
    }
}

/// A preview keeps short content whole, begins with the content, and is
/// at most three characters longer than the limit.
pub proof fn lemma_preview_shape(s: Seq<char>, max_chars: nat)
    ensures
        s.len() <= max_chars ==> preview_spec(s, max_chars) == s,
        preview_spec(s, max_chars).len() <= max_chars + 3,
        ({
            let n = if s.len() < max_chars { s.len() as int } else { max_chars as int };
            preview_spec(s, max_chars).take(n) == s.take(n)
        }),
{
    let n = if s.len() < max_chars { s.len() as int } else { max_chars as int };
    reveal_strlit("...");
    if s.len() > max_chars {
        assert((s.take(max_chars as int) + "..."@).take(n) =~= s.take(n));
    }
}

/// A text has at most as many words as characters.
pub proof fn lemma_word_count_at_most_length(s: Seq<char>)
    ensures
        word_count_spec(s) <= s.len(),
    decreases s.len(),
{
    if s.len() > 0 {
        lemma_word_count_at_most_length(s.drop_last());
    }
}

/// The decimal notation of a number denotes that number, and begins with
/// "0" only for zero.
pub proof fn lemma_decimal_round_trip(n: nat)
    ensures
        decimal_value(decimal_text(n)) == n,
        decimal_text(n).len() >= 1,
        n > 0 ==> decimal_text(n)[0] != '0',
    decreases n,
{
    let t = decimal_text(n);
    let d = n % 10;
    assert((digit_char(d) as u32) == 48 + d);
    if n >= 10 {
        lemma_decimal_round_trip(n / 10);
        assert(t.drop_last() =~= decimal_text(n / 10));
        assert(t[0] == decimal_text(n / 10)[0]);
        assert(t.last() == digit_char(d));
        assert(decimal_value(t.drop_last()) == n / 10);
        assert(decimal_value(t) == decimal_value(t.drop_last()) * 10 + d);
        vstd::arithmetic::div_mod::lemma_fundamental_div_mod(n as int, 10);
    } else {
        assert(t.drop_last() =~= Seq::<char>::empty());
        assert(decimal_value(t.drop_last()) == 0);
        assert(d == n);
        assert(t.last() == digit_char(d));
    }
}

/// Opening storage takes the delivered articles and, when a settings record
/// was stored, exactly that record (font size included); without one the
/// settings stay as they were. Storage is then open, loading is over, the
/// error is cleared, and the editor and panels are left alone.
pub proof fn lemma_initialized_takes_stored_settings(
    v: AppView,
    articles: Vec<Article>,
    settings: Option<Settings>,
)
    ensures
        ({
            let w = message_effect(v, AppMessage::Initialized { articles, settings });
            &&& match settings {
                Some(s) => {
                    &&& w.settings == s
                    &&& w.settings.font_size_bits == s.font_size_bits
                    &&& w.settings.theme == s.theme
                    &&& w.settings.font_family == s.font_family
                    &&& w.settings.id == s.id
                },
                None => w.settings == v.settings,
            }
            &&& w.articles == articles@
            &&& w.storage_ready
            &&& !w.loading
            &&& w.error_message is None
            &&& w.show_settings == v.show_settings
            &&& w.show_editor == v.show_editor
            &&& w.editor_title == v.editor_title
            &&& w.editor_content == v.editor_content
            &&& w.editing_article_id == v.editing_article_id
            &&& articles@.len() == 0 ==> w.current_article == v.current_article
        }),
{
}

/// Reloading the article list replaces the list and clears the error; the
/// settings, the storage state, the editor and the panels stay as they were.
pub proof fn lemma_reload_keeps_settings(v: AppView, articles: Vec<Article>)
    ensures
        ({
            let w = message_effect(v, AppMessage::ArticlesLoaded(articles));
            &&& w.articles == articles@
            &&& w.error_message is None
            &&& w == (AppView {
                articles: articles@,
                error_message: None,
                current_article: w.current_article,
                ..v
            })
            &&& articles@.len() == 0 ==> w.current_article == v.current_article
        }),
{
}

/// A successful settings save changes nothing but the error message, which
/// it clears: in particular the settings stay as the user set them.
pub proof fn lemma_settings_saved_only_clears_error(v: AppView)
    ensures
        message_effect(v, AppMessage::SettingsSaved) == (AppView { error_message: None, ..v }),
        message_effect(v, AppMessage::SettingsSaved).settings == v.settings,
{
}

/// A storage error changes nothing but the error message, which becomes the
/// reported text.
pub proof fn lemma_data_error_only_sets_error(v: AppView, e: String)
    ensures
        message_effect(v, AppMessage::DataError(e)) == (AppView { error_message: Some(e@), ..v }),
{
}

/// A failed opening ends loading and reports "Initialization failed: "
/// followed by the cause; storage stays closed and nothing else changes.
pub proof fn lemma_initialization_failure_reports(v: AppView, e: String)
    ensures
        message_effect(v, AppMessage::InitializationFailed(e)) == (AppView {
            loading: false,
            error_message: Some("Initialization failed: "@ + e@),
            ..v
        }),
{
}

/// Saving an article closes and empties the editor and selects the article;
/// the settings, the storage state, loading, the error and the settings
/// panel stay as they were.
pub proof fn lemma_save_closes_editor(v: AppView, a: Article)
    ensures
        ({
            let w = message_effect(v, AppMessage::ArticleSaved(a));
            &&& w == (AppView {
                articles: w.articles,
                current_article: Some(a),
                show_editor: false,
                editor_title: Seq::empty(),
                editor_content: Seq::empty(),
                editing_article_id: None,
                ..v
            })
        }),
{
}

/// Deleting an article changes only the list, the selection and the error
/// (cleared); the selection is kept unless it has the deleted id.
pub proof fn lemma_delete_frame(v: AppView, id: String)
    ensures
        ({
            let w = message_effect(v, AppMessage::ArticleDeleted(id));
            &&& w == (AppView {
                articles: w.articles,
                current_article: w.current_article,
                error_message: None,
                ..v
            })
            &&& (v.current_article matches Some(c) && c.id@ != id@) ==> w.current_article
                == v.current_article
            &&& v.current_article is None ==> w.current_article is None
        }),
{
}

/// Whitespace is exactly the Unicode White_Space set: the ASCII controls
/// tab to carriage return and the space are whitespace, while every other
/// printable ASCII character (letters, digits, punctuation such as the
/// apostrophe) and every character beyond U+3000 is not.
/// Only a saved article asks for more storage work: reloading the list,
/// and only when storage is open.
pub proof fn lemma_only_saves_ask_for_reload(v: AppView, m: AppMessage)
    ensures
        message_command(v, m) == (if m is ArticleSaved && v.storage_ready {
            Some(AppCommand::LoadArticles)
        } else {
            None
        }),
{
}

/// No message leaves the state unchanged, one message is applied as itself,
/// and messages are applied first to last.
pub proof fn lemma_messages_apply_in_order(v: AppView, m: AppMessage, ms: Seq<AppMessage>)
    ensures
        after_messages(v, Seq::empty()) == v,
        commands_for(v, Seq::empty()) == Seq::<AppCommand>::empty(),
        after_messages(v, seq![m]) == message_effect(v, m),
        after_messages(v, seq![m] + ms) == after_messages(message_effect(v, m), ms),
{
    assert(seq![m].drop_first() =~= Seq::<AppMessage>::empty());
    assert(after_messages(message_effect(v, m), Seq::empty()) == message_effect(v, m));
    assert((seq![m] + ms).drop_first() =~= ms);
    assert((seq![m] + ms)[0] == m);
}

pub proof fn lemma_whitespace_characters(c: char)
    ensures
        (c as u32 == 0x20 || (0x09 <= c as u32 && c as u32 <= 0x0D)) ==> is_whitespace_spec(c),
        (0x21 <= c as u32 && c as u32 <= 0x7E) ==> !is_whitespace_spec(c),
        c as u32 > 0x3000 ==> !is_whitespace_spec(c),
        (0x0E <= c as u32 && c as u32 <= 0x1F) ==> !is_whitespace_spec(c),
        c as u32 <= 0x08 ==> !is_whitespace_spec(c),
{
}

/// Only whitespace separates words: a non-empty text without whitespace is
/// exactly one word.
pub proof fn lemma_text_without_whitespace_is_one_word(s: Seq<char>)
    requires
        s.len() > 0,
        forall|i: int| 0 <= i < s.len() ==> !is_whitespace_spec(#[trigger] s[i]),
    ensures
        word_count_spec(s) == 1,
    decreases s.len(),
{
    if s.len() > 1 {
        let t = s.drop_last();
        assert forall|i: int| 0 <= i < t.len() implies !is_whitespace_spec(#[trigger] t[i]) by {
            assert(t[i] == s[i]);
        }
        lemma_text_without_whitespace_is_one_word(t);
        assert(!starts_word(s, s.len() - 1));
    } else {
        assert(s.drop_last().len() == 0);
        assert(word_count_spec(s.drop_last()) == 0);
        assert(starts_word(s, 0));
    }
}

/// Joining two texts with a space gives as many words as the two texts
/// together.
pub proof fn lemma_words_of_joined_texts(a: Seq<char>, b: Seq<char>)
    ensures
        word_count_spec(a + seq![' '] + b) == word_count_spec(a) + word_count_spec(b),
    decreases b.len(),
{
    let sp = a + seq![' '];
    assert(is_whitespace_spec(' '));
    if b.len() == 0 {
        assert(sp + b =~= sp);
        assert(sp.drop_last() =~= a);
        assert(!starts_word(sp, sp.len() - 1));
        assert(word_count_spec(b) == 0);
    } else {
        let b0 = b.drop_last();
        lemma_words_of_joined_texts(a, b0);
        let s = sp + b;
        assert(s.drop_last() =~= sp + b0);
        let n = s.len() - 1;
        let m = b.len() - 1;
        assert(s[n] == b[m]);
        if m == 0 {
            assert(s[n - 1] == ' ');
            assert(starts_word(s, n) == starts_word(b, m));
        } else {
            assert(s[n - 1] == b[m - 1]);
            assert(starts_word(s, n) == starts_word(b, m));
        }
    }
}

/// The emoji that the log filter removes are exactly the code points
/// U+2600..=U+27BF and U+1F300..=U+1FAFF.
pub proof fn lemma_emoji_ranges(c: char)
    ensures
        is_emoji_spec(c) <==> ((0x2600 <= c as u32 && c as u32 <= 0x27BF) || (0x1F300 <= c as u32
            && c as u32 <= 0x1FAFF)),
{
}

/// Filtering a log line drops every character in U+2600..=U+27BF or
/// U+1F300..=U+1FAFF and keeps every other character of the line.
pub proof fn lemma_strip_emoji_drops_exactly_emoji(s: Seq<char>)
    ensures
        forall|i: int|
            0 <= i < without_emoji(s).len() ==> {
                let u = (#[trigger] without_emoji(s)[i]) as u32;
                !((0x2600 <= u && u <= 0x27BF) || (0x1F300 <= u && u <= 0x1FAFF))
            },
        forall|i: int|
            0 <= i < s.len() && !((0x2600 <= s[i] as u32 && s[i] as u32 <= 0x27BF) || (0x1F300
                <= s[i] as u32 && s[i] as u32 <= 0x1FAFF)) ==> without_emoji(s).contains(
                #[trigger] s[i],
            ),
{
    let pred = |c: char| !is_emoji_spec(c);
    assert forall|i: int| 0 <= i < without_emoji(s).len() implies {
        let u = (#[trigger] without_emoji(s)[i]) as u32;
        !((0x2600 <= u && u <= 0x27BF) || (0x1F300 <= u && u <= 0x1FAFF))
    } by {
        s.lemma_filter_pred(pred, i);
    }
    assert forall|i: int|
        0 <= i < s.len() && !((0x2600 <= s[i] as u32 && s[i] as u32 <= 0x27BF) || (0x1F300
            <= s[i] as u32 && s[i] as u32 <= 0x1FAFF)) implies without_emoji(s).contains(
        #[trigger] s[i],
    ) by {
        s.lemma_filter_contains(pred, i);
    }
}

/// A preview of content longer than the limit is the first `max_chars`
/// characters followed by three dots.
pub proof fn lemma_long_preview_is_truncated(s: Seq<char>, max_chars: nat)
    requires
        s.len() > max_chars,
    ensures
        preview_spec(s, max_chars).len() == max_chars + 3,
        preview_spec(s, max_chars).take(max_chars as int) == s.take(max_chars as int),
        preview_spec(s, max_chars).skip(max_chars as int) == seq!['.', '.', '.'],
{
    reveal_strlit("...");
    let p = s.take(max_chars as int) + "..."@;
    assert(p.take(max_chars as int) =~= s.take(max_chars as int));
    assert(p.skip(max_chars as int) =~= seq!['.', '.', '.']);
}

} // verus!
