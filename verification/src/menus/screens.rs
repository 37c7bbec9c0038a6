//! The screens of the terminal interface, drawn on the character-cell
//! screen: a block of cells in one colour with texts laid over it.

use vstd::prelude::*;
use crate::gpu::Color;
use crate::gpu::ColorName;
use crate::gpu::Gpu;
use crate::gpu::Text;
use crate::gpu::WebShowGPU;
use crate::gpu::render;
use crate::gpu::rgb_of;
use crate::gpu::starts_ok;
use crate::gpu::text_views;
use crate::gpu::paint_range;
use crate::gpu::blank_cells;
use crate::gpu::cover;
use crate::gpu::covers;
use crate::gpu::lemma_first_cover;
use crate::tweeter::types::AdminLevel;
use crate::tweeter::types::Tweet;
use crate::tweeter::types::TweetView;
use crate::tweeter::types::User;
use crate::tweeter::rules::level_name_of;
use crate::menus::flow::MenuAction;
use crate::menus::flow::menu_action;
use crate::menus::flow::menu_message;
use crate::menus::flow::menu_requests_promotion;

verus! {

/// `n` cells of the named colour.
pub open spec fn filled(n: nat, c: ColorName) -> Seq<Color> {
    Seq::new(n, |i: int| rgb_of(c))
}

/// A screen of `n` cells of one colour, drawn in rows of `row_size` cells
/// with the texts laid over it.
pub open spec fn screen_of(
    n: nat,
    c: ColorName,
    row_size: usize,
    texts: Seq<(Seq<char>, usize)>,
) -> Seq<char> {
    render(filled(n, c), texts, row_size)
}

fn color_of(c: ColorName) -> (r: Color)
    ensures
        r == rgb_of(c),
{
    <(u8, u8, u8)>::from(c)
}

/// Draws `cells` cells of colour `color` in rows of `row_size` cells with
/// `texts` laid over them.
pub fn draw_screen(cells: usize, color: ColorName, row_size: usize, texts: Vec<Text>) -> (out:
    String)
    requires
        row_size > 0,
        starts_ok(text_views(texts@)),
    ensures
        out@ == screen_of(cells as nat, color, row_size, text_views(texts@)),
{
    let mut g = Gpu::new(cells);
    g.set_all(color_of(color));
    assert(g@ =~= filled(cells as nat, color));
    g.web_show(row_size, texts)
}

/// The texts of the error screen.
pub open spec fn error_texts(message: Seq<char>) -> Seq<(Seq<char>, usize)> {
    seq![(message, 101usize)]
}

/// The error screen: 300 red cells in rows of 100 with the message from
/// cell 101 on.
pub fn show_error_gpu(message: &str) -> (out: String)
    ensures
        out@ == screen_of(300, ColorName::Red, 100, error_texts(message@)),
{
    let texts = vec![Text::new(message, 101)];
    assert(text_views(texts@) =~= error_texts(message@));
    draw_screen(300, ColorName::Red, 100, texts)
}

/// The texts of the entry screen.
pub open spec fn entry_texts() -> Seq<(Seq<char>, usize)> {
    seq![
        ("Oncelikle uygulamamiza hos geldin "@, 100usize),
        ("Yapabilecegin islemler :"@, 200usize),
        ("0. Exit "@, 300usize),
        ("1. Sign in "@, 400usize),
        ("2. Sign up "@, 500usize),
    ]
}

/// The entry screen: 600 green cells in rows of 100 listing exit, sign in
/// and sign up.
pub fn giris_menu() -> (out: String)
    ensures
        out@ == screen_of(600, ColorName::Green, 100, entry_texts()),
{
    let texts = vec![
        Text::new("Oncelikle uygulamamiza hos geldin ", 100),
        Text::new("Yapabilecegin islemler :", 200),
        Text::new("0. Exit ", 300),
        Text::new("1. Sign in ", 400),
        Text::new("2. Sign up ", 500),
    ];
    assert(text_views(texts@) =~= entry_texts());
    draw_screen(600, ColorName::Green, 100, texts)
}

/// The texts of the home screen of a user.
pub open spec fn home_texts(name: Seq<char>, level: AdminLevel) -> Seq<(Seq<char>, usize)> {
    seq![
        ("Made By Yusa!"@, 201usize),
        ("Hosgeldin "@, 401usize),
        (name, 411usize),
        ("Seviye :"@, 601usize),
        (level_name_of(level), 609usize),
        ("Keyif ve eglence amacli yapilmistir."@, 801usize),
        ("Tweeter'i test etmelisin, tweet atip eglenebilirsin."@, 1001usize),
        ("Github: yusagulgor - Mesajlasma uyg.: yusa"@, 1201usize),
        ("Geri donusleriniz icin mesaj atabilirsiniz."@, 1401usize),
        ("Bunun gibi daha fazlasi icin github: yusagulgor"@, 1601usize),
        ("cikmak icin inputa 0 yaz"@, 2001usize),
        ("tweeter'a girmek icin ise 1 yaz inputa"@, 2201usize),
    ]
}

/// The home screen of a user: 2400 green cells in rows of 200 greeting the
/// user by name and level.
pub fn home_menu(user: &User) -> (out: String)
    ensures
        out@ == screen_of(2400, ColorName::Green, 200, home_texts(user.name@, user.adminlevel)),
{
    let texts = vec![
        Text::new("Made By Yusa!", 201),
        Text::new("Hosgeldin ", 401),
        Text::new(user.name.as_str(), 411),
        Text::new("Seviye :", 601),
        Text::new(user.adminlevel.level_name(), 609),
        Text::new("Keyif ve eglence amacli yapilmistir.", 801),
        Text::new("Tweeter'i test etmelisin, tweet atip eglenebilirsin.", 1001),
        Text::new("Github: yusagulgor - Mesajlasma uyg.: yusa", 1201),
        Text::new("Geri donusleriniz icin mesaj atabilirsiniz.", 1401),
        Text::new("Bunun gibi daha fazlasi icin github: yusagulgor", 1601),
        Text::new("cikmak icin inputa 0 yaz", 2001),
        Text::new("tweeter'a girmek icin ise 1 yaz inputa", 2201),
    ];
    assert(text_views(texts@) =~= home_texts(user.name@, user.adminlevel));
    draw_screen(2400, ColorName::Green, 200, texts)
}

/// The number of cells of the service menu for a level.
pub open spec fn tweeter_menu_cells(level: AdminLevel) -> nat {
    match level {
        AdminLevel::Customer => 1400,
        AdminLevel::Author => 2000,
        AdminLevel::Regulator => 2200,
        AdminLevel::Possibleator => 2200,
        AdminLevel::Moderator => 2800,
    }
}

/// The entries of the service menu that every level sees.
pub open spec fn tweeter_menu_common() -> Seq<(Seq<char>, usize)> {
    seq![
        ("Yapabilecegin islemler :"@, 201usize),
        ("0. Tweeter'dan cik"@, 401usize),
        ("1. Random tweet."@, 601usize),
        ("2. Tum tweetleri goruntule."@, 801usize),
    ]
}

/// The entries of the service menu that only this level sees.
pub open spec fn tweeter_menu_extra(level: AdminLevel) -> Seq<(Seq<char>, usize)> {
    match level {
        AdminLevel::Customer => seq![("3. Author olmak icin basvur."@, 1001usize)],
        AdminLevel::Author => seq![
            ("3. Yeni tweet at (NOT: istekler kabul edildikten sonra goruntulenebilir)."@, 1001usize),
            ("4. Tweetlerimi goruntule."@, 1201usize),
            ("5. Secilen tweetimi sil."@, 1401usize),
            ("6. Regulator olmak icin basvur."@, 1601usize),
        ],
        AdminLevel::Regulator => seq![
            ("3. Yeni tweet at (NOT: istekler kabul edildikten sonra goruntulenebilir)."@, 1001usize),
            ("4. Tweetlerimi goruntule."@, 1201usize),
            ("5. Secilen tweetimi sil."@, 1401usize),
            ("6. Tweetleri duzenle."@, 1601usize),
            ("7. Possibleator olmak icin basvur."@, 1801usize),
        ],
        AdminLevel::Possibleator => seq![
            ("3. Yeni tweet at (NOT: istekler kabul edildikten sonra goruntulenebilir)."@, 1001usize),
            ("4. Tweetlerimi goruntule."@, 1201usize),
            ("5. Secilen tweetimi sil."@, 1401usize),
            ("6. Gelen tweet isteklerine izin ver."@, 1601usize),
            ("7. Moderator olmak icin basvur."@, 1801usize),
        ],
        AdminLevel::Moderator => seq![
            ("3. Tweet at."@, 1001usize),
            ("4. Tweetlerimi goruntule."@, 1201usize),
            ("5. Tweetleri duzenle."@, 1401usize),
            ("6. Gelen tweet isteklerine izin ver."@, 1601usize),
            ("7. Gelen mod istekleri."@, 1801usize),
            ("8. Full show tweet."@, 2001usize),
            ("9. Kullanicilari goruntule."@, 2201usize),
            ("10.Tweet sil"@, 2401usize),
        ],
    }
}

fn push_text(texts: &mut Vec<Text>, s: &str, start: usize)
    ensures
        text_views(final(texts)@) == text_views(old(texts)@).push((s@, start)),
{
    let t = Text::new(s, start);
    texts.push(t);
    assert(text_views(final(texts)@) =~= text_views(old(texts)@).push((s@, start)));
}

/// The service menu for a user: blue cells in rows of 200 listing what the
/// user's level may do; higher levels get more cells.
pub fn tweeter_home_menu(user: &User) -> (out: String)
    ensures
        out@ == screen_of(
            tweeter_menu_cells(user.adminlevel),
            ColorName::Blue,
            200,
            tweeter_menu_common() + tweeter_menu_extra(user.adminlevel),
        ),
{
    let mut texts: Vec<Text> = Vec::new();
    push_text(&mut texts, "Yapabilecegin islemler :", 201);
    push_text(&mut texts, "0. Tweeter'dan cik", 401);
    push_text(&mut texts, "1. Random tweet.", 601);
    push_text(&mut texts, "2. Tum tweetleri goruntule.", 801);
    assert(text_views(texts@) =~= tweeter_menu_common());
    let cells: usize;
    match user.adminlevel {
        AdminLevel::Customer => {
            cells = 1400;
            push_text(&mut texts, "3. Author olmak icin basvur.", 1001);
        },
        AdminLevel::Author => {
            cells = 2000;
            push_text(
                &mut texts,
                "3. Yeni tweet at (NOT: istekler kabul edildikten sonra goruntulenebilir).",
                1001,
            );
            push_text(&mut texts, "4. Tweetlerimi goruntule.", 1201);
            push_text(&mut texts, "5. Secilen tweetimi sil.", 1401);
            push_text(&mut texts, "6. Regulator olmak icin basvur.", 1601);
        },
        AdminLevel::Regulator => {
            cells = 2200;
            push_text(
                &mut texts,
                "3. Yeni tweet at (NOT: istekler kabul edildikten sonra goruntulenebilir).",
                1001,
            );
            push_text(&mut texts, "4. Tweetlerimi goruntule.", 1201);
            push_text(&mut texts, "5. Secilen tweetimi sil.", 1401);
            push_text(&mut texts, "6. Tweetleri duzenle.", 1601);
            push_text(&mut texts, "7. Possibleator olmak icin basvur.", 1801);
        },
        AdminLevel::Possibleator => {
            cells = 2200;
            push_text(
                &mut texts,
                "3. Yeni tweet at (NOT: istekler kabul edildikten sonra goruntulenebilir).",
                1001,
            );
            push_text(&mut texts, "4. Tweetlerimi goruntule.", 1201);
            push_text(&mut texts, "5. Secilen tweetimi sil.", 1401);
            push_text(&mut texts, "6. Gelen tweet isteklerine izin ver.", 1601);
            push_text(&mut texts, "7. Moderator olmak icin basvur.", 1801);
        },
        AdminLevel::Moderator => {
            cells = 2800;
            push_text(&mut texts, "3. Tweet at.", 1001);
            push_text(&mut texts, "4. Tweetlerimi goruntule.", 1201);
            push_text(&mut texts, "5. Tweetleri duzenle.", 1401);
            push_text(&mut texts, "6. Gelen tweet isteklerine izin ver.", 1601);
            push_text(&mut texts, "7. Gelen mod istekleri.", 1801);
            push_text(&mut texts, "8. Full show tweet.", 2001);
            push_text(&mut texts, "9. Kullanicilari goruntule.", 2201);
            push_text(&mut texts, "10.Tweet sil", 2401);
        },
    }
    assert(text_views(texts@) =~= tweeter_menu_common() + tweeter_menu_extra(user.adminlevel));
    draw_screen(cells, ColorName::Blue, 200, texts)
}

/// The texts of the random-tweet screen, from what the draw gave: a tweet,
/// no tweet at all, or the error's text.
pub open spec fn random_tweet_texts(outcome: Result<Option<TweetView>, Seq<char>>) -> Seq<
    (Seq<char>, usize),
> {
    match outcome {
        Ok(Some(t)) => seq![
            ("Author: "@, 151usize),
            ("Title: "@, 301usize),
            ("Tweet: "@, 451usize),
            (t.author, 159usize),
            (t.title, 308usize),
            (t.tweet, 459usize),
        ],
        Ok(None) => seq![("Henuz tweet atilmamis."@, 101usize)],
        Err(e) => seq![("Tweet cekilirken hata olustu."@, 101usize), (e, 123usize)],
    }
}

/// The view of a drawn tweet, or of its error.
pub open spec fn draw_view(outcome: Result<Option<Tweet>, String>) -> Result<
    Option<TweetView>,
    Seq<char>,
> {
    match outcome {
        Ok(Some(t)) => Ok(Some(t@)),
        Ok(None) => Ok(None),
        Err(e) => Err(e@),
    }
}

/// The random-tweet screen: 750 green cells in rows of 150 showing the drawn
/// tweet's author, title and text, or that there is none, or the error.
pub fn random_tweet(outcome: Result<Option<Tweet>, String>) -> (out: String)
    ensures
        out@ == screen_of(750, ColorName::Green, 150, random_tweet_texts(draw_view(outcome))),
{
    let mut texts: Vec<Text> = Vec::new();
    match &outcome {
        Ok(Some(tweet)) => {
            push_text(&mut texts, "Author: ", 151);
            push_text(&mut texts, "Title: ", 301);
            push_text(&mut texts, "Tweet: ", 451);
            push_text(&mut texts, tweet.author.as_str(), 159);
            push_text(&mut texts, tweet.title.as_str(), 308);
            push_text(&mut texts, tweet.tweet.as_str(), 459);
        },
        Ok(None) => {
            push_text(&mut texts, "Henuz tweet atilmamis.", 101);
        },
        Err(e) => {
            push_text(&mut texts, "Tweet cekilirken hata olustu.", 101);
            push_text(&mut texts, e.as_str(), 123);
        },
    }
    assert(text_views(texts@) =~= random_tweet_texts(draw_view(outcome)));
    draw_screen(750, ColorName::Green, 150, texts)
}

/// The texts of one tweet on the list of tweets, from cell `y` on: author,
/// title and text, and the status when `with_status`.
pub open spec fn tweet_block(t: TweetView, y: int, with_status: bool) -> Seq<(Seq<char>, usize)> {
    let base = seq![
        ("Author: "@, y as usize),
        (t.author, (y + 50) as usize),
        ("Title: "@, (y + 100) as usize),
        (t.title, (y + 150) as usize),
        ("Tweet: "@, (y + 200) as usize),
        (t.tweet, (y + 250) as usize),
    ];
    if with_status {
        base + seq![("Status: "@, (y + 300) as usize), (t.status, (y + 350) as usize)]
    } else {
        base
    }
}

/// The texts of the list of tweets, the tweets in the order given, the
/// `k`-th from cell `151 + 350 * k` on.
pub open spec fn tweet_list_texts(ts: Seq<TweetView>, with_status: bool) -> Seq<(Seq<char>, usize)>
    decreases ts.len(),
{
    if ts.len() == 0 {
        Seq::empty()
    } else {
        tweet_list_texts(ts.drop_last(), with_status) + tweet_block(
            ts.last(),
            151 + 350 * (ts.len() - 1),
            with_status,
        )
    }
}

/// The views of a list of tweets, newest (last stored) first.
pub open spec fn newest_first_views(ts: Seq<Tweet>) -> Seq<TweetView> {
    ts.map_values(|t: Tweet| t@).reverse()
}

/// Number of cells of the list of `n` tweets.
pub open spec fn tweet_list_cells(n: nat) -> nat {
    ((n - 1) * 350 + 750) as nat
}

fn tweet_list_screen(tweets: &Vec<Tweet>, with_status: bool) -> (out: String)
    requires
        tweets@.len() > 0,
        tweets@.len() * 350 + 750 <= isize::MAX,
    ensures
        out@ == screen_of(
            tweet_list_cells(tweets@.len()),
            ColorName::Red,
            150,
            tweet_list_texts(newest_first_views(tweets@), with_status),
        ),
{
    let n = tweets.len();
    let ghost views = newest_first_views(tweets@);
    let mut texts: Vec<Text> = Vec::new();
    let mut y: usize = 151;
    let mut k: usize = 0;
    while k < n
        invariant
            n == tweets@.len(),
            n * 350 + 750 <= isize::MAX,
            k <= n,
            y == 151 + 350 * k,
            views == newest_first_views(tweets@),
            text_views(texts@) == tweet_list_texts(views.take(k as int), with_status),
            starts_ok(text_views(texts@)),
            forall|j: int| 0 <= j < texts@.len() ==> #[trigger] text_views(texts@)[j].1 <= y,
        decreases n - k,
    {
        let t = &tweets[n - 1 - k];
        assert(views[k as int] == t@);
        let ghost before = text_views(texts@);
        push_text(&mut texts, "Author: ", y);
        push_text(&mut texts, t.author.as_str(), y + 50);
        push_text(&mut texts, "Title: ", y + 100);
        push_text(&mut texts, t.title.as_str(), y + 150);
        push_text(&mut texts, "Tweet: ", y + 200);
        push_text(&mut texts, t.tweet.as_str(), y + 250);
        if with_status {
            push_text(&mut texts, "Status: ", y + 300);
            push_text(&mut texts, t.status.as_str(), y + 350);
        }
        assert(views.take(k + 1).drop_last() =~= views.take(k as int));
        assert(text_views(texts@) =~= before + tweet_block(views[k as int], y as int, with_status));
        y = y + 350;
        k = k + 1;
    }
    assert(views.take(n as int) =~= views);
    draw_screen((n - 1) * 350 + 750, ColorName::Red, 150, texts)
}

/// The list of approved tweets: red cells in rows of 150, newest first, each
/// tweet's author, title and text 350 cells after the previous tweet's.
/// There must be at least one tweet.
pub fn all_tweets_show(tweets: &Vec<Tweet>) -> (out: String)
    requires
        tweets@.len() > 0,
        tweets@.len() * 350 + 750 <= isize::MAX,
    ensures
        out@ == screen_of(
            tweet_list_cells(tweets@.len()),
            ColorName::Red,
            150,
            tweet_list_texts(newest_first_views(tweets@), false),
        ),
{
    tweet_list_screen(tweets, false)
}

/// The list of all tweets with their statuses: as `all_tweets_show`, with
/// each tweet's status after its text. There must be at least one tweet.
pub fn all_tweets_full_show(tweets: &Vec<Tweet>) -> (out: String)
    requires
        tweets@.len() > 0,
        tweets@.len() * 350 + 750 <= isize::MAX,
    ensures
        out@ == screen_of(
            tweet_list_cells(tweets@.len()),
            ColorName::Red,
            150,
            tweet_list_texts(newest_first_views(tweets@), true),
        ),
{
    tweet_list_screen(tweets, true)
}

/// The texts of the screen that says the user has no tweets.
pub open spec fn no_tweets_texts() -> Seq<(Seq<char>, usize)> {
    seq![
        ("Henüz tweet atmadiniz ya da "@, 101usize),
        ("tweetler yetkililer tarafindan silindi ya da"@, 201usize),
        ("sistemsel sorun yasiyoruz. "@, 301usize),
        ("Eger sorun yasiyorsan bizim mesajlasma uygulamamizdan bize bildirirebilirsiniz"@, 401usize),
    ]
}

/// The screen that says the user has no tweets: 600 blue cells in rows of 100.
pub fn no_tweets_screen() -> (out: String)
    ensures
        out@ == screen_of(600, ColorName::Blue, 100, no_tweets_texts()),
{
    let texts = vec![
        Text::new("Henüz tweet atmadiniz ya da ", 101),
        Text::new("tweetler yetkililer tarafindan silindi ya da", 201),
        Text::new("sistemsel sorun yasiyoruz. ", 301),
        Text::new("Eger sorun yasiyorsan bizim mesajlasma uygulamamizdan bize bildirirebilirsiniz", 401),
    ];
    assert(text_views(texts@) =~= no_tweets_texts());
    draw_screen(600, ColorName::Blue, 100, texts)
}

/// The texts of one of the user's own tweets, from cell `y` on: title, text
/// and status.
pub open spec fn own_tweet_block(t: TweetView, y: int) -> Seq<(Seq<char>, usize)> {
    seq![
        ("Title: "@, y as usize),
        (t.title, (y + 50) as usize),
        ("Tweet: "@, (y + 100) as usize),
        (t.tweet, (y + 150) as usize),
        ("Status: "@, (y + 200) as usize),
        (t.status, (y + 250) as usize),
    ]
}

/// The texts of the list of the user's own tweets in the order given, the
/// `k`-th from cell `151 + 350 * k` on.
pub open spec fn own_list_texts(ts: Seq<TweetView>) -> Seq<(Seq<char>, usize)>
    decreases ts.len(),
{
    if ts.len() == 0 {
        Seq::empty()
    } else {
        own_list_texts(ts.drop_last()) + own_tweet_block(ts.last(), 151 + 350 * (ts.len() - 1))
    }
}

/// Number of cells of the list of `n` own tweets.
pub open spec fn own_list_cells(n: nat) -> nat {
    ((n - 1) * 150 + 750) as nat
}

/// The list of the user's own tweets: `(n - 1) * 150 + 750` cells of
/// `White` in rows of 150, newest first, each tweet's title, text and status
/// 350 cells after the previous tweet's. There must be at least one tweet.
pub fn your_tweets_screen(tweets: &Vec<Tweet>) -> (out: String)
    requires
        tweets@.len() > 0,
        tweets@.len() * 350 + 750 <= isize::MAX,
    ensures
        out@ == screen_of(
            own_list_cells(tweets@.len()),
            ColorName::White,
            150,
            own_list_texts(newest_first_views(tweets@)),
        ),
{
    let n = tweets.len();
    let ghost views = newest_first_views(tweets@);
    let mut texts: Vec<Text> = Vec::new();
    let mut y: usize = 151;
    let mut k: usize = 0;
    while k < n
        invariant
            n == tweets@.len(),
            n * 350 + 750 <= isize::MAX,
            k <= n,
            y == 151 + 350 * k,
            views == newest_first_views(tweets@),
            text_views(texts@) == own_list_texts(views.take(k as int)),
            starts_ok(text_views(texts@)),
            forall|j: int| 0 <= j < texts@.len() ==> #[trigger] text_views(texts@)[j].1 <= y,
        decreases n - k,
    {
        let t = &tweets[n - 1 - k];
        assert(views[k as int] == t@);
        let ghost before = text_views(texts@);
        push_text(&mut texts, "Title: ", y);
        push_text(&mut texts, t.title.as_str(), y + 50);
        push_text(&mut texts, "Tweet: ", y + 100);
        push_text(&mut texts, t.tweet.as_str(), y + 150);
        push_text(&mut texts, "Status: ", y + 200);
        push_text(&mut texts, t.status.as_str(), y + 250);
        assert(views.take(k + 1).drop_last() =~= views.take(k as int));
        assert(text_views(texts@) =~= before + own_tweet_block(views[k as int], y as int));
        y = y + 350;
        k = k + 1;
    }
    assert(views.take(n as int) =~= views);
    draw_screen((n - 1) * 150 + 750, ColorName::White, 150, texts)
}

/// The service menu drawn for a level lists exactly what that level can do,
/// each entry naming what its choice leads to: the entry of choice `k`
/// stands on row `k + 2` of the screen (entry `k + 1` of the list, after the
/// heading), an entry is listed for choice `k` exactly when the choice does
/// more than print a refusal, the screen has two rows more than the list
/// has entries, and each label names the action of its choice.
pub proof fn law_service_menu_matches_actions(l: AdminLevel)
    ensures
        ({
            let menu = tweeter_menu_common() + tweeter_menu_extra(l);
            &&& tweeter_menu_cells(l) == 200 * (menu.len() + 2)
            &&& forall|j: int| 0 <= j < menu.len() ==> #[trigger] menu[j].1 == 201 + 200 * j
            &&& forall|k: u8|
                1 <= k <= 10 ==> ((k + 1 < menu.len()) <==> (#[trigger] menu_action(k, l)
                    != MenuAction::Message || menu_requests_promotion(k, l)))
            &&& menu[0].0 == "Yapabilecegin islemler :"@
            &&& menu[1].0 == "0. Tweeter'dan cik"@ && menu_action(0, l) == MenuAction::Leave
            &&& menu[2].0 == "1. Random tweet."@ && menu_action(1, l) == MenuAction::RandomTweet
            &&& menu[3].0 == "2. Tum tweetleri goruntule."@ && menu_action(2, l)
                == MenuAction::ShowApproved
            &&& (menu[4].0 == "3. Author olmak icin basvur."@) == menu_requests_promotion(3, l)
            &&& (menu[4].0
                == "3. Yeni tweet at (NOT: istekler kabul edildikten sonra goruntulenebilir)."@
                || menu[4].0 == "3. Tweet at."@) == (menu_action(3, l) == MenuAction::WriteTweet)
            &&& (menu.len() > 5 && menu[5].0 == "4. Tweetlerimi goruntule."@) == (menu_action(
                4,
                l,
            ) == MenuAction::ShowMine)
            &&& (menu.len() > 6 && menu[6].0 == "5. Secilen tweetimi sil."@) == (menu_action(
                5,
                l,
            ) == MenuAction::DeleteOwn)
            &&& (menu.len() > 6 && menu[6].0 == "5. Tweetleri duzenle."@) == (menu_action(5, l)
                == MenuAction::EditTweets)
            &&& (menu.len() > 7 && menu[7].0 == "6. Regulator olmak icin basvur."@)
                == menu_requests_promotion(6, l)
            &&& (menu.len() > 7 && menu[7].0 == "6. Tweetleri duzenle."@) == (menu_action(6, l)
                == MenuAction::EditTweets)
            &&& (menu.len() > 7 && menu[7].0 == "6. Gelen tweet isteklerine izin ver."@) == (
            menu_action(6, l) == MenuAction::ApproveTweets)
            &&& (menu.len() > 8 && menu[8].0 == "7. Possibleator olmak icin basvur."@) == (
            menu_requests_promotion(7, l) && menu_message(7, l)
                == "Possibleator olmak icin basvuruldu"@)
            &&& (menu.len() > 8 && menu[8].0 == "7. Moderator olmak icin basvur."@) == (
            menu_requests_promotion(7, l) && menu_message(7, l)
                == "Moderator olmak icin basvuruldu"@)
            &&& (menu.len() > 8 && menu[8].0 == "7. Gelen mod istekleri."@) == (menu_action(7, l)
                == MenuAction::PromotionRequests)
            &&& (menu.len() > 9 && menu[9].0 == "8. Full show tweet."@) == (menu_action(8, l)
                == MenuAction::ShowAll)
            &&& (menu.len() > 10 && menu[10].0 == "9. Kullanicilari goruntule."@) == (menu_action(
                9,
                l,
            ) == MenuAction::ListUsers)
            &&& (menu.len() > 11 && menu[11].0 == "10.Tweet sil"@) == (menu_action(10, l)
                == MenuAction::DeleteAny)
        }),
{
    reveal_strlit("Yapabilecegin islemler :");
    reveal_strlit("0. Tweeter'dan cik");
    reveal_strlit("1. Random tweet.");
    reveal_strlit("2. Tum tweetleri goruntule.");
    reveal_strlit("3. Author olmak icin basvur.");
    reveal_strlit("3. Yeni tweet at (NOT: istekler kabul edildikten sonra goruntulenebilir).");
    reveal_strlit("3. Tweet at.");
    reveal_strlit("4. Tweetlerimi goruntule.");
    reveal_strlit("5. Secilen tweetimi sil.");
    reveal_strlit("5. Tweetleri duzenle.");
    reveal_strlit("6. Regulator olmak icin basvur.");
    reveal_strlit("6. Tweetleri duzenle.");
    reveal_strlit("6. Gelen tweet isteklerine izin ver.");
    reveal_strlit("7. Possibleator olmak icin basvur.");
    reveal_strlit("7. Moderator olmak icin basvur.");
    reveal_strlit("7. Gelen mod istekleri.");
    reveal_strlit("8. Full show tweet.");
    reveal_strlit("9. Kullanicilari goruntule.");
    reveal_strlit("10.Tweet sil");
    reveal_strlit("Possibleator olmak icin basvuruldu");
    reveal_strlit("Moderator olmak icin basvuruldu");
    reveal_strlit("tanımlanamayan islem");
    assert("Yapabilecegin islemler :"@.len() == 24);
    assert("0. Tweeter'dan cik"@.len() == 18);
    assert("1. Random tweet."@.len() == 16);
    assert("2. Tum tweetleri goruntule."@.len() == 27);
    assert("3. Author olmak icin basvur."@.len() == 28);
    assert("3. Yeni tweet at (NOT: istekler kabul edildikten sonra goruntulenebilir)."@.len() == 73);
    assert("3. Tweet at."@.len() == 12);
    assert("4. Tweetlerimi goruntule."@.len() == 25);
    assert("5. Secilen tweetimi sil."@.len() == 24);
    assert("5. Tweetleri duzenle."@.len() == 21);
    assert("6. Regulator olmak icin basvur."@.len() == 31);
    assert("6. Tweetleri duzenle."@.len() == 21);
    assert("6. Gelen tweet isteklerine izin ver."@.len() == 36);
    assert("7. Possibleator olmak icin basvur."@.len() == 34);
    assert("7. Moderator olmak icin basvur."@.len() == 31);
    assert("7. Gelen mod istekleri."@.len() == 23);
    assert("8. Full show tweet."@.len() == 19);
    assert("9. Kullanicilari goruntule."@.len() == 27);
    assert("10.Tweet sil"@.len() == 12);
    assert("Possibleator olmak icin basvuruldu"@.len() == 34);
    assert("Moderator olmak icin basvuruldu"@.len() == 31);
    assert("tanımlanamayan islem"@.len() == 20);
    let menu = tweeter_menu_common() + tweeter_menu_extra(l);
    let head = tweeter_menu_common();
    let extra = tweeter_menu_extra(l);
    assert forall|j: int| 0 <= j < menu.len() implies #[trigger] menu[j].1 == 201 + 200 * j by {
        if j < 4 {
            assert(menu[j] == head[j]);
        } else {
            assert(menu[j] == extra[j - 4]);
        }
    }
    assert(menu[0] == head[0] && menu[1] == head[1] && menu[2] == head[2] && menu[3] == head[3]);
    assert forall|j: int| 4 <= j < menu.len() implies #[trigger] menu[j] == extra[j - 4] by {}
    assert(menu[4] == extra[0]);
    if menu.len() > 5 { assert(menu[5] == extra[1]); }
    if menu.len() > 6 { assert(menu[6] == extra[2]); }
    if menu.len() > 7 { assert(menu[7] == extra[3]); }
    if menu.len() > 8 { assert(menu[8] == extra[4]); }
    if menu.len() > 9 { assert(menu[9] == extra[5]); }
    if menu.len() > 10 { assert(menu[10] == extra[6]); }
    if menu.len() > 11 { assert(menu[11] == extra[7]); }
}

/// The texts of a list of tweets are the tweets' blocks one after another,
/// the `k`-th block `350 * k` cells after the first.
proof fn lemma_tweet_list_blocks(vs: Seq<TweetView>, with_status: bool, k: int)
    requires
        0 <= k < vs.len(),
    ensures
        tweet_list_texts(vs, with_status).len() == (if with_status {
            8int
        } else {
            6int
        }) * vs.len(),
        tweet_list_texts(vs, with_status).subrange(
            (if with_status {
                8int
            } else {
                6int
            }) * k,
            (if with_status {
                8int
            } else {
                6int
            }) * (k + 1),
        ) == tweet_block(vs[k], 151 + 350 * k, with_status),
    decreases vs.len(),
{
    let w: int = if with_status {
        8int
    } else {
        6int
    };
    let init = vs.drop_last();
    let all = tweet_list_texts(vs, with_status);
    let b = tweet_block(vs.last(), 151 + 350 * (vs.len() - 1), with_status);
    assert(b.len() == w);
    if k < vs.len() - 1 {
        lemma_tweet_list_blocks(init, with_status, k);
        let front = tweet_list_texts(init, with_status);
        assert(all == front + b);
        assert(init[k] == vs[k]);
        assert(all.subrange(w * k, w * (k + 1)) =~= front.subrange(w * k, w * (k + 1)));
    } else {
        if vs.len() > 1 {
            lemma_tweet_list_blocks(init, with_status, k - 1);
        }
        let front = tweet_list_texts(init, with_status);
        assert(front.len() == w * init.len());
        assert(all == front + b);
        assert(all.subrange(w * k, w * (k + 1)) =~= b);
    }
}

/// The list of tweets shows the newest tweet first: the `k`-th block of the
/// screen, from cell `151 + 350 * k` on, is the `k`-th tweet counted from
/// the last stored one, with its author 50 cells after the block's start,
/// its title 150 cells after, its text 250 cells after, and, on the full
/// list, its status 350 cells after.
pub proof fn law_tweet_list_newest_first(ts: Seq<Tweet>, with_status: bool, k: int)
    requires
        0 <= k < ts.len(),
        ts.len() * 350 + 750 <= usize::MAX,
    ensures
        ({
            let w: int = if with_status {
                8
            } else {
                6
            };
            let texts = tweet_list_texts(newest_first_views(ts), with_status);
            let t = ts[ts.len() - 1 - k]@;
            let y = 151 + 350 * k;
            &&& texts.len() == w * ts.len()
            &&& texts[w * k] == ("Author: "@, y as usize)
            &&& texts[w * k + 1] == (t.author, (y + 50) as usize)
            &&& texts[w * k + 2] == ("Title: "@, (y + 100) as usize)
            &&& texts[w * k + 3] == (t.title, (y + 150) as usize)
            &&& texts[w * k + 4] == ("Tweet: "@, (y + 200) as usize)
            &&& texts[w * k + 5] == (t.tweet, (y + 250) as usize)
            &&& with_status ==> texts[w * k + 6] == ("Status: "@, (y + 300) as usize)
                && texts[w * k + 7] == (t.status, (y + 350) as usize)
        }),
{
    let vs = newest_first_views(ts);
    assert(vs.len() == ts.len());
    assert(vs[k] == ts[ts.len() - 1 - k]@);
    lemma_tweet_list_blocks(vs, with_status, k);
    let w: int = if with_status {
        8
    } else {
        6
    };
    let texts = tweet_list_texts(vs, with_status);
    let blk = tweet_block(vs[k], 151 + 350 * k, with_status);
    assert forall|j: int| 0 <= j < w implies #[trigger] texts[w * k + j] == blk[j] by {
        assert(texts.subrange(w * k, w * (k + 1))[j] == texts[w * k + j]);
    }
    assert(texts[w * k + 0] == blk[0]);
    assert(texts[w * k + 1] == blk[1]);
    assert(texts[w * k + 2] == blk[2]);
    assert(texts[w * k + 3] == blk[3]);
    assert(texts[w * k + 4] == blk[4]);
    assert(texts[w * k + 5] == blk[5]);
    if with_status {
        assert(texts[w * k + 6] == blk[6]);
        assert(texts[w * k + 7] == blk[7]);
    }
}

/// The texts of a list of the user's own tweets are the tweets' blocks one
/// after another, the `k`-th block `350 * k` cells after the first.
proof fn lemma_own_list_blocks(vs: Seq<TweetView>, k: int)
    requires
        0 <= k < vs.len(),
    ensures
        own_list_texts(vs).len() == 6 * vs.len(),
        own_list_texts(vs).subrange(6 * k, 6 * k + 6) == own_tweet_block(vs[k], 151 + 350 * k),
    decreases vs.len(),
{
    let init = vs.drop_last();
    let all = own_list_texts(vs);
    let b = own_tweet_block(vs.last(), 151 + 350 * (vs.len() - 1));
    if k < vs.len() - 1 {
        lemma_own_list_blocks(init, k);
        let front = own_list_texts(init);
        assert(all == front + b);
        assert(init[k] == vs[k]);
        assert(all.subrange(6 * k, 6 * k + 6) =~= front.subrange(6 * k, 6 * k + 6));
    } else {
        if vs.len() > 1 {
            lemma_own_list_blocks(init, k - 1);
        }
        let front = own_list_texts(init);
        assert(front.len() == 6 * init.len());
        assert(all == front + b);
        assert(all.subrange(6 * k, 6 * k + 6) =~= b);
    }
}

/// The list of the user's own tweets shows the newest first: the `k`-th
/// block of the screen, from cell `151 + 350 * k` on, is the `k`-th tweet
/// counted from the last stored one, with its title 50 cells after the
/// block's start, its text 150 cells after and its status 250 cells after.
pub proof fn law_own_list_newest_first(ts: Seq<Tweet>, k: int)
    requires
        0 <= k < ts.len(),
        ts.len() * 350 + 750 <= usize::MAX,
    ensures
        ({
            let texts = own_list_texts(newest_first_views(ts));
            let t = ts[ts.len() - 1 - k]@;
            let y = 151 + 350 * k;
            &&& texts.len() == 6 * ts.len()
            &&& texts[6 * k] == ("Title: "@, y as usize)
            &&& texts[6 * k + 1] == (t.title, (y + 50) as usize)
            &&& texts[6 * k + 2] == ("Tweet: "@, (y + 100) as usize)
            &&& texts[6 * k + 3] == (t.tweet, (y + 150) as usize)
            &&& texts[6 * k + 4] == ("Status: "@, (y + 200) as usize)
            &&& texts[6 * k + 5] == (t.status, (y + 250) as usize)
        }),
{
    let vs = newest_first_views(ts);
    assert(vs.len() == ts.len());
    assert(vs[k] == ts[ts.len() - 1 - k]@);
    lemma_own_list_blocks(vs, k);
    let texts = own_list_texts(vs);
    let blk = own_tweet_block(vs[k], 151 + 350 * k);
    assert forall|j: int| 0 <= j < 6 implies #[trigger] texts[6 * k + j] == blk[j] by {
        assert(texts.subrange(6 * k, 6 * k + 6)[j] == texts[6 * k + j]);
    }
    assert(texts[6 * k + 0] == blk[0]);
    assert(texts[6 * k + 1] == blk[1]);
    assert(texts[6 * k + 2] == blk[2]);
    assert(texts[6 * k + 3] == blk[3]);
    assert(texts[6 * k + 4] == blk[4]);
    assert(texts[6 * k + 5] == blk[5]);
}

/// The home screen greets the user by name and level: from cell 411 on, just
/// after `Hosgeldin `, the cells show the user's name, and from cell 609
/// on, just after `Seviye :`, the name of the user's level (where the name
/// is short enough not to reach that row).
pub proof fn law_home_screen_greets_user(name: Seq<char>, level: AdminLevel, j: int)
    requires
        0 <= j,
    ensures
        j < name.len() ==> cover(home_texts(name, level), 411 + j) == Some(name[j]),
        ({
            let lname: Seq<char> = match level {
                AdminLevel::Customer => "Customer"@,
                AdminLevel::Author => "Author"@,
                AdminLevel::Regulator => "Regulator"@,
                AdminLevel::Possibleator => "Possibleator"@,
                AdminLevel::Moderator => "Moderator"@,
            };
            name.len() <= 198 && j < lname.len() ==> cover(home_texts(name, level), 609 + j)
                == Some(lname[j])
        }),
{
    reveal_strlit("Made By Yusa!");
    reveal_strlit("Hosgeldin ");
    reveal_strlit("Seviye :");
    let texts = home_texts(name, level);
    if j < name.len() {
        assert forall|i: int| 0 <= i < 2 implies !covers(#[trigger] texts[i], 411 + j) by {}
        lemma_first_cover(texts, 411 + j, 2);
    }
    if name.len() <= 198 && j < level_name_of(level).len() {
        assert forall|i: int| 0 <= i < 4 implies !covers(#[trigger] texts[i], 609 + j) by {}
        lemma_first_cover(texts, 609 + j, 4);
    }
}

/// The random-tweet screen shows the drawn tweet: its author from cell 159
/// on, just after `Author: `, its title from cell 308 on, just after
/// `Title: `, and its text from cell 459 on, just after `Tweet: `, each on
/// its own row as far as the fields before it do not run into that row.
pub proof fn law_random_tweet_shows_tweet(t: TweetView, j: int)
    requires
        0 <= j,
    ensures
        j < t.author.len() && 159 + j < 301 ==> cover(random_tweet_texts(Ok(Some(t))), 159 + j)
            == Some(t.author[j]),
        j < t.title.len() && 308 + j < 451 && t.author.len() <= 149 ==> cover(
            random_tweet_texts(Ok(Some(t))),
            308 + j,
        ) == Some(t.title[j]),
        j < t.tweet.len() && t.author.len() <= 142 && t.title.len() <= 143 ==> cover(
            random_tweet_texts(Ok(Some(t))),
            459 + j,
        ) == Some(t.tweet[j]),
{
    reveal_strlit("Author: ");
    reveal_strlit("Title: ");
    reveal_strlit("Tweet: ");
    let texts = random_tweet_texts(Ok(Some(t)));
    if j < t.author.len() && 159 + j < 301 {
        assert forall|i: int| 0 <= i < 3 implies !covers(#[trigger] texts[i], 159 + j) by {}
        lemma_first_cover(texts, 159 + j, 3);
    }
    if j < t.title.len() && 308 + j < 451 && t.author.len() <= 149 {
        assert forall|i: int| 0 <= i < 4 implies !covers(#[trigger] texts[i], 308 + j) by {}
        lemma_first_cover(texts, 308 + j, 4);
    }
    if j < t.tweet.len() && t.author.len() <= 142 && t.title.len() <= 143 {
        assert forall|i: int| 0 <= i < 5 implies !covers(#[trigger] texts[i], 459 + j) by {}
        lemma_first_cover(texts, 459 + j, 5);
    }
}

} // verus!
