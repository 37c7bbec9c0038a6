use wet_tweet_gpu::menus::flow::{
    choose_edit_field, choose_tweet, choose_user, delete_any_refusal, edit_lookup,
    empty_list_reply, list_header, moderator_delete_reply, promotion_reply, ListFlow,
};
use wet_tweet_gpu::gpu::{ColorName, Gpu, Text, WebShowGPU};
use wet_tweet_gpu::menus::flow::{
    create_user, user_from_hash, edit_field, edit_update_report, get_giris_value, get_home_value,
    get_tweeter_choice, home_to_tweeter_router, login_user, name_ok, password_too_long, sign_in,
    tbeeter_process, write_tweet, check_title, EditField, MenuAction,
};
use wet_tweet_gpu::menus::lists::{
    candidate_list, newest_first, select_index, tweet_list, user_list, ListStyle,
};
use wet_tweet_gpu::menus::screens::{
    all_tweets_full_show, all_tweets_show, draw_screen, giris_menu, home_menu, no_tweets_screen,
    random_tweet, show_error_gpu, tweeter_home_menu, your_tweets_screen,
};
use wet_tweet_gpu::oid::Oid;
use wet_tweet_gpu::tweeter::types::{AdminLevel, EditableTweetSection, Tweet, User};

fn user(name: &str, level: AdminLevel) -> User {
    User::new(None, name.to_string(), "x".to_string(), level)
}

fn tweet(author: &str, title: &str, body: &str, status: &str) -> Tweet {
    Tweet {
        id: None,
        author: author.to_string(),
        title: title.to_string(),
        tweet: body.to_string(),
        status: status.to_string(),
    }
}

fn screen(cells: usize, color: ColorName, row: usize, texts: Vec<Text>) -> String {
    let mut g = Gpu::new(cells);
    g.set_all(color.into());
    g.web_show(row, texts)
}

#[test]
fn entry_and_home_choices() {
    assert_eq!(get_giris_value(" 2 "), Some(2));
    assert_eq!(get_giris_value("0"), Some(0));
    assert_eq!(get_giris_value("3"), None);
    assert_eq!(get_giris_value("abc"), None);
    assert_eq!(get_giris_value("+1"), Some(1));
    assert_eq!(get_giris_value("-1"), None);
    assert_eq!(get_home_value("1"), Some(1));
    assert_eq!(get_home_value("2"), None);
}

#[test]
fn tweeter_choice_defaults_to_255() {
    assert_eq!(get_tweeter_choice("7"), Some(7));
    assert_eq!(get_tweeter_choice("x"), Some(255));
    assert_eq!(get_tweeter_choice("256"), Some(255));
    assert_eq!(get_tweeter_choice(" 7"), Some(255));
}

#[test]
fn home_router() {
    let (r, m) = home_to_tweeter_router(0);
    assert_eq!(r, Some(false));
    assert_eq!(m.unwrap(), "Ana menüye dönülüyor...");
    assert_eq!(home_to_tweeter_router(1), (Some(true), None));
    let (r, m) = home_to_tweeter_router(5);
    assert_eq!(r, None);
    assert_eq!(m.unwrap(), "Geçersiz seçim. Lütfen 0 veya 1 girin.");
}

#[test]
fn credential_checks() {
    assert!(name_ok("ali"));
    assert!(!name_ok("al"));
    assert!(!name_ok(""));
    assert!(!name_ok("abcdefghijklm"));
    assert!(!password_too_long("0123456789"));
    assert!(password_too_long("0123456789a"));
    assert!(password_too_long("ççççç1"));
}

#[test]
fn sign_in_and_login_outcomes() {
    // a cost-4 bcrypt hash of "password"
    let hash = "$2a$04$UuTkLRZZ6QofpDOlMz32MuuxEHA43WOemOYHPz6.SjsVsyO1tDU96";
    let stored = User::new(None, "pass".to_string(), hash.to_string(), AdminLevel::Author);
    assert_eq!(sign_in("pass", "word", Some(stored.clone())).unwrap(), stored);
    assert_eq!(sign_in("pass", "nope", Some(stored.clone())).unwrap_err(), "❌ Login error: invalid password");
    assert_eq!(sign_in("pass", "word", None).unwrap_err(), "❌ Login error: user not found");
    assert_eq!(login_user("password", Some(stored.clone())).unwrap(), stored);
    assert_eq!(login_user("nope", Some(stored.clone())).unwrap_err(), "❌ Şifre yanlış");
    assert_eq!(login_user("password", None).unwrap_err(), "❌ Kullanıcı bulunamadı");
    let broken = User::new(None, "x".to_string(), "short".to_string(), AdminLevel::Author);
    assert_eq!(
        login_user("password", Some(broken)).unwrap_err(),
        "Invalid hash: the hash format is malformed; expected 60 ASCII bytes"
    );
}

#[test]
fn created_user_is_a_customer() {
    let u = create_user("veli", "secret").unwrap();
    assert_eq!(u.name, "veli");
    assert_eq!(u.adminlevel, AdminLevel::Customer);
    assert!(!u.want_be_mod);
    assert!(u.id.is_none());
    assert_eq!(login_user("secret", Some(u.clone())).unwrap(), u);
}

#[test]
fn menu_process_by_level() {
    let mut c = user("c", AdminLevel::Customer);
    let (a, m, stay) = tbeeter_process(3, &mut c);
    assert_eq!(a, MenuAction::Message);
    assert_eq!(m, "Moderator olmak için başvurunuz alındı.");
    assert!(stay);
    assert!(c.want_be_mod);
    assert_eq!(tbeeter_process(4, &mut c).1, "bilinmeyen işlem.");
    assert_eq!(tbeeter_process(8, &mut c).1, "tanımlanamayan islem");
    assert_eq!(tbeeter_process(1, &mut c), (MenuAction::RandomTweet, String::new(), true));
    assert_eq!(tbeeter_process(0, &mut c), (MenuAction::Leave, "Tweeter'dan çıkılıyor...".to_string(), false));
    assert_eq!(tbeeter_process(42, &mut c), (MenuAction::Message, "Geçersiz seçim: 42".to_string(), true));

    let mut a = user("a", AdminLevel::Author);
    assert_eq!(tbeeter_process(3, &mut a).0, MenuAction::WriteTweet);
    assert_eq!(tbeeter_process(5, &mut a).0, MenuAction::DeleteOwn);
    assert!(!a.want_be_mod);
    assert_eq!(tbeeter_process(6, &mut a).1, "Regulator olmak icin basvuruldu");
    assert!(a.want_be_mod);
    assert_eq!(tbeeter_process(7, &mut a).1, "tanımlanamayan islem");

    let mut r = user("r", AdminLevel::Regulator);
    assert_eq!(tbeeter_process(6, &mut r).0, MenuAction::EditTweets);
    assert_eq!(tbeeter_process(7, &mut r).1, "Possibleator olmak icin basvuruldu");

    let mut p = user("p", AdminLevel::Possibleator);
    assert_eq!(tbeeter_process(6, &mut p).0, MenuAction::ApproveTweets);
    assert_eq!(tbeeter_process(7, &mut p).1, "Moderator olmak icin basvuruldu");

    let mut m = user("m", AdminLevel::Moderator);
    assert_eq!(tbeeter_process(5, &mut m).0, MenuAction::EditTweets);
    assert_eq!(tbeeter_process(6, &mut m).0, MenuAction::ApproveTweets);
    assert_eq!(tbeeter_process(7, &mut m).0, MenuAction::PromotionRequests);
    assert_eq!(tbeeter_process(8, &mut m).0, MenuAction::ShowAll);
    assert_eq!(tbeeter_process(9, &mut m).0, MenuAction::ListUsers);
    assert_eq!(tbeeter_process(10, &mut m).0, MenuAction::DeleteAny);
    assert!(!m.want_be_mod);
}

#[test]
fn write_tweet_menu_feedback() {
    assert_eq!(check_title("").unwrap(), "title gereken kraterlere uygun degil");
    assert_eq!(check_title(&"a".repeat(31)).unwrap(), "title gereken kraterlere uygun degil");
    assert!(check_title("hello").is_none());
    let author = user("a", AdminLevel::Author);
    let (t, m) = write_tweet(&author, "hi".to_string(), String::new());
    assert!(t.is_none());
    assert_eq!(m, "tweet mesajiniz gereken kraterlere uygun degil");
    let (t, m) = write_tweet(&author, "hi".to_string(), "there".to_string());
    assert_eq!(t.unwrap().status, "Editing");
    assert_eq!(m, "tweetiniz başarıyla gönderildi ve bekleyenler listesinde.");
    // a customer's refusal is not the empty-part reply, so success is reported
    let customer = user("c", AdminLevel::Customer);
    let (t, m) = write_tweet(&customer, "hi".to_string(), "there".to_string());
    assert!(t.is_none());
    assert_eq!(m, "tweetiniz başarıyla gönderildi ve bekleyenler listesinde.");
}

#[test]
fn edit_field_words() {
    assert_eq!(edit_field("title"), Some(EditField::Title));
    assert_eq!(edit_field("tweet"), Some(EditField::Tweet));
    assert_eq!(edit_field("status"), Some(EditField::Status));
    assert_eq!(edit_field("Title"), None);
    assert_eq!(EditField::Title.prompt(), "Yeni title: ");
    assert_eq!(
        EditField::Status.section("Edited".to_string()),
        EditableTweetSection::Status("Edited".to_string())
    );
    assert_eq!(edit_update_report(Ok(1)), "✅ Tweet database'de güncellendi.");
    assert_eq!(edit_update_report(Ok(0)), "❌ Hiçbir değişiklik yapılmadı.");
    assert_eq!(edit_update_report(Err("e".to_string())), "Hata: e");
}

#[test]
fn choosing_an_entry() {
    assert_eq!(select_index("1", 3), Some(1));
    assert_eq!(select_index("3", 3), None);
    assert_eq!(select_index("x", 3), None);
    assert_eq!(select_index("0", 0), None);
}

#[test]
fn tweet_lists() {
    let mut t = tweet("a", "T", "B", "Edited");
    t.id = Some(Oid::from_bytes([0xab; 12]));
    let tweets = vec![t, tweet("b", "T2", "B2", "Editing")];
    let s = tweet_list(ListStyle::Editing, &tweets);
    let expected = "Num : 0\nID: abababababababababababab\nTitle : T\nTweet : B\nAuthor: a\nStatus: Edited\n-------------------\n\
                    Num : 1\nID: Bilinmeyen ID\nTitle : T2\nTweet : B2\nAuthor: b\nStatus: Editing\n-------------------\n";
    assert_eq!(s, expected);
    let s = tweet_list(ListStyle::Approval, &tweets[1..].to_vec());
    assert_eq!(s, "Num : 0\nID   : Bilinmeyen ID\nTitle: T2\nTweet: B2\nAuthor: b\nStatus: Editing\n-------------------\n");
    let s = tweet_list(ListStyle::Deletion, &tweets[1..].to_vec());
    assert_eq!(s, "Num   : 0\nID    : Bilinmeyen ID\nTitle : T2\nTweet : B2\nAuthor: b\nStatus: Editing\n-------------------\n");
    let rev = newest_first(tweets.clone());
    assert_eq!(rev[0], tweets[1]);
    assert_eq!(rev[1], tweets[0]);
}

#[test]
fn user_lists() {
    let mut u = user("ali", AdminLevel::Regulator);
    u.want_be_mod = true;
    u.id = Some(Oid::from_bytes([0; 12]));
    let users = vec![u];
    assert_eq!(candidate_list(&users), "Num : 0\nİsim: ali\nSeviye: Regulator\n-------------------------\n");
    assert_eq!(
        user_list(&users),
        "Num        : 0\nID         : 000000000000000000000000\nİsim       : ali\nLevel      : 2\nMod İstek? : Evet\n-------------------\n"
    );
}

#[test]
fn fixed_screens() {
    assert_eq!(show_error_gpu("oops"), screen(300, ColorName::Red, 100, vec![Text::new("oops", 101)]));
    let entry = giris_menu();
    assert_eq!(
        entry,
        screen(
            600,
            ColorName::Green,
            100,
            vec![
                Text::new("Oncelikle uygulamamiza hos geldin ", 100),
                Text::new("Yapabilecegin islemler :", 200),
                Text::new("0. Exit ", 300),
                Text::new("1. Sign in ", 400),
                Text::new("2. Sign up ", 500),
            ]
        )
    );
    assert!(entry.contains("\x1b[32mS\x1b[0m"));
    assert_eq!(entry.matches('\n').count(), 6);
    assert_eq!(
        no_tweets_screen(),
        draw_screen(
            600,
            ColorName::Blue,
            100,
            vec![
                Text::new("Henüz tweet atmadiniz ya da ", 101),
                Text::new("tweetler yetkililer tarafindan silindi ya da", 201),
                Text::new("sistemsel sorun yasiyoruz. ", 301),
                Text::new("Eger sorun yasiyorsan bizim mesajlasma uygulamamizdan bize bildirirebilirsiniz", 401),
            ]
        )
    );
}

#[test]
fn home_and_service_menus() {
    let u = user("zeynep", AdminLevel::Moderator);
    let home = home_menu(&u);
    assert_eq!(home.matches('\n').count(), 12);
    assert!(home.contains("\x1b[32mz\x1b[0m\x1b[32me\x1b[0m\x1b[32my\x1b[0m"));
    let menu = tweeter_home_menu(&u);
    assert_eq!(menu.matches('\n').count(), 14);
    assert!(menu.contains("\x1b[34m1\x1b[0m\x1b[34m0\x1b[0m\x1b[34m.\x1b[0m"));
    let c = user("c", AdminLevel::Customer);
    assert_eq!(tweeter_home_menu(&c).matches('\n').count(), 7);
    assert_eq!(tweeter_home_menu(&user("a", AdminLevel::Author)).matches('\n').count(), 10);
}

#[test]
fn random_tweet_screens() {
    let t = tweet("au", "ti", "tw", "Approved");
    let s = random_tweet(Ok(Some(t)));
    let expected = screen(
        750,
        ColorName::Green,
        150,
        vec![
            Text::new("Author: ", 151),
            Text::new("Title: ", 301),
            Text::new("Tweet: ", 451),
            Text::new("au", 159),
            Text::new("ti", 308),
            Text::new("tw", 459),
        ],
    );
    assert_eq!(s, expected);
    assert_eq!(random_tweet(Ok(None)), screen(750, ColorName::Green, 150, vec![Text::new("Henuz tweet atilmamis.", 101)]));
    assert_eq!(
        random_tweet(Err("bad".to_string())),
        screen(
            750,
            ColorName::Green,
            150,
            vec![Text::new("Tweet cekilirken hata olustu.", 101), Text::new("bad", 123)]
        )
    );
}

#[test]
fn tweet_list_screens() {
    let tweets = vec![tweet("a1", "t1", "b1", "Approved"), tweet("a2", "t2", "b2", "Edited")];
    let expected = screen(
        1100,
        ColorName::Red,
        150,
        vec![
            Text::new("Author: ", 151),
            Text::new("a2", 201),
            Text::new("Title: ", 251),
            Text::new("t2", 301),
            Text::new("Tweet: ", 351),
            Text::new("b2", 401),
            Text::new("Author: ", 501),
            Text::new("a1", 551),
            Text::new("Title: ", 601),
            Text::new("t1", 651),
            Text::new("Tweet: ", 701),
            Text::new("b1", 751),
        ],
    );
    assert_eq!(all_tweets_show(&tweets), expected);
    let full = all_tweets_full_show(&tweets);
    let expected_full = screen(
        1100,
        ColorName::Red,
        150,
        vec![
            Text::new("Author: ", 151),
            Text::new("a2", 201),
            Text::new("Title: ", 251),
            Text::new("t2", 301),
            Text::new("Tweet: ", 351),
            Text::new("b2", 401),
            Text::new("Status: ", 451),
            Text::new("Edited", 501),
            Text::new("Author: ", 501),
            Text::new("a1", 551),
            Text::new("Title: ", 601),
            Text::new("t1", 651),
            Text::new("Tweet: ", 701),
            Text::new("b1", 751),
            Text::new("Status: ", 801),
            Text::new("Approved", 851),
        ],
    );
    assert_eq!(full, expected_full);
    let own = your_tweets_screen(&tweets);
    let expected_own = screen(
        900,
        ColorName::White,
        150,
        vec![
            Text::new("Title: ", 151),
            Text::new("t2", 201),
            Text::new("Tweet: ", 251),
            Text::new("b2", 301),
            Text::new("Status: ", 351),
            Text::new("Edited", 401),
            Text::new("Title: ", 501),
            Text::new("t1", 551),
            Text::new("Tweet: ", 601),
            Text::new("b1", 651),
            Text::new("Status: ", 701),
            Text::new("Approved", 751),
        ],
    );
    assert_eq!(own, expected_own);
}

#[test]
fn user_from_hash_outcomes() {
    let u = user_from_hash("veli", Ok("h".to_string())).unwrap();
    assert_eq!(u, User::new(None, "veli".to_string(), "h".to_string(), AdminLevel::Customer));
    assert_eq!(user_from_hash("veli", Err("rng".to_string())).unwrap_err(), "rng");
}

#[test]
fn list_menu_replies() {
    assert_eq!(empty_list_reply(ListFlow::Edit), "Düzenleme bekleyen tweet bulunamadı.");
    assert_eq!(empty_list_reply(ListFlow::Approve), "Onay bekleyen tweet bulunamadı.");
    assert_eq!(empty_list_reply(ListFlow::DeleteOwn), "❌ Silinebilecek tweet bulunamadı.");
    assert_eq!(empty_list_reply(ListFlow::DeleteAny), "❌ Hiç tweet bulunamadı.");
    assert_eq!(empty_list_reply(ListFlow::Promote), "Level atlamak isteyen kullanıcı yok.");
    assert_eq!(empty_list_reply(ListFlow::Users), "⚠️ Hiç kullanıcı bulunamadı.");
    assert_eq!(list_header(ListFlow::Edit), None);
    assert_eq!(list_header(ListFlow::Users).unwrap(), "📋 Kullanıcı Listesi:");
    assert_eq!(list_header(ListFlow::DeleteOwn).unwrap(), "📋 Kendi Tweetlerin:");

    let mut with_id = tweet("a", "t", "b", "Edited");
    let oid = Oid::from_bytes([5; 12]);
    with_id.id = Some(oid);
    let tweets = vec![with_id, tweet("b", "t", "b", "Edited")];
    assert_eq!(choose_tweet(ListFlow::Approve, &tweets, "0"), Ok(oid));
    assert_eq!(choose_tweet(ListFlow::Approve, &tweets, "1").unwrap_err(), "❌ Tweet ID'si bulunamadı.");
    assert_eq!(choose_tweet(ListFlow::Edit, &tweets, "1").unwrap_err(), "❌ Bu tweetin ID'si yok.");
    assert_eq!(choose_tweet(ListFlow::Edit, &tweets, "2").unwrap_err(), "❌ Geçersiz seçim.");
    let users = vec![user("u", AdminLevel::Author)];
    assert_eq!(choose_user(&users, "0"), Ok(0));
    assert_eq!(choose_user(&users, "x").unwrap_err(), "❌ Geçersiz seçim.");
    assert_eq!(choose_edit_field("tweet"), Ok(EditField::Tweet));
    assert_eq!(choose_edit_field("x").unwrap_err(), "❌ Geçersiz seçim.");
    assert_eq!(edit_lookup(None).unwrap_err(), "❌ Tweet bulunamadı.");
    assert_eq!(edit_lookup(Some(tweets[1].clone())).unwrap(), tweets[1]);
    assert!(delete_any_refusal(&user("m", AdminLevel::Moderator)).is_none());
    assert_eq!(
        delete_any_refusal(&user("r", AdminLevel::Possibleator)).unwrap(),
        "❌ Bu işlem sadece moderatörler tarafından yapılabilir."
    );
    assert_eq!(moderator_delete_reply("ok"), "✅ Moderatör işlemi: ok");
    assert_eq!(promotion_reply("ok"), "✅ ok");
}

#[test]
fn malformed_stored_hash_refuses() {
    let broken = User::new(None, "ali".to_string(), "x".repeat(59), AdminLevel::Author);
    assert_eq!(sign_in("ali", "pw", Some(broken)).unwrap_err(), "❌ Login error: invalid password");
}

fn stored_with(hash: String) -> User {
    User::new(None, "u".to_string(), hash, AdminLevel::Author)
}

#[test]
fn malformed_hash_errors_follow_bcrypt_order() {
    let good = "$2a$04$UuTkLRZZ6QofpDOlMz32MuuxEHA43WOemOYHPz6.SjsVsyO1tDU96";
    let with = |i: usize, c: char| -> String {
        let mut v: Vec<char> = good.chars().collect();
        v[i] = c;
        v.into_iter().collect()
    };
    assert_eq!(
        login_user("password", Some(stored_with(with(0, '!')))).unwrap_err(),
        "Invalid hash: the hash format is malformed"
    );
    assert_eq!(
        login_user("password", Some(stored_with(with(1, '3')))).unwrap_err(),
        "Invalid hash: the hash prefix is not a bcrypt prefix"
    );
    assert_eq!(
        login_user("password", Some(stored_with(with(4, 'a')))).unwrap_err(),
        "Invalid hash: the cost value is not a number"
    );
    assert_eq!(
        login_user("password", Some(stored_with(with(10, '!')))).unwrap_err(),
        "Invalid hash: the salt part is not valid base64"
    );
    assert!(login_user("password", Some(stored_with(with(40, '!')))).is_err());
    assert!(login_user("password", Some(stored_with(with(5, '3')))).is_err());
    assert!(sign_in("pass", "word", Some(stored_with(with(5, '3')))).is_err());
    assert!(login_user("password", Some(stored_with(good.to_string()))).is_ok());
}

#[test]
fn created_hash_has_bcrypt_form() {
    let u = create_user("ayse", "pw").unwrap();
    assert!(u.password.starts_with("$2b$12$"));
    assert_eq!(u.password.len(), 60);
}
