use std::cmp::Ordering;
use wet_tweet_gpu::oid::Oid;
use wet_tweet_gpu::tweeter::nwt;
use wet_tweet_gpu::tweeter::rules::{
    add_user_outcome, delete_own_report, delete_tweet_after_lookup, delete_tweet_report, hash_pwd,
    verify_pwd,
};
use wet_tweet_gpu::tweeter::types::{AdminLevel, EditableTweetSection, Tweet, User};

fn user(name: &str, level: AdminLevel) -> User {
    User::new(None, name.to_string(), "x".to_string(), level)
}

fn tweet(author: &str, status: &str) -> Tweet {
    Tweet {
        id: Some(Oid::from_bytes([1; 12])),
        author: author.to_string(),
        title: "t".to_string(),
        tweet: "body".to_string(),
        status: status.to_string(),
    }
}

const LEVELS: [AdminLevel; 5] = [
    AdminLevel::Customer,
    AdminLevel::Author,
    AdminLevel::Regulator,
    AdminLevel::Possibleator,
    AdminLevel::Moderator,
];

#[test]
fn level_names_and_values() {
    let names = ["Customer", "Author", "Regulator", "Possibleator", "Moderator"];
    for (i, l) in LEVELS.iter().enumerate() {
        assert_eq!(l.level_name(), names[i]);
        assert_eq!(l.level_value() as usize, i);
    }
    assert!(AdminLevel::Customer < AdminLevel::Author);
    assert!(AdminLevel::Possibleator < AdminLevel::Moderator);
}

#[test]
fn name_check() {
    assert_eq!(nwt(""), "Name is cannot be empty");
    assert_eq!(nwt("ab"), "Name is cannot be lesser than the 3 charracter");
    assert_eq!(nwt("abc"), "name is ok");
    assert_eq!(nwt("abcdefghijkl"), "name is ok");
    assert_eq!(nwt("abcdefghijklm"), "Name is cannot be bigger than the 12 charracter");
    // lengths are counted in bytes: two letters of two bytes each pass
    assert_eq!(nwt("şş"), "name is ok");
    assert_eq!(nwt("şşşşşşş"), "Name is cannot be bigger than the 12 charracter");
}

#[test]
fn new_user_has_not_asked_for_promotion() {
    let mut u = User::new(None, "ali".to_string(), "h".to_string(), AdminLevel::Author);
    assert!(!u.want_be_mod);
    u.want_mod();
    assert!(u.want_be_mod);
    assert_eq!(u.to_display_string(), "name: ali, level: Author");
}

#[test]
fn promote_then_demote_returns_the_level() {
    let moderator = user("mod", AdminLevel::Moderator);
    for l in LEVELS.iter().take(4) {
        let mut target = user("bob", *l);
        target.want_be_mod = true;
        let (up, msg) = moderator.promote_user(Some(target.clone()));
        assert_eq!(msg, "Kullanıcının leveli arttırıldı.");
        let up = up.unwrap();
        assert_eq!(up.adminlevel_field, up.adminlevel.level_name());
        assert!(!up.want_be_mod);
        assert_eq!(up.adminlevel.level_value(), l.level_value() + 1);
        let promoted = User::new(None, "bob".to_string(), "x".to_string(), up.adminlevel);
        let (down, msg2) = moderator.demote_user(Some(promoted));
        assert_eq!(msg2, "Kullanıcının leveli düşürüldü.");
        let down = down.unwrap();
        assert_eq!(down.adminlevel, *l);
        assert_eq!(down.adminlevel_field, l.level_value().to_string());
    }
}

#[test]
fn promote_refusals() {
    let author = user("a", AdminLevel::Author);
    let (u, m) = author.promote_user(None);
    assert!(u.is_none());
    assert_eq!(m, "Moderatör yetkiniz yok.");
    let moderator = user("mod", AdminLevel::Moderator);
    assert_eq!(moderator.promote_user(None).1, "Kullanıcı bulunamadı.");
    let not_asked = user("bob", AdminLevel::Customer);
    assert_eq!(moderator.promote_user(Some(not_asked)).1, "Kullanıcı böyle bir istekte bulunmamış.");
    let mut top = user("top", AdminLevel::Moderator);
    top.want_be_mod = true;
    let (u, m) = moderator.promote_user(Some(top));
    assert!(u.is_none());
    assert_eq!(m, "Kullanıcıya yetki verilemedi.");
}

#[test]
fn demote_refusals() {
    let regulator = user("r", AdminLevel::Regulator);
    assert_eq!(regulator.demote_user(None).1, "Moderatör yetkiniz yok.");
    let moderator = user("mod", AdminLevel::Moderator);
    assert_eq!(moderator.demote_user(None).1, "Kullanıcı bulunamadı.");
    let (u, m) = moderator.demote_user(Some(user("c", AdminLevel::Customer)));
    assert!(u.is_none());
    assert_eq!(m, "Kullanıcının leveli zaten en düşük.");
}

#[test]
fn edit_tweet_rules() {
    let author = user("a", AdminLevel::Author);
    let mut t = tweet("a", "Editing");
    let m = author.edit_tweet(EditableTweetSection::Title("new".to_string()), &mut t);
    assert_eq!(m, "Level yetersiz. Sadece Moderator ve Regulator tweet düzenleyebilir.");
    assert_eq!(t.title, "t");

    let reg = user("r", AdminLevel::Regulator);
    let m = reg.edit_tweet(EditableTweetSection::Title("new title".to_string()), &mut t);
    assert_eq!(m, "Başlık başarıyla güncellendi.");
    assert_eq!(t.title, "new title");
    assert_eq!(t.status, "Edited");

    let m = reg.edit_tweet(EditableTweetSection::Title("x".repeat(31)), &mut t);
    assert_eq!(m, "Başlık boş olamaz ve 30 karakterden uzun olamaz.");
    assert_eq!(t.title, "new title");
    let m = reg.edit_tweet(EditableTweetSection::Title(String::new()), &mut t);
    assert_eq!(m, "Başlık boş olamaz ve 30 karakterden uzun olamaz.");

    let mut t2 = tweet("a", "Editing");
    let m = reg.edit_tweet(EditableTweetSection::Tweet("y".repeat(100)), &mut t2);
    assert_eq!(m, "Tweet mesajı başarıyla güncellendi.");
    assert_eq!(t2.status, "Edited");
    let m = reg.edit_tweet(EditableTweetSection::Tweet("y".repeat(101)), &mut t2);
    assert_eq!(m, "Tweet mesajı boş olamaz ve 100 karakterden uzun olamaz.");

    let moderator = user("m", AdminLevel::Moderator);
    let m = moderator.edit_tweet(EditableTweetSection::Status("Rejected".to_string()), &mut t2);
    assert_eq!(m, "Status başarıyla güncellendi.");
    assert_eq!(t2.status, "Rejected");
    let m = moderator.edit_tweet(EditableTweetSection::Status("Gone".to_string()), &mut t2);
    assert_eq!(
        m,
        "Geçersiz status: Gone. Geçerli statusler: [\"Editing\", \"Edited\", \"Approved\", \"Rejected\"]"
    );
    assert_eq!(t2.status, "Rejected");
}

#[test]
fn write_accept_workflow() {
    let author = user("ayşe", AdminLevel::Author);
    let (t, m) = author.write_tweet("title".to_string(), "text".to_string());
    assert_eq!(m, "Tweet başariyla oluşturuldu ve onay bekleyen tweetler listesine eklendi.");
    let mut t = t.unwrap();
    assert_eq!(t.status, "Editing");
    assert_eq!(t.author, "ayşe");
    assert!(t.id.is_none());

    let reg = user("r", AdminLevel::Regulator);
    reg.edit_tweet(EditableTweetSection::Tweet("better".to_string()), &mut t);
    assert_eq!(t.status, "Edited");

    let (none, refused) = reg.accept_wtweet(Some(t.clone()));
    assert!(none.is_none());
    assert_eq!(refused, "❌ Bunun için yetkiniz yok.");

    let approver = user("p", AdminLevel::Possibleator);
    let (approved, ok) = approver.accept_wtweet(Some(t));
    assert_eq!(ok, "✅ Tweet başarıyla onaylandı.");
    let approved = approved.unwrap();
    assert_eq!(approved.status, "Approved");
    assert_eq!(approved.tweet, "better");
    assert_eq!(approver.accept_wtweet(None).1, "❌ Tweet bulunamadı veya zaten onaylanmış.");
}

#[test]
fn write_tweet_refusals() {
    let customer = user("c", AdminLevel::Customer);
    let (t, m) = customer.write_tweet("a".to_string(), "b".to_string());
    assert!(t.is_none());
    assert_eq!(m, "Levelin tweet atmaya yetmiyor. Tweet atmak istiyorsan başvur.");
    let author = user("a", AdminLevel::Author);
    let (t, m) = author.write_tweet(String::new(), "b".to_string());
    assert!(t.is_none());
    assert_eq!(m, "Lütfen gerekli kısımları boş bırakmayın.");
}

#[test]
fn tweet_new_and_setters() {
    let id = Oid::from_bytes([2; 12]);
    let e = Tweet::new(id, String::new(), "t".to_string(), "b".to_string(), "Editing".to_string());
    assert_eq!(e.unwrap_err(), "Lütfen gerekli kısımları boş bırakmayın.");
    let mut t = Tweet::new(id, "a".to_string(), "t".to_string(), "b".to_string(), "Editing".to_string())
        .unwrap();
    assert_eq!(t.id, Some(id));
    t.update_author("b".to_string());
    t.update_title("tt".to_string());
    t.update_tweet("bb".to_string());
    t.update_status("Edited".to_string());
    let id2 = Oid::from_bytes([3; 12]);
    t.update_id(id2);
    assert_eq!(t.author, "b");
    assert_eq!(t.title, "tt");
    assert_eq!(t.tweet, "bb");
    assert_eq!(t.status, "Edited");
    assert_eq!(t.id, Some(id2));
}

#[test]
fn delete_tweet_steps() {
    let author = user("a", AdminLevel::Author);
    assert_eq!(author.delete_tweet("abc").unwrap(), "❌ Levelin tweet silmeye yetmiyor.");
    let moderator = user("m", AdminLevel::Moderator);
    assert_eq!(moderator.delete_tweet("").unwrap(), "❌ Geçerli bir Tweet ID girilmedi.");
    assert!(moderator.delete_tweet("abc").is_none());
    assert!(delete_tweet_after_lookup(Ok(true)).is_none());
    assert_eq!(delete_tweet_after_lookup(Ok(false)).unwrap(), "❌ Böyle bir tweet bulunamadı.");
    assert_eq!(
        delete_tweet_after_lookup(Err("boom".to_string())).unwrap(),
        "❌ Tweet aranırken hata: boom"
    );
    assert_eq!(delete_tweet_report(Ok(1)), "✅ Tweet başarıyla silindi.");
    assert_eq!(delete_tweet_report(Ok(0)), "❌ Tweet bulunamadı.");
    assert_eq!(delete_tweet_report(Err("x".to_string())), "❌ Silme sırasında hata: x");
}

#[test]
fn delete_own_tweet_steps() {
    let customer = user("c", AdminLevel::Customer);
    assert_eq!(
        customer.delete_own_tweet_by_id("000000000000000000000000").unwrap_err(),
        "Levelin tweet silmeye yetmiyor."
    );
    let author = user("a", AdminLevel::Author);
    assert_eq!(
        author.delete_own_tweet_by_id("zz").unwrap_err(),
        "Geçersiz tweet id formatı (ObjectId hex bekleniyor)."
    );
    let oid = author.delete_own_tweet_by_id("0102030405060708090a0B0c").unwrap();
    assert_eq!(oid.bytes(), [1, 2, 3, 4, 5, 6, 7, 8, 9, 10, 11, 12]);
    assert_eq!(author.delete_own_after_lookup(&None).unwrap(), "❌ Böyle bir tweet bulunamadı.");
    assert_eq!(
        author.delete_own_after_lookup(&Some(tweet("someone", "Editing"))).unwrap(),
        "Başkasının tweetini silemezsin."
    );
    assert!(author.delete_own_after_lookup(&Some(tweet("a", "Editing"))).is_none());
    assert_eq!(delete_own_report(1), "✅ Tweet başarıyla silindi.");
    assert_eq!(delete_own_report(0), "❌ Tweet silinemedi (bulunamadı).");
}

#[test]
fn add_user_names_are_unique() {
    assert_eq!(add_user_outcome(true), (false, "Bu isim zaten kullanılıyor.".to_string()));
    assert_eq!(add_user_outcome(false), (true, "Kullanıcı başarıyla eklendi.".to_string()));
}

#[test]
fn verify_known_hash() {
    // a cost-4 bcrypt hash of "password"
    let hash = "$2a$04$UuTkLRZZ6QofpDOlMz32MuuxEHA43WOemOYHPz6.SjsVsyO1tDU96";
    // the name and password are checked together
    assert!(verify_pwd("pass", "word", hash));
    assert!(!verify_pwd("pass", "words", hash));
    assert!(!verify_pwd("pass", "word", "not a hash"));
}

#[test]
fn hashed_password_verifies() {
    let h = hash_pwd("alice", "pw").unwrap();
    assert_ne!(h, "alicepw");
    assert!(verify_pwd("alice", "pw", &h));
}

#[test]
fn levels_order_by_rank() {
    for a in LEVELS.iter() {
        for b in LEVELS.iter() {
            let expected = a.level_value().cmp(&b.level_value());
            assert_eq!(a.partial_cmp(b), Some(expected));
            assert_eq!(a < b, expected == Ordering::Less);
            assert_eq!(a.cmp(b), expected);
        }
    }
}

#[test]
fn malformed_hash_matches_nothing() {
    assert!(!verify_pwd("ali", "pw", ""));
    assert!(!verify_pwd("ali", "pw", &"ş".repeat(30)));
}

#[test]
fn adding_users_keeps_names_unique() {
    let mut names: Vec<String> = vec!["ali".to_string()];
    for n in ["veli", "ali", "veli", "ayse"] {
        let (store, _) = add_user_outcome(names.iter().any(|m| m == n));
        if store {
            names.push(n.to_string());
        }
    }
    assert_eq!(names, vec!["ali", "veli", "ayse"]);
}
