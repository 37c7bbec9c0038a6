//! What the choices of the terminal menus lead to: reading a choice,
//! signing in and up, the actions of the service menu, and the steps of
//! writing and editing tweets.

use vstd::prelude::*;
use crate::strutil::str_len;
use crate::strutil::string_of;
use crate::strutil::push_str;
use crate::strutil::push_decimal;
use crate::strutil::decimal;
use crate::strutil::trim;
use crate::strutil::trim_text;
use crate::strutil::law_decimal_round_trip;
use crate::strutil::lemma_trim_end_stops;
use crate::strutil::lemma_trim_start_stops;
use crate::strutil::lemma_decimal_digits;
use crate::strutil::trim_end;
use crate::strutil::trim_start;
use crate::strutil::is_digit;
use crate::strutil::is_whitespace;
use crate::strutil::parse_unsigned;
use crate::strutil::parse_unsigned_text;
use crate::strutil::str_eq;
use crate::tweeter::name_verdict;
use crate::tweeter::types::AdminLevel;
use crate::tweeter::types::EditableTweetSection;
use crate::tweeter::types::Tweet;
use crate::tweeter::types::TweetView;
use crate::tweeter::types::User;
use crate::tweeter::types::UserView;
use crate::tweeter::rules::verify_pwd;
use crate::tweeter::rules::bcrypt_verify;
use crate::tweeter::rules::bcrypt_hash;
use crate::tweeter::rules::password_matches;
use crate::tweeter::rules::hash_shape_ok;
use crate::tweeter::rules::hash_plausible;
use crate::tweeter::rules::raw_password_matches;
use crate::tweeter::rules::bcrypt_verify_outcome;
use crate::tweeter::rules::can_write;
use crate::tweeter::rules::can_edit;
use crate::tweeter::rules::can_approve;
use crate::tweeter::rules::rank;
use crate::tweeter::rules::law_tweet_workflow;
use crate::tweeter::rules::edited;
use crate::oid::Oid;
use crate::menus::lists::chosen_index;
use crate::menus::lists::select_index;

verus! {

// ---------------------------------------------------------------------------
// Reading a choice
// ---------------------------------------------------------------------------

/// The choice that trimmed text makes from `0` to `max`: the text read as a
/// number no larger than `max`.
pub open spec fn menu_choice(input: Seq<char>, max: nat) -> Option<u8> {
    match parse_unsigned(trim(input), 255) {
        Some(v) => if v <= max {
            Some(v as u8)
        } else {
            None
        },
        None => None,
    }
}

fn choice_up_to(input: &str, max: u8) -> (r: Option<u8>)
    ensures
        r == menu_choice(input@, max as nat),
{
    let t = trim_text(input);
    match parse_unsigned_text(t.as_str(), 255) {
        Some(v) => if v <= max as u64 {
            Some(v as u8)
        } else {
            None
        },
        None => None,
    }
}

/// The choice on the entry screen: 0 to leave, 1 to sign in, 2 to sign up;
/// `None` for anything else.
pub fn get_giris_value(input: &str) -> (r: Option<u8>)
    ensures
        r == menu_choice(input@, 2),
{
    choice_up_to(input, 2)
}

/// The choice on the home screen: 0 to leave, 1 to enter the service;
/// `None` for anything else.
pub fn get_home_value(input: &str) -> (r: Option<u8>)
    ensures
        r == menu_choice(input@, 1),
{
    choice_up_to(input, 1)
}

/// The choice on the service menu: the text read as a number up to 255, and
/// 255 for any other text.
pub fn get_tweeter_choice(input: &str) -> (r: Option<u8>)
    ensures
        r == Some(
            match parse_unsigned(input@, 255) {
                Some(v) => v as u8,
                None => 255u8,
            },
        ),
{
    match parse_unsigned_text(input, 255) {
        Some(v) => Some(v as u8),
        None => Some(255),
    }
}

/// Where the home screen's choice leads: 0 back to the entry screen
/// (`Some(false)`, with a message), 1 into the service (`Some(true)`), and
/// anything else nowhere (`None`, with a message).
pub fn home_to_tweeter_router(choice: u8) -> (r: (Option<bool>, Option<String>))
    ensures
        choice == 0 ==> r.0 == Some(false) && r.1 is Some && r.1->0@
            == "Ana menüye dönülüyor..."@,
        choice == 1 ==> r.0 == Some(true) && r.1 is None,
        choice > 1 ==> r.0 is None && r.1 is Some && r.1->0@
            == "Geçersiz seçim. Lütfen 0 veya 1 girin."@,
{
    if choice == 0 {
        (Some(false), Some(string_of("Ana menüye dönülüyor...")))
    } else if choice == 1 {
        (Some(true), None)
    } else {
        (None, Some(string_of("Geçersiz seçim. Lütfen 0 veya 1 girin.")))
    }
}

// ---------------------------------------------------------------------------
// Signing in and up
// ---------------------------------------------------------------------------

/// Whether a user name passes the name check.
pub fn name_ok(name: &str) -> (b: bool)
    ensures
        b == (name_verdict(name@) == "name is ok"@),
{
    proof {
        reveal_strlit("Name is cannot be empty");
        reveal_strlit("Name is cannot be bigger than the 12 charracter");
        reveal_strlit("Name is cannot be lesser than the 3 charracter");
        reveal_strlit("name is ok");
    }
    let n = name.len();
    assert(n == str_len(name@));
    assert("name is ok"@.len() == 10);
    assert("Name is cannot be empty"@.len() == 23);
    !name.is_empty() && n <= 12 && n >= 3
}

/// Whether a password is too long: more than 10 bytes.
pub fn password_too_long(pwd: &str) -> (b: bool)
    ensures
        b == (str_len(pwd@) > 10),
{
    pwd.len() > 10
}

/// Signing in with a name and password, given the user stored under that
/// name, if any: the user when the stored hash matches the name followed
/// by the password, else the error to print.
pub fn sign_in(name: &str, pwd: &str, found: Option<User>) -> (r: Result<User, String>)
    ensures
        found is None ==> r is Err && r->Err_0@ == "❌ Login error: user not found"@,
        found is Some && password_matches(name@, pwd@, found->0.password@) ==> r is Ok
            && r->Ok_0@ == found->0@,
        found is Some && !password_matches(name@, pwd@, found->0.password@) ==> r is Err
            && r->Err_0@ == "❌ Login error: invalid password"@,
        found is Some && !hash_plausible(found->0.password@) ==> r is Err && r->Err_0@
            == "❌ Login error: invalid password"@,
{
    match found {
        Some(user) => {
            if verify_pwd(name, pwd, user.password.as_str()) {
                Ok(user)
            } else {
                Err(string_of("❌ Login error: invalid password"))
            }
        },
        None => Err(string_of("❌ Login error: user not found")),
    }
}

/// Logging in with a raw password, given the user stored under the name,
/// if any: the user when the stored hash matches the password; otherwise
/// the error: the text of a malformed stored hash, a wrong password, or no
/// such user.
pub fn login_user(pwd: &str, found: Option<User>) -> (r: Result<User, String>)
    ensures
        found is None ==> r is Err && r->Err_0@ == "❌ Kullanıcı bulunamadı"@,
        found is Some ==> match bcrypt_verify_outcome(pwd@, found->0.password@) {
            Ok(true) => r is Ok && r->Ok_0@ == found->0@,
            Ok(false) => r is Err && r->Err_0@ == "❌ Şifre yanlış"@,
            Err(e) => r is Err && r->Err_0@ == e,
        },
        found is Some && !hash_shape_ok(found->0.password@) ==> r is Err && r->Err_0@
            == "Invalid hash: the hash format is malformed; expected 60 ASCII bytes"@,
        found is Some && !hash_plausible(found->0.password@) ==> r is Err,
{
    match found {
        Some(user) => {
            match bcrypt_verify(pwd, user.password.as_str()) {
                Ok(true) => Ok(user),
                Ok(false) => Err(string_of("❌ Şifre yanlış")),
                Err(e) => Err(e),
            }
        },
        None => Err(string_of("❌ Kullanıcı bulunamadı")),
    }
}

/// The customer to store when signing up: the name, a bcrypt hash of the
/// given password text, level `Customer`, no promotion asked; `Err` with
/// the error's text when hashing failed.
pub fn create_user(name: &str, pwd: &str) -> (r: Result<User, String>)
    ensures
        r is Ok ==> r->Ok_0.id is None && r->Ok_0.name@ == name@ && r->Ok_0.adminlevel
            == AdminLevel::Customer && !r->Ok_0.want_be_mod && raw_password_matches(
            pwd@,
            r->Ok_0.password@,
        ) && hash_plausible(r->Ok_0.password@),
{
    user_from_hash(name, bcrypt_hash(pwd))
}

/// The customer to store when signing up, from the outcome of hashing the
/// password: with a hash, the user named `name` holding that hash, level
/// `Customer`, no promotion asked and no identifier; with an error, that
/// error.
pub fn user_from_hash(name: &str, hashed: Result<String, String>) -> (r: Result<User, String>)
    ensures
        hashed is Ok ==> r is Ok && r->Ok_0@ == (UserView {
            id: None,
            name: name@,
            password: hashed->Ok_0@,
            adminlevel: AdminLevel::Customer,
            want_be_mod: false,
        }),
        hashed is Err ==> r is Err && r->Err_0@ == hashed->Err_0@,
{
    match hashed {
        Ok(h) => Ok(User {
            id: None,
            name: string_of(name),
            password: h,
            adminlevel: AdminLevel::Customer,
            want_be_mod: false,
        }),
        Err(e) => Err(e),
    }
}

// ---------------------------------------------------------------------------
// The service menu
// ---------------------------------------------------------------------------

/// What a choice on the service menu leads to.
#[derive(Clone, Copy, Debug, PartialEq, Eq, Structural)]
pub enum MenuAction {
    /// Leave the service.
    Leave,
    /// Only print the message; for a request of promotion the request is
    /// recorded.
    Message,
    /// Show a random tweet.
    RandomTweet,
    /// Show the approved tweets.
    ShowApproved,
    /// Write a tweet.
    WriteTweet,
    /// Show the user's own tweets.
    ShowMine,
    /// Delete one of the user's own tweets.
    DeleteOwn,
    /// Edit tweets that are being edited.
    EditTweets,
    /// Approve edited tweets.
    ApproveTweets,
    /// Promote users who asked for it.
    PromotionRequests,
    /// Show all tweets with their statuses.
    ShowAll,
    /// List all users.
    ListUsers,
    /// Delete a tweet.
    DeleteAny,
}

/// What a choice on the service menu leads to, for a user of level `l`.
pub open spec fn menu_action(choice: u8, l: AdminLevel) -> MenuAction {
    let m = l == AdminLevel::Moderator;
    if choice == 0 {
        MenuAction::Leave
    } else if choice == 1 {
        MenuAction::RandomTweet
    } else if choice == 2 {
        MenuAction::ShowApproved
    } else if choice == 3 {
        if l == AdminLevel::Customer {
            MenuAction::Message
        } else {
            MenuAction::WriteTweet
        }
    } else if choice == 4 {
        if l == AdminLevel::Customer {
            MenuAction::Message
        } else {
            MenuAction::ShowMine
        }
    } else if choice == 5 {
        match l {
            AdminLevel::Customer => MenuAction::Message,
            AdminLevel::Moderator => MenuAction::EditTweets,
            _ => MenuAction::DeleteOwn,
        }
    } else if choice == 6 {
        match l {
            AdminLevel::Customer => MenuAction::Message,
            AdminLevel::Author => MenuAction::Message,
            AdminLevel::Regulator => MenuAction::EditTweets,
            _ => MenuAction::ApproveTweets,
        }
    } else if choice == 7 {
        if m {
            MenuAction::PromotionRequests
        } else {
            MenuAction::Message
        }
    } else if choice == 8 {
        if m {
            MenuAction::ShowAll
        } else {
            MenuAction::Message
        }
    } else if choice == 9 {
        if m {
            MenuAction::ListUsers
        } else {
            MenuAction::Message
        }
    } else if choice == 10 {
        if m {
            MenuAction::DeleteAny
        } else {
            MenuAction::Message
        }
    } else {
        MenuAction::Message
    }
}

/// Whether a choice on the service menu records a request of promotion.
pub open spec fn menu_requests_promotion(choice: u8, l: AdminLevel) -> bool {
    ||| choice == 3 && l == AdminLevel::Customer
    ||| choice == 6 && l == AdminLevel::Author
    ||| choice == 7 && (l == AdminLevel::Regulator || l == AdminLevel::Possibleator)
}

/// The message that a choice on the service menu prints first.
pub open spec fn menu_message(choice: u8, l: AdminLevel) -> Seq<char> {
    if choice == 0 {
        "Tweeter'dan çıkılıyor..."@
    } else if 1 <= choice <= 10 {
        if choice == 3 && l == AdminLevel::Customer {
            "Moderator olmak için başvurunuz alındı."@
        } else if choice == 4 && l == AdminLevel::Customer {
            "bilinmeyen işlem."@
        } else if choice == 6 && l == AdminLevel::Author {
            "Regulator olmak icin basvuruldu"@
        } else if choice == 7 && l == AdminLevel::Regulator {
            "Possibleator olmak icin basvuruldu"@
        } else if choice == 7 && l == AdminLevel::Possibleator {
            "Moderator olmak icin basvuruldu"@
        } else if menu_action(choice, l) == MenuAction::Message {
            "tanımlanamayan islem"@
        } else {
            Seq::empty()
        }
    } else {
        "Geçersiz seçim: "@ + decimal(choice as nat)
    }
}

/// Carries out a choice on the service menu for `user`: records a request
/// of promotion where the choice is one, and answers what the choice leads
/// to, the message to print first (empty when there is none), and whether
/// the user stays in the service (only choice 0 leaves).
pub fn tbeeter_process(choice: u8, user: &mut User) -> (r: (MenuAction, String, bool))
    ensures
        r.0 == menu_action(choice, old(user).adminlevel),
        r.1@ == menu_message(choice, old(user).adminlevel),
        r.2 == (choice != 0),
        final(user)@ == if menu_requests_promotion(choice, old(user).adminlevel) {
            UserView { want_be_mod: true, ..old(user)@ }
        } else {
            old(user)@
        },
{
    let l = user.adminlevel;
    let m = l == AdminLevel::Moderator;
    proof {
        reveal_strlit("");
    }
    if choice == 0 {
        return (MenuAction::Leave, string_of("Tweeter'dan çıkılıyor..."), false);
    }
    let undefined = "tanımlanamayan islem";
    let r = if choice == 1 {
        (MenuAction::RandomTweet, string_of(""))
    } else if choice == 2 {
        (MenuAction::ShowApproved, string_of(""))
    } else if choice == 3 {
        if l == AdminLevel::Customer {
            user.want_mod();
            (MenuAction::Message, string_of("Moderator olmak için başvurunuz alındı."))
        } else {
            (MenuAction::WriteTweet, string_of(""))
        }
    } else if choice == 4 {
        if l == AdminLevel::Customer {
            (MenuAction::Message, string_of("bilinmeyen işlem."))
        } else {
            (MenuAction::ShowMine, string_of(""))
        }
    } else if choice == 5 {
        match l {
            AdminLevel::Customer => (MenuAction::Message, string_of(undefined)),
            AdminLevel::Moderator => (MenuAction::EditTweets, string_of("")),
            _ => (MenuAction::DeleteOwn, string_of("")),
        }
    } else if choice == 6 {
        match l {
            AdminLevel::Customer => (MenuAction::Message, string_of(undefined)),
            AdminLevel::Author => {
                user.want_mod();
                (MenuAction::Message, string_of("Regulator olmak icin basvuruldu"))
            },
            AdminLevel::Regulator => (MenuAction::EditTweets, string_of("")),
            _ => (MenuAction::ApproveTweets, string_of("")),
        }
    } else if choice == 7 {
        match l {
            AdminLevel::Regulator => {
                user.want_mod();
                (MenuAction::Message, string_of("Possibleator olmak icin basvuruldu"))
            },
            AdminLevel::Possibleator => {
                user.want_mod();
                (MenuAction::Message, string_of("Moderator olmak icin basvuruldu"))
            },
            AdminLevel::Moderator => (MenuAction::PromotionRequests, string_of("")),
            _ => (MenuAction::Message, string_of(undefined)),
        }
    } else if choice == 8 {
        if m {
            (MenuAction::ShowAll, string_of(""))
        } else {
            (MenuAction::Message, string_of(undefined))
        }
    } else if choice == 9 {
        if m {
            (MenuAction::ListUsers, string_of(""))
        } else {
            (MenuAction::Message, string_of(undefined))
        }
    } else if choice == 10 {
        if m {
            (MenuAction::DeleteAny, string_of(""))
        } else {
            (MenuAction::Message, string_of(undefined))
        }
    } else {
        let mut s = string_of("Geçersiz seçim: ");
        push_decimal(&mut s, choice as usize);
        (MenuAction::Message, s)
    };
    (r.0, r.1, true)
}

/// The menu keeps to the rules: every action that the service menu leads to
/// is one that the user's level may take, and the actions only moderators
/// may take are reached only by moderators.
pub proof fn law_menu_respects_levels(choice: u8, l: AdminLevel)
    ensures
        menu_action(choice, l) == MenuAction::WriteTweet ==> can_write(l),
        menu_action(choice, l) == MenuAction::ShowMine ==> can_write(l),
        menu_action(choice, l) == MenuAction::DeleteOwn ==> rank(l) >= 1,
        menu_action(choice, l) == MenuAction::EditTweets ==> can_edit(l),
        menu_action(choice, l) == MenuAction::ApproveTweets ==> can_approve(l),
        menu_action(choice, l) == MenuAction::PromotionRequests ==> l == AdminLevel::Moderator,
        menu_action(choice, l) == MenuAction::ShowAll ==> l == AdminLevel::Moderator,
        menu_action(choice, l) == MenuAction::ListUsers ==> l == AdminLevel::Moderator,
        menu_action(choice, l) == MenuAction::DeleteAny ==> l == AdminLevel::Moderator,
        menu_action(choice, l) == MenuAction::Leave <==> choice == 0,
        menu_requests_promotion(choice, l) ==> l != AdminLevel::Moderator,
{
}

/// The service menu offers each level exactly what the level is allowed:
/// writing to every level but `Customer`, editing to `Regulator` and
/// `Moderator` (who alone may edit), approving to `Possibleator` and
/// `Moderator` (who alone may approve), the moderator's tools to
/// `Moderator` alone, and a request of promotion to every level below it.
pub proof fn law_menu_offers_what_levels_allow(l: AdminLevel)
    ensures
        (menu_action(3, l) == MenuAction::WriteTweet) <==> can_write(l),
        can_write(l) <==> l != AdminLevel::Customer,
        (menu_action(5, l) == MenuAction::EditTweets || menu_action(6, l)
            == MenuAction::EditTweets) <==> can_edit(l),
        can_edit(l) <==> (l == AdminLevel::Regulator || l == AdminLevel::Moderator),
        (menu_action(6, l) == MenuAction::ApproveTweets) <==> can_approve(l),
        can_approve(l) <==> (l == AdminLevel::Possibleator || l == AdminLevel::Moderator),
        (menu_action(4, l) == MenuAction::ShowMine) <==> can_write(l),
        (menu_action(5, l) == MenuAction::DeleteOwn) <==> (can_write(l) && l
            != AdminLevel::Moderator),
        (menu_action(7, l) == MenuAction::PromotionRequests) <==> l == AdminLevel::Moderator,
        (menu_action(8, l) == MenuAction::ShowAll) <==> l == AdminLevel::Moderator,
        (menu_action(9, l) == MenuAction::ListUsers) <==> l == AdminLevel::Moderator,
        (menu_action(10, l) == MenuAction::DeleteAny) <==> l == AdminLevel::Moderator,
        (menu_requests_promotion(3, l) || menu_requests_promotion(6, l)
            || menu_requests_promotion(7, l)) <==> l != AdminLevel::Moderator,
{
}

// ---------------------------------------------------------------------------
// Writing a tweet
// ---------------------------------------------------------------------------

/// Whether a title may be submitted: 1 to 30 bytes.
pub open spec fn title_fits(title: Seq<char>) -> bool {
    title.len() != 0 && str_len(title) <= 30
}

/// Whether a tweet's text may be submitted: 1 to 100 bytes.
pub open spec fn message_fits(message: Seq<char>) -> bool {
    message.len() != 0 && str_len(message) <= 100
}

/// Checks a typed title: `None` when it may be submitted, else the message
/// to print.
pub fn check_title(title: &str) -> (r: Option<String>)
    ensures
        title_fits(title@) ==> r is None,
        !title_fits(title@) ==> r is Some && r->0@ == "title gereken kraterlere uygun degil"@,
{
    if title.is_empty() || title.len() > 30 {
        Some(string_of("title gereken kraterlere uygun degil"))
    } else {
        None
    }
}

/// Submits a tweet with an accepted title and the typed text: a text that
/// does not fit is refused with a message; otherwise the user writes the
/// tweet, and the message says it was sent unless the user's reply was
/// that a part was empty, in which case the reply itself is printed.
/// Answers the tweet to store, if any, and the message to print.
pub fn write_tweet(user: &User, title: String, tweet_message: String) -> (r: (Option<Tweet>, String))
    ensures
        !message_fits(tweet_message@) ==> r.0 is None && r.1@
            == "tweet mesajiniz gereken kraterlere uygun degil"@,
        message_fits(tweet_message@) && !can_write(user.adminlevel) ==> r.0 is None && r.1@
            == "tweetiniz başarıyla gönderildi ve bekleyenler listesinde."@,
        message_fits(tweet_message@) && can_write(user.adminlevel) && title@.len() == 0 ==> r.0 is None
            && r.1@ == "Lütfen gerekli kısımları boş bırakmayın."@,
        message_fits(tweet_message@) && can_write(user.adminlevel) && title@.len() != 0 ==> r.0 is Some
            && r.0->0@ == (TweetView {
            id: None,
            author: user.name@,
            title: title@,
            tweet: tweet_message@,
            status: "Editing"@,
        }) && r.1@ == "tweetiniz başarıyla gönderildi ve bekleyenler listesinde."@,
{
    if tweet_message.as_str().is_empty() || tweet_message.as_str().len() > 100 {
        return (None, string_of("tweet mesajiniz gereken kraterlere uygun degil"));
    }
    let (new_tweet, reply) = user.write_tweet(title, tweet_message);
    let empty_parts = string_of("Lütfen gerekli kısımları boş bırakmayın.");
    proof {
        reveal_strlit("Lütfen gerekli kısımları boş bırakmayın.");
        reveal_strlit("Levelin tweet atmaya yetmiyor. Tweet atmak istiyorsan başvur.");
        reveal_strlit("Tweet başariyla oluşturuldu ve onay bekleyen tweetler listesine eklendi.");
    }
    if reply != empty_parts {
        (new_tweet, string_of("tweetiniz başarıyla gönderildi ve bekleyenler listesinde."))
    } else {
        (new_tweet, reply)
    }
}

// ---------------------------------------------------------------------------
// Editing a tweet
// ---------------------------------------------------------------------------

/// A section of a tweet to edit.
#[derive(Clone, Copy, Debug, PartialEq, Eq, Structural)]
pub enum EditField {
    Title,
    Tweet,
    Status,
}

/// The section that a typed word names: `title`, `tweet` or `status`.
pub open spec fn edit_field_of(s: Seq<char>) -> Option<EditField> {
    if s == "title"@ {
        Some(EditField::Title)
    } else if s == "tweet"@ {
        Some(EditField::Tweet)
    } else if s == "status"@ {
        Some(EditField::Status)
    } else {
        None
    }
}

/// The section that the typed word names; `None` for any other word.
pub fn edit_field(choice: &str) -> (r: Option<EditField>)
    ensures
        r == edit_field_of(choice@),
{
    if str_eq(choice, "title") {
        Some(EditField::Title)
    } else if str_eq(choice, "tweet") {
        Some(EditField::Tweet)
    } else if str_eq(choice, "status") {
        Some(EditField::Status)
    } else {
        None
    }
}

impl EditField {
    /// The prompt for the new content of the section.
    pub fn prompt(self) -> (s: String)
        ensures
            s@ == match self {
                EditField::Title => "Yeni title: "@,
                EditField::Tweet => "Yeni tweet: "@,
                EditField::Status => "Yeni status (Editing/Edited/Approved/Rejected): "@,
            },
    {
        match self {
            EditField::Title => string_of("Yeni title: "),
            EditField::Tweet => string_of("Yeni tweet: "),
            EditField::Status => string_of("Yeni status (Editing/Edited/Approved/Rejected): "),
        }
    }

    /// The section with its new content.
    pub fn section(self, value: String) -> (r: EditableTweetSection)
        ensures
            match self {
                EditField::Title => r matches EditableTweetSection::Title(v) && v@ == value@,
                EditField::Tweet => r matches EditableTweetSection::Tweet(v) && v@ == value@,
                EditField::Status => r matches EditableTweetSection::Status(v) && v@ == value@,
            },
    {
        match self {
            EditField::Title => EditableTweetSection::Title(value),
            EditField::Tweet => EditableTweetSection::Tweet(value),
            EditField::Status => EditableTweetSection::Status(value),
        }
    }
}

/// The message after storing an edited tweet, from the number of changed
/// tweets or the error's text.
pub fn edit_update_report(result: Result<u64, String>) -> (m: String)
    ensures
        result matches Ok(n) && n > 0 ==> m@ == "✅ Tweet database'de güncellendi."@,
        result matches Ok(n) && n == 0 ==> m@ == "❌ Hiçbir değişiklik yapılmadı."@,
        result is Err ==> m@ == "Hata: "@ + result->Err_0@,
{
    match result {
        Ok(n) => if n > 0 {
            string_of("✅ Tweet database'de güncellendi.")
        } else {
            string_of("❌ Hiçbir değişiklik yapılmadı.")
        },
        Err(e) => {
            let mut m = string_of("Hata: ");
            push_str(&mut m, e.as_str());
            m
        },
    }
}

// ---------------------------------------------------------------------------
// The list menus
// ---------------------------------------------------------------------------

/// The menus that list tweets or users and act on one entry.
#[derive(Clone, Copy, Debug, PartialEq, Eq, Structural)]
pub enum ListFlow {
    /// Tweets that are being edited, to edit one.
    Edit,
    /// Edited tweets, to approve one.
    Approve,
    /// The user's own tweets, to delete one.
    DeleteOwn,
    /// All tweets, to delete one as a moderator.
    DeleteAny,
    /// Users asking for promotion, to promote one.
    Promote,
    /// All users.
    Users,
}

/// What a list menu prints when its list is empty.
pub open spec fn empty_list_reply_of(f: ListFlow) -> Seq<char> {
    match f {
        ListFlow::Edit => "Düzenleme bekleyen tweet bulunamadı."@,
        ListFlow::Approve => "Onay bekleyen tweet bulunamadı."@,
        ListFlow::DeleteOwn => "❌ Silinebilecek tweet bulunamadı."@,
        ListFlow::DeleteAny => "❌ Hiç tweet bulunamadı."@,
        ListFlow::Promote => "Level atlamak isteyen kullanıcı yok."@,
        ListFlow::Users => "⚠️ Hiç kullanıcı bulunamadı."@,
    }
}

/// What a list menu prints when its list is empty.
pub fn empty_list_reply(f: ListFlow) -> (s: String)
    ensures
        s@ == empty_list_reply_of(f),
{
    match f {
        ListFlow::Edit => string_of("Düzenleme bekleyen tweet bulunamadı."),
        ListFlow::Approve => string_of("Onay bekleyen tweet bulunamadı."),
        ListFlow::DeleteOwn => string_of("❌ Silinebilecek tweet bulunamadı."),
        ListFlow::DeleteAny => string_of("❌ Hiç tweet bulunamadı."),
        ListFlow::Promote => string_of("Level atlamak isteyen kullanıcı yok."),
        ListFlow::Users => string_of("⚠️ Hiç kullanıcı bulunamadı."),
    }
}

/// The line a list menu prints above its list, if any.
pub open spec fn list_header_of(f: ListFlow) -> Option<Seq<char>> {
    match f {
        ListFlow::DeleteOwn => Some("📋 Kendi Tweetlerin:"@),
        ListFlow::DeleteAny => Some("📋 Tüm Tweetler:"@),
        ListFlow::Promote => Some("Level atlamak isteyen kullanıcılar:"@),
        ListFlow::Users => Some("📋 Kullanıcı Listesi:"@),
        _ => None,
    }
}

/// The line a list menu prints above its list, if any.
pub fn list_header(f: ListFlow) -> (r: Option<String>)
    ensures
        match list_header_of(f) {
            Some(h) => r is Some && r->0@ == h,
            None => r is None,
        },
{
    match f {
        ListFlow::DeleteOwn => Some(string_of("📋 Kendi Tweetlerin:")),
        ListFlow::DeleteAny => Some(string_of("📋 Tüm Tweetler:")),
        ListFlow::Promote => Some(string_of("Level atlamak isteyen kullanıcılar:")),
        ListFlow::Users => Some(string_of("📋 Kullanıcı Listesi:")),
        _ => None,
    }
}

/// What a tweet menu prints when the chosen tweet has no identifier.
pub open spec fn missing_id_reply_of(f: ListFlow) -> Seq<char> {
    if f == ListFlow::Edit {
        "❌ Bu tweetin ID'si yok."@
    } else {
        "❌ Tweet ID'si bulunamadı."@
    }
}

/// The tweet chosen from a listed menu by the typed text: its identifier,
/// or the reply when the text is not the number of an entry or the chosen
/// tweet has no identifier.
pub fn choose_tweet(f: ListFlow, tweets: &Vec<Tweet>, input: &str) -> (r: Result<Oid, String>)
    ensures
        chosen_index(input@, tweets@.len()) is None ==> r is Err && r->Err_0@
            == "❌ Geçersiz seçim."@,
        chosen_index(input@, tweets@.len()) is Some && tweets@[chosen_index(
            input@,
            tweets@.len(),
        )->0 as int].id is None ==> r is Err && r->Err_0@ == missing_id_reply_of(f),
        chosen_index(input@, tweets@.len()) is Some && tweets@[chosen_index(
            input@,
            tweets@.len(),
        )->0 as int].id is Some ==> r == Ok::<Oid, String>(
            tweets@[chosen_index(input@, tweets@.len())->0 as int].id->0,
        ),
{
    match select_index(input, tweets.len()) {
        Some(i) => match tweets[i].id {
            Some(o) => Ok(o),
            None => if f == ListFlow::Edit {
                Err(string_of("❌ Bu tweetin ID'si yok."))
            } else {
                Err(string_of("❌ Tweet ID'si bulunamadı."))
            },
        },
        None => Err(string_of("❌ Geçersiz seçim.")),
    }
}

/// The user chosen from the list of users asking for promotion by the typed
/// text: the entry's number, or the reply when the text is not the number
/// of an entry.
pub fn choose_user(users: &Vec<User>, input: &str) -> (r: Result<usize, String>)
    ensures
        chosen_index(input@, users@.len()) is None ==> r is Err && r->Err_0@
            == "❌ Geçersiz seçim."@,
        chosen_index(input@, users@.len()) is Some ==> r is Ok && r->Ok_0 == chosen_index(
            input@,
            users@.len(),
        )->0,
{
    match select_index(input, users.len()) {
        Some(i) => Ok(i),
        None => Err(string_of("❌ Geçersiz seçim.")),
    }
}

/// The section to edit named by the typed word, or the reply for any other
/// word.
pub fn choose_edit_field(choice: &str) -> (r: Result<EditField, String>)
    ensures
        edit_field_of(choice@) is Some ==> r == Ok::<EditField, String>(
            edit_field_of(choice@)->0,
        ),
        edit_field_of(choice@) is None ==> r is Err && r->Err_0@ == "❌ Geçersiz seçim."@,
{
    match edit_field(choice) {
        Some(f) => Ok(f),
        None => Err(string_of("❌ Geçersiz seçim.")),
    }
}

/// The tweet to edit, from what the lookup by identifier found, or the
/// reply when it found none.
pub fn edit_lookup(found: Option<Tweet>) -> (r: Result<Tweet, String>)
    ensures
        found is Some ==> r is Ok && r->Ok_0@ == found->0@,
        found is None ==> r is Err && r->Err_0@ == "❌ Tweet bulunamadı."@,
{
    match found {
        Some(t) => Ok(t),
        None => Err(string_of("❌ Tweet bulunamadı.")),
    }
}

/// Only a moderator may delete any tweet: the reply to anyone else.
pub fn delete_any_refusal(user: &User) -> (r: Option<String>)
    ensures
        user.adminlevel == AdminLevel::Moderator ==> r is None,
        user.adminlevel != AdminLevel::Moderator ==> r is Some && r->0@
            == "❌ Bu işlem sadece moderatörler tarafından yapılabilir."@,
{
    if user.is_moderator() {
        None
    } else {
        Some(string_of("❌ Bu işlem sadece moderatörler tarafından yapılabilir."))
    }
}

/// What the moderator's deletion menu prints of the deletion's reply.
pub fn moderator_delete_reply(reply: &str) -> (s: String)
    ensures
        s@ == "✅ Moderatör işlemi: "@ + reply@,
{
    let mut s = string_of("✅ Moderatör işlemi: ");
    push_str(&mut s, reply);
    s
}

/// What the promotion menu prints of the promotion's reply.
pub fn promotion_reply(reply: &str) -> (s: String)
    ensures
        s@ == "✅ "@ + reply@,
{
    let mut s = string_of("✅ ");
    push_str(&mut s, reply);
    s
}

/// Writing and editing hold titles and texts to the same lengths: a title
/// that `check_title` lets through is exactly one that an edit of the title
/// accepts (1 to 30 bytes), and a text that `write_tweet` lets through is
/// exactly one that an edit of the text accepts (1 to 100 bytes).
pub proof fn law_length_rules_agree(s: String, t: TweetView)
    ensures
        title_fits(s@) <==> (s@.len() != 0 && str_len(s@) <= 30),
        message_fits(s@) <==> (s@.len() != 0 && str_len(s@) <= 100),
        (edited(EditableTweetSection::Title(s), t).1 == "Başlık başarıyla güncellendi."@)
            <==> title_fits(s@),
        (edited(EditableTweetSection::Tweet(s), t).1 == "Tweet mesajı başarıyla güncellendi."@)
            <==> message_fits(s@),
{
    law_tweet_workflow(t, EditableTweetSection::Title(s));
    law_tweet_workflow(t, EditableTweetSection::Tweet(s));
}

/// A menu choice is read back as the number typed: the decimal text of a
/// number up to `max` chooses that number, also with whitespace around it,
/// and a larger number chooses nothing.
pub proof fn law_menu_choice_reads_number(k: nat, max: nat, pad: Seq<char>)
    requires
        max <= 255,
        forall|i: int| 0 <= i < pad.len() ==> is_whitespace(#[trigger] pad[i]),
    ensures
        k <= max ==> menu_choice(decimal(k), max) == Some(k as u8),
        k <= max ==> menu_choice(pad + decimal(k) + pad, max) == Some(k as u8),
        max < k <= 255 ==> menu_choice(decimal(k), max) is None,
{
    lemma_decimal_digits(k);
    let d = decimal(k);
    assert(is_digit(d[0]) && is_digit(d.last()));
    lemma_trim_start_stops(d);
    lemma_trim_end_stops(d);
    assert(trim(d) == d);
    lemma_trim_around(pad, d);
    if k <= 255 {
        law_decimal_round_trip(k, 255);
    }
}

/// Whitespace on both sides of a text that neither starts nor ends with
/// whitespace is what trimming removes.
proof fn lemma_trim_around(pad: Seq<char>, d: Seq<char>)
    requires
        d.len() > 0,
        !is_whitespace(d[0]),
        !is_whitespace(d.last()),
        forall|i: int| 0 <= i < pad.len() ==> is_whitespace(#[trigger] pad[i]),
    ensures
        trim(pad + d + pad) == d,
{
    assert(pad + d + pad =~= pad + (d + pad));
    assert((d + pad)[0] == d[0]);
    lemma_trim_start_pad(pad, d + pad);
    lemma_trim_end_pad(d, pad);
}

proof fn lemma_trim_start_pad(pad: Seq<char>, t: Seq<char>)
    requires
        t.len() > 0,
        !is_whitespace(t[0]),
        forall|i: int| 0 <= i < pad.len() ==> is_whitespace(#[trigger] pad[i]),
    ensures
        trim_start(pad + t) == t,
    decreases pad.len(),
{
    if pad.len() > 0 {
        assert((pad + t)[0] == pad[0]);
        assert((pad + t).drop_first() =~= pad.drop_first() + t);
        assert forall|i: int| 0 <= i < pad.drop_first().len() implies is_whitespace(
            #[trigger] pad.drop_first()[i],
        ) by {
            assert(pad.drop_first()[i] == pad[i + 1]);
        }
        lemma_trim_start_pad(pad.drop_first(), t);
    } else {
        assert(pad + t =~= t);
        lemma_trim_start_stops(t);
    }
}

proof fn lemma_trim_end_pad(t: Seq<char>, pad: Seq<char>)
    requires
        t.len() > 0,
        !is_whitespace(t.last()),
        forall|i: int| 0 <= i < pad.len() ==> is_whitespace(#[trigger] pad[i]),
    ensures
        trim_end(t + pad) == t,
    decreases pad.len(),
{
    if pad.len() > 0 {
        assert((t + pad).last() == pad.last());
        assert((t + pad).drop_last() =~= t + pad.drop_last());
        assert forall|i: int| 0 <= i < pad.drop_last().len() implies is_whitespace(
            #[trigger] pad.drop_last()[i],
        ) by {
            assert(pad.drop_last()[i] == pad[i]);
        }
        lemma_trim_end_pad(t, pad.drop_last());
    } else {
        assert(t + pad =~= t);
        lemma_trim_end_stops(t);
    }
}

} // verus!
