//! The rules of the service: passwords, levels and what each level may do
//! to users and tweets.
//!
//! Storage is not done here. Where a rule needs what is stored, it takes
//! what a lookup found as an argument and answers with what to store and
//! what to tell the user.

use vstd::prelude::*;
use crate::oid::Oid;
use crate::oid::parse_oid_text;
use crate::strutil::str_len;
use crate::strutil::byte_len;
use vstd::utf8::is_ascii_chars;
use crate::strutil::string_of;
use crate::strutil::copy_string;
use crate::strutil::push_str;
use crate::strutil::decimal;
use crate::strutil::decimal_string;
use crate::strutil::parse_unsigned;
use crate::tweeter::types::AdminLevel;
use crate::tweeter::types::EditableTweetSection;
use crate::tweeter::types::Tweet;
use crate::tweeter::types::TweetView;
use crate::tweeter::types::User;
use crate::tweeter::types::UserView;

verus! {

// ---------------------------------------------------------------------------
// Passwords
// ---------------------------------------------------------------------------

/// What `bcrypt::verify` returns for a password and a stored hash: whether
/// the password hashes to the stored hash, or the text of the error that
/// the stored hash is not a well-formed bcrypt hash.
pub uninterp spec fn bcrypt_verify_outcome(password: Seq<char>, hash: Seq<char>) -> Result<
    bool,
    Seq<char>,
>;

/// Whether a stored hash has the shape every bcrypt hash has: exactly 60
/// bytes, all ASCII.
pub open spec fn hash_shape_ok(hash: Seq<char>) -> bool {
    byte_len(hash) == 60 && is_ascii_chars(hash)
}

/// Whether `c` belongs to bcrypt's base64 alphabet: `.`, `/`, the ASCII
/// letters and the digits.
pub open spec fn bcrypt_base64_char(c: char) -> bool {
    ||| c == '.'
    ||| c == '/'
    ||| 'A' <= c && c <= 'Z'
    ||| 'a' <= c && c <= 'z'
    ||| '0' <= c && c <= '9'
}

/// Whether every character of `h` from `lo` up to (not including) `hi` is
/// in bcrypt's base64 alphabet.
pub open spec fn bcrypt_base64_part(h: Seq<char>, lo: int, hi: int) -> bool {
    forall|i: int| lo <= i < hi ==> bcrypt_base64_char(#[trigger] h[i])
}

/// Whether a 60-character stored hash has `$` at positions 0, 3 and 6.
pub open spec fn hash_layout_ok(h: Seq<char>) -> bool {
    h[0] == '$' && h[3] == '$' && h[6] == '$'
}

/// Whether a stored hash's version, positions 1 and 2, is one of `2a`,
/// `2b`, `2x`, `2y`.
pub open spec fn hash_prefix_ok(h: Seq<char>) -> bool {
    h[1] == '2' && (h[2] == 'a' || h[2] == 'b' || h[2] == 'x' || h[2] == 'y')
}

/// The cost written at positions 4 and 5 of a stored hash, read as a `u32`.
pub open spec fn hash_cost(h: Seq<char>) -> Option<nat> {
    parse_unsigned(h.subrange(4, 6), u32::MAX as nat)
}

/// Whether a stored hash passes every test that `bcrypt::verify` makes of
/// it before hashing, except that base64's unused trailing bits are zero:
/// 60 ASCII bytes, `$` at 0, 3 and 6, a known version, a cost from 4 to 31,
/// and salt and hash in bcrypt's base64 alphabet.
pub open spec fn hash_plausible(h: Seq<char>) -> bool {
    &&& hash_shape_ok(h)
    &&& hash_layout_ok(h)
    &&& hash_prefix_ok(h)
    &&& hash_cost(h) is Some
    &&& 4 <= hash_cost(h)->0 <= 31
    &&& bcrypt_base64_part(h, 7, 29)
    &&& bcrypt_base64_part(h, 29, 60)
}

/// Checks a password against a stored bcrypt hash.
///
/// Wraps `bcrypt::verify`. Its result, and the text of its error, depend on
/// the two arguments alone; the contract names them `bcrypt_verify_outcome`.
/// It also states the tests that `bcrypt::verify` makes of the stored hash
/// before hashing, in their order, and the error each failure gives: not 60
/// ASCII bytes; no `$` at 0, 3 and 6; an unknown version; a cost that is not
/// a number; a salt part (positions 7 to 28) with a character outside
/// bcrypt's base64 alphabet. A hash part with such a character, or a cost
/// outside 4 to 31, gives an error too; its text is left unsaid, since a
/// salt part whose unused trailing bits are not zero fails first with the
/// salt's error.
#[verifier::external_body]
pub(crate) fn bcrypt_verify(password: &str, hash: &str) -> (r: Result<bool, String>)
    ensures
        match r {
            Ok(b) => bcrypt_verify_outcome(password@, hash@) == Ok::<bool, Seq<char>>(b),
            Err(e) => bcrypt_verify_outcome(password@, hash@) == Err::<bool, Seq<char>>(e@),
        },
        !hash_shape_ok(hash@) ==> r is Err && r->Err_0@
            == "Invalid hash: the hash format is malformed; expected 60 ASCII bytes"@,
        hash_shape_ok(hash@) && !hash_layout_ok(hash@) ==> r is Err && r->Err_0@
            == "Invalid hash: the hash format is malformed"@,
        hash_shape_ok(hash@) && hash_layout_ok(hash@) && !hash_prefix_ok(hash@) ==> r is Err
            && r->Err_0@ == "Invalid hash: the hash prefix is not a bcrypt prefix"@,
        hash_shape_ok(hash@) && hash_layout_ok(hash@) && hash_prefix_ok(hash@) && hash_cost(
            hash@,
        ) is None ==> r is Err && r->Err_0@ == "Invalid hash: the cost value is not a number"@,
        hash_shape_ok(hash@) && hash_layout_ok(hash@) && hash_prefix_ok(hash@) && hash_cost(
            hash@,
        ) is Some && !bcrypt_base64_part(hash@, 7, 29) ==> r is Err && r->Err_0@
            == "Invalid hash: the salt part is not valid base64"@,
        hash_shape_ok(hash@) && hash_layout_ok(hash@) && hash_prefix_ok(hash@) && hash_cost(
            hash@,
        ) is Some && !bcrypt_base64_part(hash@, 29, 60) ==> r is Err,
        hash_shape_ok(hash@) && hash_layout_ok(hash@) && hash_prefix_ok(hash@) && hash_cost(
            hash@,
        ) is Some && !(4 <= hash_cost(hash@)->0 <= 31) ==> r is Err,
{
    match bcrypt::verify(password, hash) {
        Ok(b) => Ok(b),
        Err(e) => Err(e.to_string()),
    }
}

/// Hashes a password with bcrypt at the default cost and a fresh random salt.
///
/// Wraps `bcrypt::hash` with `bcrypt::DEFAULT_COST`. The salt comes from the
/// operating system, so the hash itself is not stated, nor the text of an
/// error: at that cost the only error is a failure of the random source.
/// What bcrypt's code guarantees of every hash it returns is stated: it is
/// `$2b$12$` followed by 53 characters of bcrypt's base64 alphabet, 60 ASCII
/// bytes in all, and checking the same password against it with
/// `bcrypt::verify` succeeds.
#[verifier::external_body]
pub(crate) fn bcrypt_hash(password: &str) -> (r: Result<String, String>)
    ensures
        match r {
            Ok(h) => bcrypt_verify_outcome(password@, h@) == Ok::<bool, Seq<char>>(true)
                && hash_plausible(h@),
            Err(_) => true,
        },
{
    match bcrypt::hash(password, bcrypt::DEFAULT_COST) {
        Ok(h) => Ok(h),
        Err(e) => Err(e.to_string()),
    }
}

/// Whether the password of user `name` matches the stored hash: the hash
/// is checked against the name followed by the password.
pub open spec fn password_matches(name: Seq<char>, pwd: Seq<char>, stored: Seq<char>) -> bool {
    bcrypt_verify_outcome(name + pwd, stored) == Ok::<bool, Seq<char>>(true)
}

/// Whether a raw password matches a stored hash.
pub open spec fn raw_password_matches(pwd: Seq<char>, stored: Seq<char>) -> bool {
    bcrypt_verify_outcome(pwd, stored) == Ok::<bool, Seq<char>>(true)
}

/// The hash stored for user `name` with password `pwd`: a bcrypt hash of the
/// name followed by the password; `Err` with the error's text when the
/// random source failed. Whatever hash comes back, `verify_pwd` accepts the
/// same name and password against it.
pub fn hash_pwd(name: &str, pwd: &str) -> (r: Result<String, String>)
    ensures
        r matches Ok(h) ==> password_matches(name@, pwd@, h@) && hash_plausible(h@),
{
    let mut combined = string_of(name);
    push_str(&mut combined, pwd);
    bcrypt_hash(combined.as_str())
}

/// Whether the name followed by the password matches the stored hash; a
/// stored hash that fails any of bcrypt's tests of its form
/// (`hash_plausible`) matches nothing.
pub fn verify_pwd(name: &str, pwd: &str, stored: &str) -> (b: bool)
    ensures
        b == password_matches(name@, pwd@, stored@),
        !hash_plausible(stored@) ==> !b,
{
    let mut combined = string_of(name);
    push_str(&mut combined, pwd);
    match bcrypt_verify(combined.as_str(), stored) {
        Ok(b) => b,
        Err(_) => false,
    }
}

// ---------------------------------------------------------------------------
// Levels
// ---------------------------------------------------------------------------

/// The rank of a level, from 0 for `Customer` to 4 for `Moderator`.
pub open spec fn rank(l: AdminLevel) -> nat {
    match l {
        AdminLevel::Customer => 0,
        AdminLevel::Author => 1,
        AdminLevel::Regulator => 2,
        AdminLevel::Possibleator => 3,
        AdminLevel::Moderator => 4,
    }
}

/// The name of a level.
pub open spec fn level_name_of(l: AdminLevel) -> Seq<char> {
    match l {
        AdminLevel::Customer => "Customer"@,
        AdminLevel::Author => "Author"@,
        AdminLevel::Regulator => "Regulator"@,
        AdminLevel::Possibleator => "Possibleator"@,
        AdminLevel::Moderator => "Moderator"@,
    }
}

/// The level one above `l`; none above `Moderator`.
pub open spec fn promoted(l: AdminLevel) -> Option<AdminLevel> {
    match l {
        AdminLevel::Customer => Some(AdminLevel::Author),
        AdminLevel::Author => Some(AdminLevel::Regulator),
        AdminLevel::Regulator => Some(AdminLevel::Possibleator),
        AdminLevel::Possibleator => Some(AdminLevel::Moderator),
        AdminLevel::Moderator => None,
    }
}

/// The level one below `l`; none below `Customer`.
pub open spec fn demoted(l: AdminLevel) -> Option<AdminLevel> {
    match l {
        AdminLevel::Customer => None,
        AdminLevel::Author => Some(AdminLevel::Customer),
        AdminLevel::Regulator => Some(AdminLevel::Author),
        AdminLevel::Possibleator => Some(AdminLevel::Regulator),
        AdminLevel::Moderator => Some(AdminLevel::Possibleator),
    }
}

impl AdminLevel {
    /// The level's name.
    pub fn level_name(&self) -> (s: &str)
        ensures
            s@ == level_name_of(*self),
    {
        match self {
            AdminLevel::Author => "Author",
            AdminLevel::Customer => "Customer",
            AdminLevel::Possibleator => "Possibleator",
            AdminLevel::Moderator => "Moderator",
            AdminLevel::Regulator => "Regulator",
        }
    }

    /// The level's rank, from 0 for `Customer` to 4 for `Moderator`.
    pub fn level_value(&self) -> (v: u8)
        ensures
            v == rank(*self),
    {
        match self {
            AdminLevel::Customer => 0,
            AdminLevel::Author => 1,
            AdminLevel::Regulator => 2,
            AdminLevel::Possibleator => 3,
            AdminLevel::Moderator => 4,
        }
    }
}

/// Promoting and demoting undo each other: a level promoted and then
/// demoted is the level again, and a level demoted and then promoted too;
/// each step moves the rank by exactly one.
pub proof fn law_promote_demote_inverse(l: AdminLevel)
    ensures
        promoted(l) matches Some(m) ==> demoted(m) == Some(l) && rank(m) == rank(l) + 1,
        demoted(l) matches Some(m) ==> promoted(m) == Some(l) && rank(l) == rank(m) + 1,
        promoted(l) is None <==> l == AdminLevel::Moderator,
        demoted(l) is None <==> l == AdminLevel::Customer,
{
}

/// Levels are ordered by rank, and no two levels share one.
pub proof fn law_rank_is_injective(a: AdminLevel, b: AdminLevel)
    ensures
        rank(a) == rank(b) <==> a == b,
        rank(a) <= 4,
{
}

// ---------------------------------------------------------------------------
// Tweets
// ---------------------------------------------------------------------------

/// Whether `s` is one of the statuses a tweet may have.
pub open spec fn valid_status(s: Seq<char>) -> bool {
    ||| s == "Editing"@
    ||| s == "Edited"@
    ||| s == "Approved"@
    ||| s == "Rejected"@
}

/// The reply to a status that is not one of the four.
pub open spec fn invalid_status_reply(s: Seq<char>) -> Seq<char> {
    "Geçersiz status: "@ + s
        + ". Geçerli statusler: [\"Editing\", \"Edited\", \"Approved\", \"Rejected\"]"@
}

impl Tweet {
    /// A tweet with the given contents; author, title and tweet must not be
    /// empty.
    pub fn new(id: Oid, author: String, title: String, tweet: String, status: String) -> (r: Result<
        Self,
        String,
    >)
        ensures
            (author@.len() == 0 || title@.len() == 0 || tweet@.len() == 0) ==> (r matches Err(e)
                && e@ == "Lütfen gerekli kısımları boş bırakmayın."@),
            !(author@.len() == 0 || title@.len() == 0 || tweet@.len() == 0) ==> (r matches Ok(t)
                && t@ == (TweetView {
                id: Some(id),
                author: author@,
                title: title@,
                tweet: tweet@,
                status: status@,
            })),
    {
        if author.as_str().is_empty() || title.as_str().is_empty() || tweet.as_str().is_empty() {
            return Err(string_of("Lütfen gerekli kısımları boş bırakmayın."));
        }
        Ok(Self { id: Some(id), author, title, tweet, status })
    }

    /// Sets the identifier.
    pub fn update_id(&mut self, new_id: Oid)
        ensures
            final(self)@ == (TweetView { id: Some(new_id), ..old(self)@ }),
    {
        self.id = Some(new_id);
    }

    /// Sets the author.
    pub fn update_author(&mut self, new_author: String)
        ensures
            final(self)@ == (TweetView { author: new_author@, ..old(self)@ }),
    {
        self.author = new_author;
    }

    /// Sets the title.
    pub fn update_title(&mut self, new_title: String)
        ensures
            final(self)@ == (TweetView { title: new_title@, ..old(self)@ }),
    {
        self.title = new_title;
    }

    /// Sets the text.
    pub fn update_tweet(&mut self, new_tweet: String)
        ensures
            final(self)@ == (TweetView { tweet: new_tweet@, ..old(self)@ }),
    {
        self.tweet = new_tweet;
    }

    /// Sets the status.
    pub fn update_status(&mut self, new_status: String)
        ensures
            final(self)@ == (TweetView { status: new_status@, ..old(self)@ }),
    {
        self.status = new_status;
    }
}

// ---------------------------------------------------------------------------
// Users
// ---------------------------------------------------------------------------

/// The new level and request flag to store for a user whose level changed,
/// and the text the level is stored as.
pub struct LevelUpdate {
    pub adminlevel: AdminLevel,
    pub adminlevel_field: String,
    pub want_be_mod: bool,
}

/// Whether a user of this level may approve tweets.
pub open spec fn can_approve(l: AdminLevel) -> bool {
    l == AdminLevel::Possibleator || l == AdminLevel::Moderator
}

/// Whether a user of this level may edit tweets.
pub open spec fn can_edit(l: AdminLevel) -> bool {
    l == AdminLevel::Moderator || l == AdminLevel::Regulator
}

/// Whether a user of this level may write tweets.
pub open spec fn can_write(l: AdminLevel) -> bool {
    rank(l) >= 1
}

/// The tweet after an edit of one section by a user who may edit, and the
/// reply; the tweet is unchanged when the edit is refused.
pub open spec fn edited(section: EditableTweetSection, t: TweetView) -> (TweetView, Seq<char>) {
    match section {
        EditableTweetSection::Title(s) => {
            if s@.len() == 0 || str_len(s@) > 30 {
                (t, "Başlık boş olamaz ve 30 karakterden uzun olamaz."@)
            } else {
                (
                    TweetView { title: s@, status: "Edited"@, ..t },
                    "Başlık başarıyla güncellendi."@,
                )
            }
        },
        EditableTweetSection::Tweet(s) => {
            if s@.len() == 0 || str_len(s@) > 100 {
                (t, "Tweet mesajı boş olamaz ve 100 karakterden uzun olamaz."@)
            } else {
                (
                    TweetView { tweet: s@, status: "Edited"@, ..t },
                    "Tweet mesajı başarıyla güncellendi."@,
                )
            }
        },
        EditableTweetSection::Status(s) => {
            if !valid_status(s@) {
                (t, invalid_status_reply(s@))
            } else {
                (TweetView { status: s@, ..t }, "Status başarıyla güncellendi."@)
            }
        },
    }
}

fn is_valid_status(s: &String) -> (b: bool)
    ensures
        b == valid_status(s@),
{
    let a = string_of("Editing");
    let b = string_of("Edited");
    let c = string_of("Approved");
    let d = string_of("Rejected");
    *s == a || *s == b || *s == c || *s == d
}

impl User {
    /// A user who has not asked to be promoted.
    pub fn new(id: Option<Oid>, name: String, password: String, adminlevel: AdminLevel) -> (u:
        Self)
        ensures
            u@ == (UserView {
                id,
                name: name@,
                password: password@,
                adminlevel,
                want_be_mod: false,
            }),
    {
        Self { id, name, password, adminlevel, want_be_mod: false }
    }

    /// The user as `name: <name>, level: <level name>`.
    pub fn to_display_string(&self) -> (s: String)
        ensures
            s@ == "name: "@ + self.name@ + ", level: "@ + level_name_of(self.adminlevel),
    {
        let mut s = string_of("name: ");
        push_str(&mut s, self.name.as_str());
        push_str(&mut s, ", level: ");
        push_str(&mut s, self.adminlevel.level_name());
        s
    }

    /// Asks to be promoted.
    pub fn want_mod(&mut self)
        ensures
            final(self)@ == (UserView { want_be_mod: true, ..old(self)@ }),
    {
        self.want_be_mod = true;
    }

    /// Whether this user may promote and demote users, and delete any tweet.
    pub fn is_moderator(&self) -> (b: bool)
        ensures
            b == (self.adminlevel == AdminLevel::Moderator),
    {
        self.adminlevel == AdminLevel::Moderator
    }

    /// Whether this user may approve tweets.
    pub fn may_approve(&self) -> (b: bool)
        ensures
            b == can_approve(self.adminlevel),
    {
        self.adminlevel == AdminLevel::Possibleator || self.adminlevel == AdminLevel::Moderator
    }

    /// Approves a tweet that waits for approval. `found` is the tweet with
    /// the chosen identifier and status `Edited`, if there is one; it is
    /// looked up only for a user who may approve. Answers the tweet to store
    /// back, with status `Approved`, and the reply.
    pub fn accept_wtweet(&self, found: Option<Tweet>) -> (r: (Option<Tweet>, String))
        ensures
            !can_approve(self.adminlevel) ==> r.0 is None && r.1@
                == "❌ Bunun için yetkiniz yok."@,
            can_approve(self.adminlevel) && found is None ==> r.0 is None && r.1@
                == "❌ Tweet bulunamadı veya zaten onaylanmış."@,
            can_approve(self.adminlevel) && found is Some ==> r.0 is Some && r.0->0@
                == (TweetView { status: "Approved"@, ..found->0@ }) && r.1@
                == "✅ Tweet başarıyla onaylandı."@,
    {
        if !self.may_approve() {
            return (None, string_of("❌ Bunun için yetkiniz yok."));
        }
        match found {
            Some(mut tweet) => {
                tweet.status = string_of("Approved");
                (Some(tweet), string_of("✅ Tweet başarıyla onaylandı."))
            },
            None => (None, string_of("❌ Tweet bulunamadı veya zaten onaylanmış.")),
        }
    }

    /// Writes a tweet: answers the new tweet to store, in status `Editing`
    /// and by this user, and the reply. Customers may not write, and title
    /// and text must not be empty.
    pub fn write_tweet(&self, title: String, tweet_message: String) -> (r: (Option<Tweet>, String))
        ensures
            !can_write(self.adminlevel) ==> r.0 is None && r.1@
                == "Levelin tweet atmaya yetmiyor. Tweet atmak istiyorsan başvur."@,
            can_write(self.adminlevel) && (title@.len() == 0 || tweet_message@.len() == 0)
                ==> r.0 is None && r.1@ == "Lütfen gerekli kısımları boş bırakmayın."@,
            can_write(self.adminlevel) && title@.len() != 0 && tweet_message@.len() != 0
                ==> (r.0 matches Some(t) && t@ == (TweetView {
                id: None,
                author: self.name@,
                title: title@,
                tweet: tweet_message@,
                status: "Editing"@,
            }) && r.1@
                == "Tweet başariyla oluşturuldu ve onay bekleyen tweetler listesine eklendi."@),
    {
        if self.adminlevel.level_value() < 1 {
            return (
                None,
                string_of("Levelin tweet atmaya yetmiyor. Tweet atmak istiyorsan başvur."),
            );
        }
        if title.as_str().is_empty() || tweet_message.as_str().is_empty() {
            return (None, string_of("Lütfen gerekli kısımları boş bırakmayın."));
        }
        let new_tweet = Tweet {
            id: None,
            author: copy_string(&self.name),
            title,
            tweet: tweet_message,
            status: string_of("Editing"),
        };
        (
            Some(new_tweet),
            string_of("Tweet başariyla oluşturuldu ve onay bekleyen tweetler listesine eklendi."),
        )
    }

    /// Promotes a user who asked for it by one level. `target` is the user
    /// with the chosen name, if there is one; it is looked up only for a
    /// moderator. Answers the level change to store and the reply; the
    /// stored level is written as the level's name, and the request is
    /// cleared.
    pub fn promote_user(&self, target: Option<User>) -> (r: (Option<LevelUpdate>, String))
        ensures
            self.adminlevel != AdminLevel::Moderator ==> r.0 is None && r.1@
                == "Moderatör yetkiniz yok."@,
            self.adminlevel == AdminLevel::Moderator && target is None ==> r.0 is None && r.1@
                == "Kullanıcı bulunamadı."@,
            target matches Some(u) && self.adminlevel == AdminLevel::Moderator && !u.want_be_mod
                ==> r.0 is None && r.1@ == "Kullanıcı böyle bir istekte bulunmamış."@,
            target matches Some(u) && self.adminlevel == AdminLevel::Moderator && u.want_be_mod
                && promoted(u.adminlevel) is None ==> r.0 is None && r.1@
                == "Kullanıcıya yetki verilemedi."@,
            self.adminlevel == AdminLevel::Moderator && target is Some && target->0.want_be_mod
                && promoted(target->0.adminlevel) is Some ==> r.0 is Some && r.0->0.adminlevel
                == promoted(target->0.adminlevel)->0 && r.0->0.adminlevel_field@ == level_name_of(
                r.0->0.adminlevel) && !r.0->0.want_be_mod && r.1@
                == "Kullanıcının leveli arttırıldı."@,
    {
        if self.adminlevel != AdminLevel::Moderator {
            return (None, string_of("Moderatör yetkiniz yok."));
        }
        match target {
            Some(target_user) => {
                if !target_user.want_be_mod {
                    return (None, string_of("Kullanıcı böyle bir istekte bulunmamış."));
                }
                let next = match target_user.adminlevel {
                    AdminLevel::Customer => AdminLevel::Author,
                    AdminLevel::Author => AdminLevel::Regulator,
                    AdminLevel::Regulator => AdminLevel::Possibleator,
                    AdminLevel::Possibleator => AdminLevel::Moderator,
                    _ => {
                        return (None, string_of("Kullanıcıya yetki verilemedi."));
                    },
                };
                let update = LevelUpdate {
                    adminlevel: next,
                    adminlevel_field: string_of(next.level_name()),
                    want_be_mod: false,
                };
                (Some(update), string_of("Kullanıcının leveli arttırıldı."))
            },
            None => (None, string_of("Kullanıcı bulunamadı.")),
        }
    }

    /// Demotes a user by one level. `target` is the user with the chosen
    /// name, if there is one; it is looked up only for a moderator. Answers
    /// the level change to store and the reply; the stored level is written
    /// as the decimal rank, and the request is cleared.
    pub fn demote_user(&self, target: Option<User>) -> (r: (Option<LevelUpdate>, String))
        ensures
            self.adminlevel != AdminLevel::Moderator ==> r.0 is None && r.1@
                == "Moderatör yetkiniz yok."@,
            self.adminlevel == AdminLevel::Moderator && target is None ==> r.0 is None && r.1@
                == "Kullanıcı bulunamadı."@,
            target matches Some(u) && self.adminlevel == AdminLevel::Moderator && demoted(
                u.adminlevel,
            ) is None ==> r.0 is None && r.1@ == "Kullanıcının leveli zaten en düşük."@,
            self.adminlevel == AdminLevel::Moderator && target is Some && demoted(
                target->0.adminlevel,
            ) is Some ==> r.0 is Some && r.0->0.adminlevel == demoted(target->0.adminlevel)->0
                && r.0->0.adminlevel_field@ == decimal(rank(r.0->0.adminlevel))
                && !r.0->0.want_be_mod && r.1@ == "Kullanıcının leveli düşürüldü."@,
    {
        if self.adminlevel != AdminLevel::Moderator {
            return (None, string_of("Moderatör yetkiniz yok."));
        }
        match target {
            Some(target_user) => {
                let next = match target_user.adminlevel {
                    AdminLevel::Moderator => AdminLevel::Possibleator,
                    AdminLevel::Possibleator => AdminLevel::Regulator,
                    AdminLevel::Regulator => AdminLevel::Author,
                    AdminLevel::Author => AdminLevel::Customer,
                    AdminLevel::Customer => {
                        return (None, string_of("Kullanıcının leveli zaten en düşük."));
                    },
                };
                let v = next.level_value();
                let update = LevelUpdate {
                    adminlevel: next,
                    adminlevel_field: decimal_string(v as usize),
                    want_be_mod: false,
                };
                (Some(update), string_of("Kullanıcının leveli düşürüldü."))
            },
            None => (None, string_of("Kullanıcı bulunamadı.")),
        }
    }

    /// Edits one section of a tweet. Only moderators and regulators may
    /// edit; a new title must be 1 to 30 bytes and a new text 1 to 100
    /// bytes, and either moves the tweet to status `Edited`; a new status
    /// must be one of the four.
    pub fn edit_tweet(&self, section: EditableTweetSection, tweet: &mut Tweet) -> (reply: String)
        ensures
            !can_edit(self.adminlevel) ==> final(tweet)@ == old(tweet)@ && reply@
                == "Level yetersiz. Sadece Moderator ve Regulator tweet düzenleyebilir."@,
            can_edit(self.adminlevel) ==> (final(tweet)@, reply@) == edited(section, old(tweet)@),
    {
        if self.adminlevel != AdminLevel::Moderator && self.adminlevel != AdminLevel::Regulator {
            return string_of("Level yetersiz. Sadece Moderator ve Regulator tweet düzenleyebilir.");
        }
        match section {
            EditableTweetSection::Title(new_title) => {
                if new_title.as_str().is_empty() || new_title.as_str().len() > 30 {
                    return string_of("Başlık boş olamaz ve 30 karakterden uzun olamaz.");
                }
                tweet.title = new_title;
                tweet.status = string_of("Edited");
                string_of("Başlık başarıyla güncellendi.")
            },
            EditableTweetSection::Tweet(new_tweet) => {
                if new_tweet.as_str().is_empty() || new_tweet.as_str().len() > 100 {
                    return string_of("Tweet mesajı boş olamaz ve 100 karakterden uzun olamaz.");
                }
                tweet.tweet = new_tweet;
                tweet.status = string_of("Edited");
                string_of("Tweet mesajı başarıyla güncellendi.")
            },
            EditableTweetSection::Status(new_status) => {
                if !is_valid_status(&new_status) {
                    let mut m = string_of("Geçersiz status: ");
                    push_str(&mut m, new_status.as_str());
                    push_str(
                        &mut m,
                        ". Geçerli statusler: [\"Editing\", \"Edited\", \"Approved\", \"Rejected\"]",
                    );
                    return m;
                }
                tweet.status = new_status;
                string_of("Status başarıyla güncellendi.")
            },
        }
    }

    /// The first step of deleting a tweet by its identifier text: only a
    /// moderator may, and the text must not be empty. `Some` is the reply
    /// when the deletion stops here; `None` means the tweet is looked up.
    pub fn delete_tweet(&self, tweet_id: &str) -> (r: Option<String>)
        ensures
            self.adminlevel != AdminLevel::Moderator ==> (r matches Some(m) && m@
                == "❌ Levelin tweet silmeye yetmiyor."@),
            self.adminlevel == AdminLevel::Moderator && tweet_id@.len() == 0 ==> (r matches Some(
                m) && m@ == "❌ Geçerli bir Tweet ID girilmedi."@),
            self.adminlevel == AdminLevel::Moderator && tweet_id@.len() != 0 ==> r is None,
    {
        if self.adminlevel != AdminLevel::Moderator {
            return Some(string_of("❌ Levelin tweet silmeye yetmiyor."));
        }
        if tweet_id.is_empty() {
            return Some(string_of("❌ Geçerli bir Tweet ID girilmedi."));
        }
        None
    }

    /// The first step of deleting one of the user's own tweets: authors and
    /// above may, and the identifier must be twenty-four hexadecimal digits.
    /// `Ok` is the identifier to look up; `Err` is the reply.
    pub fn delete_own_tweet_by_id(&self, tweet_id_hex: &str) -> (r: Result<Oid, String>)
        ensures
            rank(self.adminlevel) < 1 ==> (r matches Err(m) && m@
                == "Levelin tweet silmeye yetmiyor."@),
            rank(self.adminlevel) >= 1 && parse_oid_text(tweet_id_hex@) is None ==> (r matches Err(
                m) && m@ == "Geçersiz tweet id formatı (ObjectId hex bekleniyor)."@),
            rank(self.adminlevel) >= 1 && parse_oid_text(tweet_id_hex@) is Some ==> r is Ok
                && r->Ok_0.bytes@ == parse_oid_text(tweet_id_hex@)->0,
    {
        if self.adminlevel < AdminLevel::Author {
            return Err(string_of("Levelin tweet silmeye yetmiyor."));
        }
        match Oid::parse_str(tweet_id_hex) {
            Some(oid) => Ok(oid),
            None => Err(string_of("Geçersiz tweet id formatı (ObjectId hex bekleniyor).")),
        }
    }

    /// The second step of deleting one of the user's own tweets, with the
    /// tweet that the lookup found. `Some` is the reply when the deletion
    /// stops here; `None` means the tweet is deleted. Only the author may
    /// delete it.
    pub fn delete_own_after_lookup(&self, found: &Option<Tweet>) -> (r: Option<String>)
        ensures
            found is None ==> (r matches Some(m) && m@ == "❌ Böyle bir tweet bulunamadı."@),
            found matches Some(t) && t.author@ != self.name@ ==> (r matches Some(m) && m@
                == "Başkasının tweetini silemezsin."@),
            found matches Some(t) && t.author@ == self.name@ ==> r is None,
    {
        match found {
            Some(t) => {
                if t.author != self.name {
                    Some(string_of("Başkasının tweetini silemezsin."))
                } else {
                    None
                }
            },
            None => Some(string_of("❌ Böyle bir tweet bulunamadı.")),
        }
    }
}

/// The second step of deleting a tweet by its identifier text, with what
/// the lookup gave: whether a tweet was found, or the lookup's error text.
/// `Some` is the reply when the deletion stops here; `None` means the tweet
/// is deleted.
pub fn delete_tweet_after_lookup(found: Result<bool, String>) -> (r: Option<String>)
    ensures
        found matches Ok(b) && b ==> r is None,
        found matches Ok(b) && !b ==> (r matches Some(m) && m@
            == "❌ Böyle bir tweet bulunamadı."@),
        found matches Err(e) ==> (r matches Some(m) && m@ == "❌ Tweet aranırken hata: "@ + e@),
{
    match found {
        Ok(true) => None,
        Ok(false) => Some(string_of("❌ Böyle bir tweet bulunamadı.")),
        Err(e) => {
            let mut m = string_of("❌ Tweet aranırken hata: ");
            push_str(&mut m, e.as_str());
            Some(m)
        },
    }
}

/// The reply after deleting a tweet by its identifier text, from the number
/// of deleted tweets or the deletion's error text.
pub fn delete_tweet_report(deleted: Result<u64, String>) -> (m: String)
    ensures
        deleted matches Ok(n) && n > 0 ==> m@ == "✅ Tweet başarıyla silindi."@,
        deleted matches Ok(n) && n == 0 ==> m@ == "❌ Tweet bulunamadı."@,
        deleted matches Err(e) ==> m@ == "❌ Silme sırasında hata: "@ + e@,
{
    match deleted {
        Ok(n) => {
            if n > 0 {
                string_of("✅ Tweet başarıyla silindi.")
            } else {
                string_of("❌ Tweet bulunamadı.")
            }
        },
        Err(e) => {
            let mut m = string_of("❌ Silme sırasında hata: ");
            push_str(&mut m, e.as_str());
            m
        },
    }
}

/// The reply after deleting one of the user's own tweets, from the number
/// of deleted tweets.
pub fn delete_own_report(deleted_count: u64) -> (m: String)
    ensures
        deleted_count > 0 ==> m@ == "✅ Tweet başarıyla silindi."@,
        deleted_count == 0 ==> m@ == "❌ Tweet silinemedi (bulunamadı)."@,
{
    if deleted_count > 0 {
        string_of("✅ Tweet başarıyla silindi.")
    } else {
        string_of("❌ Tweet silinemedi (bulunamadı).")
    }
}

/// Whether a new user is stored, given whether a user of that name exists.
pub open spec fn add_user_stores(name_taken: bool) -> bool {
    !name_taken
}

/// The names after adding a user named `name` to users named `names`.
pub open spec fn names_after_add(names: Seq<Seq<char>>, name: Seq<char>) -> Seq<Seq<char>> {
    if add_user_stores(names.contains(name)) {
        names.push(name)
    } else {
        names
    }
}

/// Adding users keeps names unique: when the stored names are pairwise
/// distinct, they still are after adding a user, and the new name is among
/// them.
pub proof fn law_add_user_keeps_names_unique(names: Seq<Seq<char>>, name: Seq<char>)
    requires
        names.no_duplicates(),
    ensures
        names_after_add(names, name).no_duplicates(),
        names_after_add(names, name).contains(name),
{
    if !names.contains(name) {
        let n = names.push(name);
        assert(n[names.len() as int] == name);
        assert forall|i: int, j: int| 0 <= i < n.len() && 0 <= j < n.len() && i != j implies n[i]
            != n[j] by {
            if i < names.len() && j < names.len() {
                assert(n[i] == names[i] && n[j] == names[j]);
            } else if i < names.len() {
                assert(n[i] == names[i]);
            } else {
                assert(n[j] == names[j]);
            }
        }
    }
}

/// Adding a user: names are unique. Answers whether to store the user and
/// the reply, from whether a user of that name exists.
pub fn add_user_outcome(name_taken: bool) -> (r: (bool, String))
    ensures
        r.0 == add_user_stores(name_taken),
        name_taken ==> !r.0 && r.1@ == "Bu isim zaten kullanılıyor."@,
        !name_taken ==> r.0 && r.1@ == "Kullanıcı başarıyla eklendi."@,
{
    if name_taken {
        (false, string_of("Bu isim zaten kullanılıyor."))
    } else {
        (true, string_of("Kullanıcı başarıyla eklendi."))
    }
}

/// The life of a tweet: a tweet that is written starts in `Editing`; an
/// accepted edit of its title or text moves it to `Edited`; approval moves
/// it to `Approved`; and only a valid status can be set by hand.
pub proof fn law_tweet_workflow(t: TweetView, section: EditableTweetSection)
    ensures
        ({
            let (n, _) = edited(section, t);
            &&& section matches EditableTweetSection::Title(_) ==> n == t || n.status
                == "Edited"@
            &&& section matches EditableTweetSection::Tweet(_) ==> n == t || n.status
                == "Edited"@
            &&& section matches EditableTweetSection::Status(s) ==> n == t || (valid_status(s@)
                && n.status == s@)
            &&& n.id == t.id && n.author == t.author
        }),
        ({
            let (_, reply) = edited(section, t);
            &&& section matches EditableTweetSection::Title(s) ==> ((reply
                == "Başlık başarıyla güncellendi."@) <==> (s@.len() != 0 && str_len(s@) <= 30))
            &&& section matches EditableTweetSection::Tweet(s) ==> ((reply
                == "Tweet mesajı başarıyla güncellendi."@) <==> (s@.len() != 0 && str_len(s@)
                <= 100))
            &&& section matches EditableTweetSection::Status(s) ==> ((reply
                == "Status başarıyla güncellendi."@) <==> valid_status(s@))
        }),
{
    reveal_strlit("Başlık başarıyla güncellendi.");
    reveal_strlit("Başlık boş olamaz ve 30 karakterden uzun olamaz.");
    reveal_strlit("Tweet mesajı başarıyla güncellendi.");
    reveal_strlit("Tweet mesajı boş olamaz ve 100 karakterden uzun olamaz.");
    reveal_strlit("Status başarıyla güncellendi.");
    reveal_strlit("Geçersiz status: ");
    assert("Başlık başarıyla güncellendi."@.len() != "Başlık boş olamaz ve 30 karakterden uzun olamaz."@.len());
    assert("Tweet mesajı başarıyla güncellendi."@.len() != "Tweet mesajı boş olamaz ve 100 karakterden uzun olamaz."@.len());
    match section {
        EditableTweetSection::Status(s) => {
            if !valid_status(s@) {
                assert(invalid_status_reply(s@)[0] == 'G');
            }
        },
        _ => {},
    }
}

/// A status edit by a user who may edit is accepted exactly for the four
/// statuses `Editing`, `Edited`, `Approved` and `Rejected`: the tweet then
/// takes the new status, keeps everything else, and the reply is the
/// success message; any other status leaves the tweet as it was and is
/// answered with the list of the valid ones.
pub proof fn law_status_edit(s: String, t: TweetView)
    ensures
        ({
            let st = s@;
            let ok = st == "Editing"@ || st == "Edited"@ || st == "Approved"@ || st == "Rejected"@;
            let (n, reply) = edited(EditableTweetSection::Status(s), t);
            &&& ok ==> n == TweetView { status: st, ..t } && reply
                == "Status başarıyla güncellendi."@
            &&& !ok ==> n == t && reply == "Geçersiz status: "@ + st
                + ". Geçerli statusler: [\"Editing\", \"Edited\", \"Approved\", \"Rejected\"]"@
            &&& (reply == "Status başarıyla güncellendi."@) <==> ok
        }),
{
    reveal_strlit("Status başarıyla güncellendi.");
    reveal_strlit("Geçersiz status: ");
    let st = s@;
    if !valid_status(st) {
        assert(invalid_status_reply(st)[0] == 'G');
    }
}

} // verus!
