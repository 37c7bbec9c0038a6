//! The numbered lists of tweets and users that the terminal prints before
//! asking which entry to act on, and the choice of an entry.

use vstd::prelude::*;
use crate::oid::hex_encode;
use crate::oid::Oid;
use crate::strutil::push_str;
use crate::strutil::push_char;
use crate::strutil::push_decimal;
use crate::strutil::decimal;
use crate::strutil::parse_unsigned;
use crate::strutil::parse_unsigned_text;
use crate::strutil::law_decimal_round_trip;
use crate::tweeter::types::AdminLevel;
use crate::tweeter::types::Tweet;
use crate::tweeter::types::TweetView;
use crate::tweeter::types::User;
use crate::tweeter::types::UserView;
use crate::tweeter::rules::level_name_of;
use crate::tweeter::rules::rank;

verus! {

/// The three layouts of a list of tweets: for editing, for approval, and
/// for deletion. They differ in how the labels are padded.
#[derive(Clone, Copy, Debug, PartialEq, Eq, Structural)]
pub enum ListStyle {
    Editing,
    Approval,
    Deletion,
}

/// The labels of the lines of an entry: number, identifier, title, text,
/// author, status.
pub open spec fn labels(style: ListStyle) -> (
    Seq<char>,
    Seq<char>,
    Seq<char>,
    Seq<char>,
    Seq<char>,
    Seq<char>,
) {
    match style {
        ListStyle::Editing => (
            "Num : "@,
            "ID: "@,
            "Title : "@,
            "Tweet : "@,
            "Author: "@,
            "Status: "@,
        ),
        ListStyle::Approval => (
            "Num : "@,
            "ID   : "@,
            "Title: "@,
            "Tweet: "@,
            "Author: "@,
            "Status: "@,
        ),
        ListStyle::Deletion => (
            "Num   : "@,
            "ID    : "@,
            "Title : "@,
            "Tweet : "@,
            "Author: "@,
            "Status: "@,
        ),
    }
}

/// How an identifier is shown: its hexadecimal text, or `Bilinmeyen ID`
/// when there is none.
pub open spec fn id_text(id: Option<Oid>) -> Seq<char> {
    match id {
        Some(o) => hex_encode(o.bytes@),
        None => "Bilinmeyen ID"@,
    }
}

/// A line: the label, the value, and a line break.
pub open spec fn line(label: Seq<char>, value: Seq<char>) -> Seq<char> {
    label + value + seq!['\n']
}

/// The entry of tweet `t` numbered `i`, with a separator line after it.
pub open spec fn tweet_entry(style: ListStyle, i: nat, t: TweetView) -> Seq<char> {
    let l = labels(style);
    line(l.0, decimal(i)) + line(l.1, id_text(t.id)) + line(l.2, t.title) + line(l.3, t.tweet)
        + line(l.4, t.author) + line(l.5, t.status) + line("-------------------"@, Seq::empty())
}

/// The entries of the tweets in the order given, numbered from 0.
pub open spec fn tweet_listing(style: ListStyle, ts: Seq<TweetView>) -> Seq<char>
    decreases ts.len(),
{
    if ts.len() == 0 {
        Seq::empty()
    } else {
        tweet_listing(style, ts.drop_last()) + tweet_entry(style, (ts.len() - 1) as nat, ts.last())
    }
}

/// The views of a list of tweets.
pub open spec fn tweet_views(ts: Seq<Tweet>) -> Seq<TweetView> {
    ts.map_values(|t: Tweet| t@)
}

fn push_line(s: &mut String, label: &str, value: &str)
    ensures
        final(s)@ == old(s)@ + line(label@, value@),
{
    push_str(s, label);
    push_str(s, value);
    push_char(s, '\n');
    assert(final(s)@ =~= old(s)@ + line(label@, value@));
}

fn push_rule(s: &mut String, label: &str)
    ensures
        final(s)@ == old(s)@ + line(label@, Seq::empty()),
{
    push_str(s, label);
    push_char(s, '\n');
    assert(final(s)@ =~= old(s)@ + line(label@, Seq::empty()));
}

fn push_number_line(s: &mut String, label: &str, n: usize)
    ensures
        final(s)@ == old(s)@ + line(label@, decimal(n as nat)),
{
    push_str(s, label);
    push_decimal(s, n);
    push_char(s, '\n');
    assert(final(s)@ =~= old(s)@ + line(label@, decimal(n as nat)));
}

fn push_id_line(s: &mut String, label: &str, id: Option<Oid>)
    ensures
        final(s)@ == old(s)@ + line(label@, id_text(id)),
{
    push_str(s, label);
    match id {
        Some(o) => {
            let h = o.to_hex();
            push_str(s, h.as_str());
        },
        None => {
            push_str(s, "Bilinmeyen ID");
        },
    }
    push_char(s, '\n');
    assert(final(s)@ =~= old(s)@ + line(label@, id_text(id)));
}

fn style_labels(style: ListStyle) -> (r: (&'static str, &'static str, &'static str, &'static str))
    ensures
        labels(style).0 == r.0@,
        labels(style).1 == r.1@,
        labels(style).2 == r.2@,
        labels(style).3 == r.3@,
{
    match style {
        ListStyle::Editing => ("Num : ", "ID: ", "Title : ", "Tweet : "),
        ListStyle::Approval => ("Num : ", "ID   : ", "Title: ", "Tweet: "),
        ListStyle::Deletion => ("Num   : ", "ID    : ", "Title : ", "Tweet : "),
    }
}

/// The numbered list of tweets in the given layout, as the terminal prints
/// it: for each tweet its number, identifier, title, text, author and
/// status, one per line, then a separator line.
pub fn tweet_list(style: ListStyle, tweets: &Vec<Tweet>) -> (s: String)
    ensures
        s@ == tweet_listing(style, tweet_views(tweets@)),
{
    let (num, idl, titl, twl) = style_labels(style);
    let ghost views = tweet_views(tweets@);
    let mut s = String::new();
    let mut k: usize = 0;
    while k < tweets.len()
        invariant
            k <= tweets@.len(),
            views == tweet_views(tweets@),
            labels(style).0 == num@,
            labels(style).1 == idl@,
            labels(style).2 == titl@,
            labels(style).3 == twl@,
            s@ == tweet_listing(style, views.take(k as int)),
        decreases tweets@.len() - k,
    {
        let t = &tweets[k];
        let ghost before = s@;
        push_number_line(&mut s, num, k);
        push_id_line(&mut s, idl, t.id);
        push_line(&mut s, titl, t.title.as_str());
        push_line(&mut s, twl, t.tweet.as_str());
        push_line(&mut s, "Author: ", t.author.as_str());
        push_line(&mut s, "Status: ", t.status.as_str());
        push_rule(&mut s, "-------------------");
        assert(views.take(k + 1 as int).drop_last() =~= views.take(k as int));
        assert(views[k as int] == t@);
        assert(s@ =~= before + tweet_entry(style, k as nat, t@));
        k = k + 1;
    }
    assert(views.take(tweets@.len() as int) =~= views);
    s
}

/// The tweets in reverse order: the newest (last stored) first.
pub fn newest_first(tweets: Vec<Tweet>) -> (r: Vec<Tweet>)
    ensures
        r@ == tweets@.reverse(),
{
    let ghost orig = tweets@;
    let n = tweets.len();
    let mut v = tweets;
    let mut r: Vec<Tweet> = Vec::new();
    while v.len() > 0
        invariant
            v@.len() <= n,
            n == orig.len(),
            v@ == orig.subrange(0, v@.len() as int),
            r@.len() == n - v@.len(),
            forall|j: int| 0 <= j < r@.len() ==> #[trigger] r@[j] == orig[n - 1 - j],
        decreases v@.len(),
    {
        let t = v.pop().unwrap();
        r.push(t);
    }
    assert(r@ =~= orig.reverse());
    r
}

/// The entry of a user asking for promotion, numbered `i`.
pub open spec fn candidate_entry(i: nat, u: UserView) -> Seq<char> {
    line("Num : "@, decimal(i)) + line("İsim: "@, u.name) + line(
        "Seviye: "@,
        level_name_of(u.adminlevel),
    ) + line("-------------------------"@, Seq::empty())
}

/// The entries of the users asking for promotion, numbered from 0.
pub open spec fn candidate_listing(us: Seq<UserView>) -> Seq<char>
    decreases us.len(),
{
    if us.len() == 0 {
        Seq::empty()
    } else {
        candidate_listing(us.drop_last()) + candidate_entry((us.len() - 1) as nat, us.last())
    }
}

/// The views of a list of users.
pub open spec fn user_views(us: Seq<User>) -> Seq<UserView> {
    us.map_values(|u: User| u@)
}

/// The numbered list of users asking for promotion: number, name and
/// level name of each, then a separator line.
pub fn candidate_list(users: &Vec<User>) -> (s: String)
    ensures
        s@ == candidate_listing(user_views(users@)),
{
    let ghost views = user_views(users@);
    let mut s = String::new();
    let mut k: usize = 0;
    while k < users.len()
        invariant
            k <= users@.len(),
            views == user_views(users@),
            s@ == candidate_listing(views.take(k as int)),
        decreases users@.len() - k,
    {
        let u = &users[k];
        let ghost before = s@;
        push_number_line(&mut s, "Num : ", k);
        push_line(&mut s, "İsim: ", u.name.as_str());
        push_line(&mut s, "Seviye: ", u.adminlevel.level_name());
        push_rule(&mut s, "-------------------------");
        assert(views.take(k + 1 as int).drop_last() =~= views.take(k as int));
        assert(views[k as int] == u@);
        assert(s@ =~= before + candidate_entry(k as nat, u@));
        k = k + 1;
    }
    assert(views.take(users@.len() as int) =~= views);
    s
}

/// The entry of a user on the list of all users, numbered `i`.
pub open spec fn user_entry(i: nat, u: UserView) -> Seq<char> {
    line("Num        : "@, decimal(i)) + line("ID         : "@, id_text(u.id)) + line(
        "İsim       : "@,
        u.name,
    ) + line("Level      : "@, decimal(rank(u.adminlevel))) + line(
        "Mod İstek? : "@,
        if u.want_be_mod {
            "Evet"@
        } else {
            "Hayır"@
        },
    ) + line("-------------------"@, Seq::empty())
}

/// The entries of all users, numbered from 0.
pub open spec fn user_listing(us: Seq<UserView>) -> Seq<char>
    decreases us.len(),
{
    if us.len() == 0 {
        Seq::empty()
    } else {
        user_listing(us.drop_last()) + user_entry((us.len() - 1) as nat, us.last())
    }
}

/// The numbered list of all users: number, identifier, name, level rank
/// and whether promotion was asked for, then a separator line.
pub fn user_list(users: &Vec<User>) -> (s: String)
    ensures
        s@ == user_listing(user_views(users@)),
{
    let ghost views = user_views(users@);
    let mut s = String::new();
    let mut k: usize = 0;
    while k < users.len()
        invariant
            k <= users@.len(),
            views == user_views(users@),
            s@ == user_listing(views.take(k as int)),
        decreases users@.len() - k,
    {
        let u = &users[k];
        let ghost before = s@;
        push_number_line(&mut s, "Num        : ", k);
        push_id_line(&mut s, "ID         : ", u.id);
        push_line(&mut s, "İsim       : ", u.name.as_str());
        let v = u.adminlevel.level_value();
        push_number_line(&mut s, "Level      : ", v as usize);
        push_line(&mut s, "Mod İstek? : ", if u.want_be_mod { "Evet" } else { "Hayır" });
        push_rule(&mut s, "-------------------");
        assert(views.take(k + 1 as int).drop_last() =~= views.take(k as int));
        assert(views[k as int] == u@);
        assert(s@ =~= before + user_entry(k as nat, u@));
        k = k + 1;
    }
    assert(views.take(users@.len() as int) =~= views);
    s
}

/// The entry chosen from a list of `len` entries by the typed text: the
/// text read as a number, when it is one and is below `len`.
pub open spec fn chosen_index(input: Seq<char>, len: nat) -> Option<nat> {
    match parse_unsigned(input, usize::MAX as nat) {
        Some(i) => if i < len {
            Some(i)
        } else {
            None
        },
        None => None,
    }
}

/// The entry chosen from a list of `len` entries by the typed text; `None`
/// when the text is not a number below `len`.
pub fn select_index(input: &str, len: usize) -> (r: Option<usize>)
    ensures
        match chosen_index(input@, len as nat) {
            Some(i) => r == Some(i as usize),
            None => r is None,
        },
{
    let parsed = parse_unsigned_text(input, usize::MAX as u64);
    let index: usize = match parsed {
        Some(v) => v as usize,
        None => usize::MAX,
    };
    if index >= len {
        None
    } else {
        Some(index)
    }
}

/// The request line of a user's entry reflects that user's own flag: the
/// entry ends with `Mod İstek? : Evet` when the user asked for promotion and
/// `Mod İstek? : Hayır` when not, then the separator line; so two users who
/// differ only in that flag get different entries.
pub proof fn law_user_entry_shows_request(i: nat, u: UserView)
    ensures
        ("Mod İstek? : "@ + (if u.want_be_mod {
            "Evet"@
        } else {
            "Hayır"@
        }) + seq!['\n'] + "-------------------"@ + seq!['\n']).is_suffix_of(user_entry(i, u)),
        user_entry(i, u) != user_entry(i, UserView { want_be_mod: !u.want_be_mod, ..u }),
{
    reveal_strlit("Evet");
    reveal_strlit("Hayır");
    let answer: Seq<char> = if u.want_be_mod {
        "Evet"@
    } else {
        "Hayır"@
    };
    let front = line("Num        : "@, decimal(i)) + line("ID         : "@, id_text(u.id)) + line(
        "İsim       : "@,
        u.name,
    ) + line("Level      : "@, decimal(rank(u.adminlevel)));
    let tail = "Mod İstek? : "@ + answer + seq!['\n'] + "-------------------"@ + seq!['\n'];
    let e = user_entry(i, u);
    assert(e =~= front + tail);
    assert(e.subrange(e.len() - tail.len(), e.len() as int) =~= tail);
    let v = UserView { want_be_mod: !u.want_be_mod, ..u };
    let other: Seq<char> = if v.want_be_mod {
        "Evet"@
    } else {
        "Hayır"@
    };
    let tail2 = "Mod İstek? : "@ + other + seq!['\n'] + "-------------------"@ + seq!['\n'];
    assert(user_entry(i, v) =~= front + tail2);
    assert(answer.len() != other.len());
}

/// The listing of the first tweets is where the listing of all of them
/// starts.
proof fn lemma_tweet_listing_prefix(style: ListStyle, ts: Seq<TweetView>, n: int)
    requires
        0 <= n <= ts.len(),
    ensures
        tweet_listing(style, ts.take(n)).is_prefix_of(tweet_listing(style, ts)),
    decreases ts.len(),
{
    if n < ts.len() {
        let init = ts.drop_last();
        assert(init.take(n) =~= ts.take(n));
        lemma_tweet_listing_prefix(style, init, n);
        let a = tweet_listing(style, ts.take(n));
        let b = tweet_listing(style, init);
        assert(tweet_listing(style, ts) == b + tweet_entry(style, (ts.len() - 1) as nat, ts.last()));
        assert(tweet_listing(style, ts).subrange(0, a.len() as int) =~= b.subrange(0, a.len() as int));
    } else {
        assert(ts.take(n) =~= ts);
    }
}

/// The listing of the first users is where the listing of all of them
/// starts.
proof fn lemma_user_listing_prefix(us: Seq<UserView>, n: int)
    requires
        0 <= n <= us.len(),
    ensures
        user_listing(us.take(n)).is_prefix_of(user_listing(us)),
    decreases us.len(),
{
    if n < us.len() {
        let init = us.drop_last();
        assert(init.take(n) =~= us.take(n));
        lemma_user_listing_prefix(init, n);
        let a = user_listing(us.take(n));
        let b = user_listing(init);
        assert(user_listing(us) == b + user_entry((us.len() - 1) as nat, us.last()));
        assert(user_listing(us).subrange(0, a.len() as int) =~= b.subrange(0, a.len() as int));
    } else {
        assert(us.take(n) =~= us);
    }
}

/// The listing of the first candidates is where the listing of all of them
/// starts.
proof fn lemma_candidate_listing_prefix(us: Seq<UserView>, n: int)
    requires
        0 <= n <= us.len(),
    ensures
        candidate_listing(us.take(n)).is_prefix_of(candidate_listing(us)),
    decreases us.len(),
{
    if n < us.len() {
        let init = us.drop_last();
        assert(init.take(n) =~= us.take(n));
        lemma_candidate_listing_prefix(init, n);
        let a = candidate_listing(us.take(n));
        let b = candidate_listing(init);
        assert(candidate_listing(us) == b + candidate_entry((us.len() - 1) as nat, us.last()));
        assert(candidate_listing(us).subrange(0, a.len() as int) =~= b.subrange(0, a.len() as int));
    } else {
        assert(us.take(n) =~= us);
    }
}

/// The number printed on a tweet's entry picks that tweet: the listing
/// shows the tweets in the order given, the entry of tweet `k` (after the
/// entries of the tweets before it) opens with its number line `k`, and
/// typing that number chooses entry `k`.
pub proof fn law_tweet_listing_number_selects(style: ListStyle, ts: Seq<TweetView>, k: nat)
    requires
        k < ts.len() <= usize::MAX,
    ensures
        chosen_index(decimal(k), ts.len()) == Some(k),
        (labels(style).0 + decimal(k) + seq!['\n']).is_prefix_of(tweet_entry(style, k, ts[k as int])),
        (tweet_listing(style, ts.take(k as int)) + tweet_entry(style, k, ts[k as int])).is_prefix_of(
            tweet_listing(style, ts),
        ),
{
    law_decimal_round_trip(k, usize::MAX as nat);
    let t = ts[k as int];
    let e = tweet_entry(style, k, t);
    assert((labels(style).0 + decimal(k) + seq!['\n']).is_prefix_of(e)) by {
        let l = labels(style);
        let first = line(l.0, decimal(k));
        let rest = line(l.1, id_text(t.id)) + line(l.2, t.title) + line(l.3, t.tweet) + line(
            l.4,
            t.author,
        ) + line(l.5, t.status) + line("-------------------"@, Seq::empty());
        assert(e =~= first + rest);
        assert(e.subrange(0, first.len() as int) =~= first);
    }
    assert((tweet_listing(style, ts.take(k as int)) + e).is_prefix_of(tweet_listing(style, ts)))
        by {
        lemma_tweet_listing_prefix(style, ts, k + 1 as int);
        let p = ts.take(k + 1 as int);
        assert(p.drop_last() =~= ts.take(k as int));
        assert(p.last() == t);
        assert(tweet_listing(style, p) == tweet_listing(style, p.drop_last()) + tweet_entry(
            style,
            (p.len() - 1) as nat,
            p.last(),
        ));
    }
}

/// The number printed on a user's entry picks that user: the list of users
/// shows them in the order given, the entry of user `k` (after the entries
/// of the users before it) opens with its number line `k`, and typing that
/// number chooses entry `k`.
pub proof fn law_user_listing_number_selects(us: Seq<UserView>, k: nat)
    requires
        k < us.len() <= usize::MAX,
    ensures
        chosen_index(decimal(k), us.len()) == Some(k),
        ("Num        : "@ + decimal(k) + seq!['\n']).is_prefix_of(user_entry(k, us[k as int])),
        (user_listing(us.take(k as int)) + user_entry(k, us[k as int])).is_prefix_of(
            user_listing(us),
        ),
{
    law_decimal_round_trip(k, usize::MAX as nat);
    lemma_user_listing_prefix(us, k + 1 as int);
    assert(us.take(k + 1 as int).drop_last() =~= us.take(k as int));
    let e = user_entry(k, us[k as int]);
    let first = "Num        : "@ + decimal(k) + seq!['\n'];
    assert(e.subrange(0, first.len() as int) =~= first);
}

/// The number printed on a candidate's entry picks that candidate, and the
/// entry names the candidate and the candidate's level: the entry of user
/// `k` (after the entries of the users before it) is its number line `k`,
/// the name line, the line with the level's name, and the separator.
pub proof fn law_candidate_listing_number_selects(us: Seq<UserView>, k: nat)
    requires
        k < us.len() <= usize::MAX,
    ensures
        chosen_index(decimal(k), us.len()) == Some(k),
        candidate_entry(k, us[k as int]) == "Num : "@ + decimal(k) + seq!['\n'] + "İsim: "@
            + us[k as int].name + seq!['\n'] + "Seviye: "@ + match us[k as int].adminlevel {
            AdminLevel::Customer => "Customer"@,
            AdminLevel::Author => "Author"@,
            AdminLevel::Regulator => "Regulator"@,
            AdminLevel::Possibleator => "Possibleator"@,
            AdminLevel::Moderator => "Moderator"@,
        } + seq!['\n'] + "-------------------------"@ + seq!['\n'],
        (candidate_listing(us.take(k as int)) + candidate_entry(k, us[k as int])).is_prefix_of(
            candidate_listing(us),
        ),
{
    law_decimal_round_trip(k, usize::MAX as nat);
    lemma_candidate_listing_prefix(us, k + 1 as int);
    assert(us.take(k + 1 as int).drop_last() =~= us.take(k as int));
    let u = us[k as int];
    assert(candidate_entry(k, u) =~= "Num : "@ + decimal(k) + seq!['\n'] + "İsim: "@ + u.name
        + seq!['\n'] + "Seviye: "@ + level_name_of(u.adminlevel) + seq!['\n']
        + "-------------------------"@ + seq!['\n']);
}

} // verus!
