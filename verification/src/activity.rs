//! The bot's presence: the `/status` command picks an activity kind from its
//! name, and the activity is kept in the bot's data.
use vstd::prelude::*;
use crate::text::{has_prefix, starts_with};

verus! {

/// The kinds of activity discord shows under a bot's name.
#[derive(PartialEq, Eq, Structural, Debug, Clone, Copy)]
pub enum ActivityKind {
    /// `Playing <name>`.
    Playing,
    /// `Streaming <name>`, with a link.
    Streaming,
    /// `Listening to <name>`.
    Listening,
    /// `Watching <name>`.
    Watching,
    /// A custom status: the state is shown.
    Custom,
    /// `Competing in <name>`.
    Competing,
    /// A kind this library does not know, by its number.
    Unknown(u8),
}

/// An activity of the bot (the data of serenity's `ActivityData`, with the
/// link kept as its text).
pub struct ActivityData {
    /// The activity's name.
    pub name: String,
    /// Its kind.
    pub kind: ActivityKind,
    /// The state, for custom activities.
    pub state: Option<String>,
    /// The link, for streaming activities.
    pub url: Option<String>,
}

/// The view of an optional string.
pub open spec fn opt_view(s: Option<String>) -> Option<Seq<char>> {
    match s {
        Some(t) => Some(t@),
        None => None,
    }
}

/// The abstract content of an activity: name, kind, state and link.
pub open spec fn activity_view(a: ActivityData) -> (Seq<char>, ActivityKind, Option<Seq<char>>, Option<Seq<char>>) {
    (a.name@, a.kind, opt_view(a.state), opt_view(a.url))
}

/// What serenity's `ActivityData::streaming` makes of `url`: `None` where the
/// text is not an absolute URL with a host, else the URL as the `url` crate
/// serializes it.
pub uninterp spec fn streaming_url(url: Seq<char>) -> Option<Seq<char>>;

/// Calls serenity's `ActivityData::streaming(name, url)` and returns the
/// activity's name, kind number, state and link. The contract claims that
/// serenity keeps the name, sets the kind to streaming (number 1), leaves the
/// state empty and stores the link, and that it fails exactly where
/// `streaming_url` is `None`; what the link becomes is only named
/// (`streaming_url`), not stated.
#[verifier::external_body]
fn serenity_streaming(name: &str, url: &str) -> (r: Option<(String, u8, Option<String>, Option<String>)>)
    ensures
        r is Some <==> streaming_url(url@) is Some,
        r matches Some(t) ==> t.0@ == name@ && t.1 == 1 && t.2 is None && opt_view(t.3) == streaming_url(url@),
{
    match serenity::gateway::ActivityData::streaming(name, url) {
        Ok(a) => Some((a.name, u8::from(a.kind), a.state, a.url.map(String::from))),
        Err(_) => None,
    }
}

/// The kind with discord's number `n` (0 playing, 1 streaming, 2 listening,
/// 3 watching, 4 custom, 5 competing).
pub open spec fn kind_of_number(n: u8) -> ActivityKind {
    if n == 0 {
        ActivityKind::Playing
    } else if n == 1 {
        ActivityKind::Streaming
    } else if n == 2 {
        ActivityKind::Listening
    } else if n == 3 {
        ActivityKind::Watching
    } else if n == 4 {
        ActivityKind::Custom
    } else if n == 5 {
        ActivityKind::Competing
    } else {
        ActivityKind::Unknown(n)
    }
}

impl ActivityKind {
    /// The kind with discord's number `n`.
    pub fn from_number(n: u8) -> (k: ActivityKind)
        ensures
            k == kind_of_number(n),
    {
        match n {
            0 => ActivityKind::Playing,
            1 => ActivityKind::Streaming,
            2 => ActivityKind::Listening,
            3 => ActivityKind::Watching,
            4 => ActivityKind::Custom,
            5 => ActivityKind::Competing,
            _ => ActivityKind::Unknown(n),
        }
    }

    /// Discord's number of the kind.
    pub fn number(self) -> (n: u8)
        ensures
            n == match self {
                ActivityKind::Playing => 0u8,
                ActivityKind::Streaming => 1u8,
                ActivityKind::Listening => 2u8,
                ActivityKind::Watching => 3u8,
                ActivityKind::Custom => 4u8,
                ActivityKind::Competing => 5u8,
                ActivityKind::Unknown(m) => m,
            },
    {
        match self {
            ActivityKind::Playing => 0,
            ActivityKind::Streaming => 1,
            ActivityKind::Listening => 2,
            ActivityKind::Watching => 3,
            ActivityKind::Custom => 4,
            ActivityKind::Competing => 5,
            ActivityKind::Unknown(n) => n,
        }
    }
}

impl ActivityData {
    /// `Playing <name>`.
    pub fn playing(name: &str) -> (a: ActivityData)
        ensures
            activity_view(a) == (name@, ActivityKind::Playing, None::<Seq<char>>, None::<Seq<char>>),
    {
        ActivityData { name: name.to_owned(), kind: ActivityKind::Playing, state: None, url: None }
    }

    /// `Listening to <name>`.
    pub fn listening(name: &str) -> (a: ActivityData)
        ensures
            activity_view(a) == (name@, ActivityKind::Listening, None::<Seq<char>>, None::<Seq<char>>),
    {
        ActivityData { name: name.to_owned(), kind: ActivityKind::Listening, state: None, url: None }
    }

    /// `Watching <name>`.
    pub fn watching(name: &str) -> (a: ActivityData)
        ensures
            activity_view(a) == (name@, ActivityKind::Watching, None::<Seq<char>>, None::<Seq<char>>),
    {
        ActivityData { name: name.to_owned(), kind: ActivityKind::Watching, state: None, url: None }
    }

    /// A custom status showing `state` (discord wants a name, `~`, that it does not show).
    pub fn custom(state: &str) -> (a: ActivityData)
        ensures
            activity_view(a) == ("~"@, ActivityKind::Custom, Some(state@), None::<Seq<char>>),
    {
        ActivityData {
            name: String::from_str("~"),
            kind: ActivityKind::Custom,
            state: Some(state.to_owned()),
            url: None,
        }
    }

    /// `Streaming <name>` at `url`; `None` where serenity refuses the link.
    pub fn streaming(name: &str, url: &str) -> (r: Option<ActivityData>)
        ensures
            r is Some <==> streaming_url(url@) is Some,
            r matches Some(a) ==> activity_view(a) == (name@, ActivityKind::Streaming, None::<Seq<char>>, streaming_url(url@)),
    {
        match serenity_streaming(name, url) {
            Some((n, kind, state, link)) => Some(
                ActivityData { name: n, kind: ActivityKind::from_number(kind), state, url: link },
            ),
            None => None,
        }
    }

    /// A copy of the activity.
    pub fn duplicate(&self) -> (a: ActivityData)
        ensures
            activity_view(a) == activity_view(*self),
    {
        ActivityData {
            name: self.name.clone(),
            kind: self.kind,
            state: match &self.state {
                Some(s) => Some(s.clone()),
                None => None,
            },
            url: match &self.url {
                Some(s) => Some(s.clone()),
                None => None,
            },
        }
    }
}

/// The link a streaming status gets when the command gives none.
pub open spec fn default_stream_url() -> Seq<char> {
    "https://ys.mihoyo.com"@
}

/// The link of a streaming status: the given one, else the default.
pub open spec fn effective_stream_url(url: Option<Seq<char>>) -> Seq<char> {
    match url {
        Some(u) => u,
        None => default_stream_url(),
    }
}

/// The activity that `/status <kind> <name> [url]` sets: the kind by its
/// name, a custom status for any other name. Defined where the kind is not
/// streaming or the streaming link is accepted.
pub open spec fn chosen_activity(
    kind: Seq<char>,
    name: Seq<char>,
    url: Option<Seq<char>>,
) -> (Seq<char>, ActivityKind, Option<Seq<char>>, Option<Seq<char>>) {
    if kind == "playing"@ {
        (name, ActivityKind::Playing, None, None)
    } else if kind == "streaming"@ {
        (name, ActivityKind::Streaming, None, streaming_url(effective_stream_url(url)))
    } else if kind == "listening"@ {
        (name, ActivityKind::Listening, None, None)
    } else if kind == "watching"@ {
        (name, ActivityKind::Watching, None, None)
    } else {
        ("~"@, ActivityKind::Custom, Some(name), None)
    }
}

/// `/status <kind> <name>` keeps the given name as the activity's name for
/// every kind but custom, with the kind it names and no state; any other
/// kind word gives a custom activity whose state is the name.
pub proof fn lemma_status_keeps_name(name: Seq<char>, url: Option<Seq<char>>, other: Seq<char>)
    requires
        other != "playing"@,
        other != "streaming"@,
        other != "listening"@,
        other != "watching"@,
    ensures
        chosen_activity("playing"@, name, url) == (name, ActivityKind::Playing, None::<Seq<char>>, None::<Seq<char>>),
        chosen_activity("listening"@, name, url) == (name, ActivityKind::Listening, None::<Seq<char>>, None::<Seq<char>>),
        chosen_activity("watching"@, name, url) == (name, ActivityKind::Watching, None::<Seq<char>>, None::<Seq<char>>),
        chosen_activity("streaming"@, name, url).0 == name,
        chosen_activity("streaming"@, name, url).1 == ActivityKind::Streaming,
        chosen_activity("streaming"@, name, url).2 is None,
        chosen_activity(other, name, url) == ("~"@, ActivityKind::Custom, Some(name), None::<Seq<char>>),
{
    reveal_strlit("playing");
    reveal_strlit("streaming");
    reveal_strlit("listening");
    reveal_strlit("watching");
    assert("listening"@[0] != "playing"@[0]);
    assert("listening"@[0] != "streaming"@[0]);
    assert("watching"@.len() != "playing"@.len());
    assert("watching"@.len() != "streaming"@.len());
    assert("watching"@.len() != "listening"@.len());
    assert("streaming"@.len() != "playing"@.len());
}

/// The inputs on which `/status` succeeds: any kind but a streaming one whose
/// link serenity refuses.
pub open spec fn activity_choice_valid(kind: Seq<char>, url: Option<Seq<char>>) -> bool {
    kind == "streaming"@ ==> streaming_url(effective_stream_url(url)) is Some
}

/// The activity of `/status <activity_type> <activity_name> [url]`.
pub fn match_activity_type(activity_type: &str, activity_name: &str, url: Option<&str>) -> (a: ActivityData)
    requires
        activity_choice_valid(activity_type@, match url { Some(u) => Some(u@), None => None }),
    ensures
        activity_view(a) == chosen_activity(activity_type@, activity_name@, match url { Some(u) => Some(u@), None => None }),
{
    if crate::text::str_eq(activity_type, "playing") {
        ActivityData::playing(activity_name)
    } else if crate::text::str_eq(activity_type, "streaming") {
        let link = match url {
            Some(u) => u,
            None => "https://ys.mihoyo.com",
        };
        match ActivityData::streaming(activity_name, link) {
            Some(a) => a,
            None => ActivityData::custom(activity_name),
        }
    } else if crate::text::str_eq(activity_type, "listening") {
        ActivityData::listening(activity_name)
    } else if crate::text::str_eq(activity_type, "watching") {
        ActivityData::watching(activity_name)
    } else {
        ActivityData::custom(activity_name)
    }
}

/// `/status` on any input: `None` exactly where the streaming link is refused.
pub fn try_match_activity_type(activity_type: &str, activity_name: &str, url: Option<&str>) -> (r: Option<ActivityData>)
    ensures
        r is Some <==> activity_choice_valid(activity_type@, match url { Some(u) => Some(u@), None => None }),
        r matches Some(a) ==> activity_view(a) == chosen_activity(activity_type@, activity_name@, match url { Some(u) => Some(u@), None => None }),
{
    if crate::text::str_eq(activity_type, "streaming") {
        let link = match url {
            Some(u) => u,
            None => "https://ys.mihoyo.com",
        };
        if ActivityData::streaming(activity_name, link).is_none() {
            return None;
        }
    }
    Some(match_activity_type(activity_type, activity_name, url))
}

/// The activity kinds `/status` offers, in the order it offers them.
pub open spec fn activity_type_names() -> Seq<Seq<char>> {
    seq!["playing"@, "listening"@, "streaming"@, "watching"@, "custom"@]
}

/// The names of `names` that begin with `partial`, in order.
pub open spec fn names_with_prefix(names: Seq<Seq<char>>, partial: Seq<char>) -> Seq<Seq<char>>
    decreases names.len(),
{
    if names.len() == 0 {
        seq![]
    } else {
        let rest = names_with_prefix(names.drop_last(), partial);
        if has_prefix(names.last(), partial) {
            rest.push(names.last())
        } else {
            rest
        }
    }
}

/// Every completion begins with what the user typed and is one of the
/// offered names.
pub proof fn lemma_names_with_prefix_sound(names: Seq<Seq<char>>, partial: Seq<char>)
    ensures
        forall|k: int| 0 <= k < names_with_prefix(names, partial).len() ==> {
            &&& has_prefix(#[trigger] names_with_prefix(names, partial)[k], partial)
            &&& names.contains(names_with_prefix(names, partial)[k])
        },
    decreases names.len(),
{
    if names.len() > 0 {
        let t = names.drop_last();
        lemma_names_with_prefix_sound(t, partial);
        let r = names_with_prefix(names, partial);
        assert forall|k: int| 0 <= k < r.len() implies {
            &&& has_prefix(#[trigger] r[k], partial)
            &&& names.contains(r[k])
        } by {
            let rest = names_with_prefix(t, partial);
            if k < rest.len() {
                assert(r[k] == rest[k]);
                let j = choose|j: int| 0 <= j < t.len() && t[j] == rest[k];
                assert(names[j] == t[j]);
            } else {
                assert(r[k] == names.last());
                assert(names[names.len() - 1] == names.last());
            }
        }
    }
}

/// The completions of `/status`'s kind argument for what the user typed.
pub fn autocomplete_activity_type(partial: &str) -> (r: Vec<String>)
    ensures
        r@.map_values(|s: String| s@) == names_with_prefix(activity_type_names(), partial@),
{
    let mut names: Vec<&str> = Vec::new();
    names.push("playing");
    names.push("listening");
    names.push("streaming");
    names.push("watching");
    names.push("custom");
    let ghost all = activity_type_names();
    assert(names@.map_values(|s: &str| s@) =~= all);
    let mut r: Vec<String> = Vec::new();
    let mut i: usize = 0;
    while i < names.len()
        invariant
            i <= names.len(),
            names@.map_values(|s: &str| s@) == all,
            all == activity_type_names(),
            r@.map_values(|s: String| s@) == names_with_prefix(all.take(i as int), partial@),
        decreases names.len() - i,
    {
        assert(all.take(i + 1).drop_last() =~= all.take(i as int));
        assert(all[i as int] == names@[i as int]@);
        let ghost before = r@;
        if starts_with(names[i], partial) {
            r.push(names[i].to_owned());
            assert(r@.map_values(|s: String| s@) =~= before.map_values(|s: String| s@).push(names@[i as int]@));
        }
        i = i + 1;
    }
    assert(all.take(i as int) =~= all);
    r
}

} // verus!
