//! What an announcement of a quest holds, and where it is posted. Posting it
//! is the caller's.
use vstd::prelude::*;
use crate::constants::{
    build_cdn_url, cdn_url, feature_id_to_name, feature_name, COLOR_COLLECTIBLE, COLOR_DEFAULT,
    COLOR_VIRTUAL_CURRENCY, QUEST_URL_BASE, REWARD_TYPE_COLLECTIBLE, REWARD_TYPE_VIRTUAL_CURRENCY,
};
use crate::error::AppError;
use crate::payload::WebhookPayloadData;
use crate::quest::{DiscordQuest, QuestReward, QuestTask};
use crate::reward::{format_reward_info, reward_text};
use crate::task::{format_task_description, task_line};
use crate::text::{contains_char, has_prefix, joined};

verus! {

/// The Unix time, in whole seconds, of a date-time as chrono's RFC 3339 parser
/// reads it; `None` where the parser rejects the text.
pub uninterp spec fn rfc3339_seconds(text: Seq<char>) -> Option<i64>;

/// Relies on chrono's `DateTime::parse_from_rfc3339`, which accepts RFC 3339
/// date-times (and also a space in place of the `T` between date and time) and
/// depends on the text alone, and on
/// `DateTime::timestamp`, its Unix time in seconds. The parse error is handed
/// back as its text.
#[verifier::external_body]
fn parse_rfc3339_timestamp(text: &str) -> (r: Result<i64, String>)
    ensures
        match r {
            Ok(t) => rfc3339_seconds(text@) == Some(t),
            Err(_) => rfc3339_seconds(text@) is None,
        },
{
    match chrono::DateTime::parse_from_rfc3339(text) {
        Ok(dt) => Ok(dt.timestamp()),
        Err(e) => Err(e.to_string()),
    }
}

/// The embed colour for a quest's first reward.
pub open spec fn accent_color_of(reward: Option<&QuestReward>) -> i32 {
    match reward {
        Some(r) => if r.reward_type == REWARD_TYPE_VIRTUAL_CURRENCY {
            COLOR_VIRTUAL_CURRENCY
        } else if r.reward_type == REWARD_TYPE_COLLECTIBLE {
            COLOR_COLLECTIBLE
        } else {
            COLOR_DEFAULT
        },
        None => COLOR_DEFAULT,
    }
}

/// The embed colour: one for currency rewards, one for collectibles, else
/// the default.
pub fn accent_color(reward: Option<&QuestReward>) -> (r: i32)
    ensures
        r == accent_color_of(reward),
{
    match reward {
        Some(r) => if r.reward_type == REWARD_TYPE_VIRTUAL_CURRENCY {
            COLOR_VIRTUAL_CURRENCY
        } else if r.reward_type == REWARD_TYPE_COLLECTIBLE {
            COLOR_COLLECTIBLE
        } else {
            COLOR_DEFAULT
        },
        None => COLOR_DEFAULT,
    }
}

/// The address to post to: the webhook address asking for components, with
/// `&` where it already has a query and `?` where it has none.
pub open spec fn endpoint_of(webhook_url: Seq<char>) -> Seq<char> {
    webhook_url + (if webhook_url.contains('?') {
        "&"@
    } else {
        "?"@
    }) + "with_components=true"@
}

/// The address to post an announcement to.
pub fn webhook_endpoint(webhook_url: &str) -> (r: String)
    ensures
        r@ == endpoint_of(webhook_url@),
{
    let mut r = String::from_str(webhook_url);
    if contains_char(webhook_url, '?') {
        r.append("&");
    } else {
        r.append("?");
    }
    r.append("with_components=true");
    r
}

/// The page of a quest.
pub fn quest_link(quest_id: &str) -> (r: String)
    ensures
        r@ == QUEST_URL_BASE@ + "/"@ + quest_id@,
{
    let mut r = String::from_str(QUEST_URL_BASE);
    r.append("/");
    r.append(quest_id);
    r
}

/// Each feature's name between double backquotes.
pub open spec fn feature_items(features: Seq<i32>) -> Seq<Seq<char>> {
    features.map_values(|f: i32| "``"@ + feature_name(f as int) + "``"@)
}

/// The features of a quest, as a comma-separated list of names.
pub fn features_text(features: &Vec<i32>) -> (r: String)
    ensures
        r@ == joined(feature_items(features@), ", "@),
{
    let mut r = String::new();
    let mut i: usize = 0;
    while i < features.len()
        invariant
            0 <= i <= features.len(),
            r@ == joined(feature_items(features@).take(i as int), ", "@),
        decreases features.len() - i,
    {
        let ghost before = r@;
        if i > 0 {
            r.append(", ");
        }
        r.append("``");
        r.append(feature_id_to_name(features[i]));
        r.append("``");
        proof {
            let items = feature_items(features@);
            assert(items.take(i + 1).drop_last() =~= items.take(i as int));
            if i > 0 {
                assert(r@ =~= before + ", "@ + items[i as int]);
            } else {
                assert(r@ =~= items[i as int]);
            }
        }
        i = i + 1;
    }
    proof {
        assert(feature_items(features@).take(features@.len() as int) =~= feature_items(features@));
    }
    r
}

/// One line per task, in table order.
pub open spec fn task_items(tasks: Seq<(String, QuestTask)>) -> Seq<Seq<char>> {
    tasks.map_values(|t: (String, QuestTask)| task_line(t.1.event_name@, t.1.target as int))
}

/// The tasks of a quest, one line each.
pub fn tasks_text(tasks: &Vec<(String, QuestTask)>) -> (r: String)
    ensures
        r@ == joined(task_items(tasks@), "\n"@),
{
    let mut r = String::new();
    let mut i: usize = 0;
    while i < tasks.len()
        invariant
            0 <= i <= tasks.len(),
            r@ == joined(task_items(tasks@).take(i as int), "\n"@),
        decreases tasks.len() - i,
    {
        let ghost before = r@;
        if i > 0 {
            r.append("\n");
        }
        let line = format_task_description(tasks[i].1.event_name.as_str(), tasks[i].1.target);
        r.append(line.as_str());
        proof {
            let items = task_items(tasks@);
            assert(items.take(i + 1).drop_last() =~= items.take(i as int));
            if i > 0 {
                assert(r@ =~= before + "\n"@ + items[i as int]);
            } else {
                assert(r@ =~= items[i as int]);
            }
        }
        i = i + 1;
    }
    proof {
        assert(task_items(tasks@).take(tasks@.len() as int) =~= task_items(tasks@));
    }
    r
}

/// The start and expiry of a quest as Unix times. The first of the two that
/// is not an RFC 3339 date-time gives a parse error that quotes it.
pub fn quest_timestamps(quest: &DiscordQuest) -> (r: Result<(i64, i64), AppError>)
    ensures
        r is Ok <==> (rfc3339_seconds(quest.config.starts_at@) is Some && rfc3339_seconds(
            quest.config.expires_at@,
        ) is Some),
        r matches Ok((s, e)) ==> rfc3339_seconds(quest.config.starts_at@) == Some(s)
            && rfc3339_seconds(quest.config.expires_at@) == Some(e),
        rfc3339_seconds(quest.config.starts_at@) is None ==> (r matches Err(AppError::Parse(m))
            && has_prefix(m@, "Invalid start date '"@ + quest.config.starts_at@ + "': "@)),
        rfc3339_seconds(quest.config.starts_at@) is Some && rfc3339_seconds(
            quest.config.expires_at@,
        ) is None ==> (r matches Err(AppError::Parse(m)) && has_prefix(
            m@,
            "Invalid expiry date '"@ + quest.config.expires_at@ + "': "@,
        )),
{
    let start = match parse_rfc3339_timestamp(quest.config.starts_at.as_str()) {
        Ok(t) => t,
        Err(detail) => {
            let mut m = String::from_str("Invalid start date '");
            m.append(quest.config.starts_at.as_str());
            m.append("': ");
            let ghost head = m@;
            m.append(detail.as_str());
            proof {
                assert(m@.subrange(0, head.len() as int) =~= head);
            }
            return Err(AppError::Parse(m));
        },
    };
    let expires = match parse_rfc3339_timestamp(quest.config.expires_at.as_str()) {
        Ok(t) => t,
        Err(detail) => {
            let mut m = String::from_str("Invalid expiry date '");
            m.append(quest.config.expires_at.as_str());
            m.append("': ");
            let ghost head = m@;
            m.append(detail.as_str());
            proof {
                assert(m@.subrange(0, head.len() as int) =~= head);
            }
            return Err(AppError::Parse(m));
        },
    };
    Ok((start, expires))
}

/// `d` is the announcement of `quest`: the colour of its first reward, the
/// game and application as the quest gives them, its page, its hero banner on
/// the CDN, its features and tasks listed, its first reward described, and the
/// given dates and icon.
pub open spec fn announces(
    d: WebhookPayloadData,
    quest: &DiscordQuest,
    start_timestamp: i64,
    expires_timestamp: i64,
    reward_icon_url: String,
) -> bool {
    &&& d.accent_color == accent_color_of(first_reward(quest))
    &&& d.game_title == quest.config.messages.game_title
    &&& d.game_publisher == quest.config.messages.game_publisher
    &&& d.cta_link@ == QUEST_URL_BASE@ + "/"@ + quest.id@
    &&& d.banner_url@ == cdn_url(quest.id@, quest.config.assets.hero@)
    &&& d.start_timestamp == start_timestamp
    &&& d.expires_timestamp == expires_timestamp
    &&& d.app_name == quest.config.application.name
    &&& d.app_link == quest.config.application.link
    &&& d.app_id == quest.config.application.id
    &&& d.features_string@ == joined(feature_items(quest.config.features@), ", "@)
    &&& d.tasks_string@ == joined(task_items(quest.config.task_config.tasks@), "\n"@)
    &&& d.reward_icon_url == reward_icon_url
    &&& d.reward_info@ == reward_text(first_reward(quest))
    &&& d.quest_id == quest.id
}

/// The announcement of `quest`, given its dates as Unix times and the icon
/// chosen for its first reward.
pub fn build_payload_data(
    quest: &DiscordQuest,
    start_timestamp: i64,
    expires_timestamp: i64,
    reward_icon_url: String,
) -> (r: WebhookPayloadData)
    ensures
        announces(r, quest, start_timestamp, expires_timestamp, reward_icon_url),
{
    let reward = if quest.config.rewards_config.rewards.len() > 0 {
        Some(&quest.config.rewards_config.rewards[0])
    } else {
        None
    };
    WebhookPayloadData {
        accent_color: accent_color(reward),
        game_title: quest.config.messages.game_title.clone(),
        game_publisher: quest.config.messages.game_publisher.clone(),
        cta_link: quest_link(quest.id.as_str()),
        banner_url: build_cdn_url(quest.id.as_str(), quest.config.assets.hero.as_str()),
        start_timestamp,
        expires_timestamp,
        app_name: quest.config.application.name.clone(),
        app_link: quest.config.application.link.clone(),
        app_id: quest.config.application.id.clone(),
        features_string: features_text(&quest.config.features),
        tasks_string: tasks_text(&quest.config.task_config.tasks),
        reward_icon_url,
        reward_info: format_reward_info(reward),
        quest_id: quest.id.clone(),
    }
}

/// The first reward of a quest, the one an announcement describes.
pub open spec fn first_reward(quest: &DiscordQuest) -> Option<&QuestReward> {
    if quest.config.rewards_config.rewards@.len() > 0 {
        Some(&quest.config.rewards_config.rewards@[0])
    } else {
        None
    }
}

/// The announcement of `quest` with the icon chosen for its first reward, or
/// the parse error of the first of its dates that is not an RFC 3339 date-time.
pub fn prepare_notification(quest: &DiscordQuest, reward_icon_url: String) -> (r: Result<
    WebhookPayloadData,
    AppError,
>)
    ensures
        r is Ok <==> (rfc3339_seconds(quest.config.starts_at@) is Some && rfc3339_seconds(
            quest.config.expires_at@,
        ) is Some),
        r matches Ok(d) ==> announces(
            d,
            quest,
            rfc3339_seconds(quest.config.starts_at@)->Some_0,
            rfc3339_seconds(quest.config.expires_at@)->Some_0,
            reward_icon_url,
        ),
        rfc3339_seconds(quest.config.starts_at@) is None ==> (r matches Err(AppError::Parse(m))
            && has_prefix(m@, "Invalid start date '"@ + quest.config.starts_at@ + "': "@)),
        rfc3339_seconds(quest.config.starts_at@) is Some && rfc3339_seconds(
            quest.config.expires_at@,
        ) is None ==> (r matches Err(AppError::Parse(m)) && has_prefix(
            m@,
            "Invalid expiry date '"@ + quest.config.expires_at@ + "': "@,
        )),
{
    match quest_timestamps(quest) {
        Ok((start, expires)) => Ok(build_payload_data(quest, start, expires, reward_icon_url)),
        Err(e) => Err(e),
    }
}

} // verus!
