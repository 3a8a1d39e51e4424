//! Endpoints, reward kinds, embed colours, and the names they stand for.
use vstd::prelude::*;

verus! {

pub const COLLECTIBLES_API_URL: &'static str = "https://discord.com/api/v9/collectibles-products";

pub const DISCORD_CDN_BASE: &'static str = "https://cdn.discordapp.com";

pub const QUEST_URL_BASE: &'static str = "https://discord.com/quests";

pub const ORBS_ICON_URL: &'static str = "https://cdn.discordapp.com/assets/content/fb761d9c206f93cd8c4e7301798abe3f623039a4054f2e7accd019e1bb059fc8.webm?format=webp";

pub const REWARD_TYPE_REDEEMABLE_CODE: i32 = 1;

pub const REWARD_TYPE_IN_GAME_ITEM: i32 = 2;

pub const REWARD_TYPE_COLLECTIBLE: i32 = 3;

pub const REWARD_TYPE_VIRTUAL_CURRENCY: i32 = 4;

pub const REWARD_TYPE_FRACTIONAL_PREMIUM: i32 = 5;

pub const COLOR_VIRTUAL_CURRENCY: i32 = 0x0058_65F2;

pub const COLOR_COLLECTIBLE: i32 = 0x0057_F287;

pub const COLOR_DEFAULT: i32 = 0x0099_AAB5;

/// The name of a quest feature flag.
pub open spec fn feature_name(feature_id: int) -> Seq<char> {
    if feature_id == 1 {
        "POST_ENROLLMENT_CTA"@
    } else if feature_id == 2 {
        "PLAYTIME_CRITERIA"@
    } else if feature_id == 3 {
        "QUEST_BAR_V2"@
    } else if feature_id == 4 {
        "EXCLUDE_MINORS"@
    } else if feature_id == 5 {
        "EXCLUDE_RUSSIA"@
    } else if feature_id == 6 {
        "IN_HOUSE_CONSOLE_QUEST"@
    } else if feature_id == 7 {
        "MOBILE_CONSOLE_QUEST"@
    } else if feature_id == 8 {
        "START_QUEST_CTA"@
    } else if feature_id == 9 {
        "REWARD_HIGHLIGHTING"@
    } else if feature_id == 10 {
        "FRACTIONS_QUEST"@
    } else if feature_id == 11 {
        "ADDITIONAL_REDEMPTION_INSTRUCTIONS"@
    } else if feature_id == 12 {
        "PACING_V2"@
    } else if feature_id == 13 {
        "DISMISSAL_SURVEY"@
    } else if feature_id == 14 {
        "MOBILE_QUEST_DOCK"@
    } else if feature_id == 15 {
        "QUESTS_CDN"@
    } else if feature_id == 16 {
        "PACING_CONTROLLER"@
    } else if feature_id == 17 {
        "QUEST_HOME_FORCE_STATIC_IMAGE"@
    } else if feature_id == 18 {
        "VIDEO_QUEST_FORCE_HLS_VIDEO"@
    } else {
        "UNKNOWN_FEATURE"@
    }
}

/// The name of a quest feature flag; `UNKNOWN_FEATURE` for an unlisted id.
pub fn feature_id_to_name(feature_id: i32) -> (r: &'static str)
    ensures
        r@ == feature_name(feature_id as int),
{
    match feature_id {
        1 => "POST_ENROLLMENT_CTA",
        2 => "PLAYTIME_CRITERIA",
        3 => "QUEST_BAR_V2",
        4 => "EXCLUDE_MINORS",
        5 => "EXCLUDE_RUSSIA",
        6 => "IN_HOUSE_CONSOLE_QUEST",
        7 => "MOBILE_CONSOLE_QUEST",
        8 => "START_QUEST_CTA",
        9 => "REWARD_HIGHLIGHTING",
        10 => "FRACTIONS_QUEST",
        11 => "ADDITIONAL_REDEMPTION_INSTRUCTIONS",
        12 => "PACING_V2",
        13 => "DISMISSAL_SURVEY",
        14 => "MOBILE_QUEST_DOCK",
        15 => "QUESTS_CDN",
        16 => "PACING_CONTROLLER",
        17 => "QUEST_HOME_FORCE_STATIC_IMAGE",
        18 => "VIDEO_QUEST_FORCE_HLS_VIDEO",
        _ => "UNKNOWN_FEATURE",
    }
}

/// The description of a reward kind.
pub open spec fn reward_type_name(reward_type: int) -> Seq<char> {
    if reward_type == REWARD_TYPE_REDEEMABLE_CODE {
        "Redeemable Code"@
    } else if reward_type == REWARD_TYPE_IN_GAME_ITEM {
        "In-Game Item"@
    } else if reward_type == REWARD_TYPE_COLLECTIBLE {
        "Collectible"@
    } else if reward_type == REWARD_TYPE_VIRTUAL_CURRENCY {
        "Virtual Currency"@
    } else if reward_type == REWARD_TYPE_FRACTIONAL_PREMIUM {
        "Fractional Premium"@
    } else {
        "Unknown"@
    }
}

/// The description of a reward kind; `Unknown` for an unlisted kind.
pub fn reward_type_to_description(reward_type: i32) -> (r: &'static str)
    ensures
        r@ == reward_type_name(reward_type as int),
{
    match reward_type {
        REWARD_TYPE_REDEEMABLE_CODE => "Redeemable Code",
        REWARD_TYPE_IN_GAME_ITEM => "In-Game Item",
        REWARD_TYPE_COLLECTIBLE => "Collectible",
        REWARD_TYPE_VIRTUAL_CURRENCY => "Virtual Currency",
        REWARD_TYPE_FRACTIONAL_PREMIUM => "Fractional Premium",
        _ => "Unknown",
    }
}

/// The CDN address of a quest asset: an asset path that holds a `/` hangs off
/// the CDN root, any other off the quest's own asset folder.
pub open spec fn cdn_url(quest_id: Seq<char>, asset: Seq<char>) -> Seq<char> {
    if asset.contains('/') {
        DISCORD_CDN_BASE@ + "/"@ + asset
    } else {
        DISCORD_CDN_BASE@ + "/quest_assets/"@ + quest_id + "/"@ + asset
    }
}

/// The CDN address of a quest asset.
pub fn build_cdn_url(quest_id: &str, asset: &str) -> (r: String)
    ensures
        r@ == cdn_url(quest_id@, asset@),
{
    let mut r = String::from_str(DISCORD_CDN_BASE);
    if crate::text::contains_char(asset, '/') {
        r.append("/");
        r.append(asset);
    } else {
        r.append("/quest_assets/");
        r.append(quest_id);
        r.append("/");
        r.append(asset);
    }
    r
}

} // verus!
