use quest_notifier::collectibles::{
    asset_extension, split_path,
    collectible_icon_url, collectible_product_url, is_video_file, plan_reward_icon, RewardIcon,
};
use quest_notifier::constants::{
    build_cdn_url, feature_id_to_name, reward_type_to_description, COLOR_COLLECTIBLE,
    COLOR_DEFAULT, COLOR_VIRTUAL_CURRENCY, ORBS_ICON_URL,
};
use quest_notifier::error::AppError;
use quest_notifier::payload::WebhookPayloadData;
use quest_notifier::processor::format_quest_message;
use quest_notifier::quest::{
    text_precedes,
    CollectibleItem, CollectibleProduct, DiscordQuest, QuestApplication, QuestAssets, QuestConfig,
    QuestMessages, QuestReward, QuestRewardMessages, QuestTask, QuestTaskConfig, RewardsConfig,
};
use quest_notifier::reward::format_reward_info;
use quest_notifier::task::format_task_description;
use quest_notifier::text::decimal_string;
use quest_notifier::webhook::{
    accent_color, build_payload_data, features_text, prepare_notification, quest_link,
    quest_timestamps, tasks_text, webhook_endpoint,
};

fn reward(kind: i32) -> QuestReward {
    QuestReward {
        reward_type: kind,
        messages: QuestRewardMessages { name: "Shiny Thing".to_string() },
        sku_id: None,
        orb_quantity: None,
        asset: None,
        quantity: None,
    }
}

fn quest_with(rewards: Vec<QuestReward>) -> DiscordQuest {
    DiscordQuest {
        id: "123".to_string(),
        config: QuestConfig {
            starts_at: "2024-01-01T00:00:00Z".to_string(),
            expires_at: "2024-01-01T00:00:00+01:00".to_string(),
            features: vec![3, 99],
            messages: QuestMessages {
                game_title: "Space Game".to_string(),
                game_publisher: "Stellar".to_string(),
            },
            rewards_config: RewardsConfig { rewards, platforms: vec![0] },
            assets: QuestAssets {
                hero: "hero.png".to_string(),
                game_tile: "tile.jpg".to_string(),
            },
            application: QuestApplication {
                id: "42".to_string(),
                name: "Space".to_string(),
                link: "https://space.example".to_string(),
            },
            task_config: QuestTaskConfig {
                config_type: 1,
                tasks: vec![
                    (
                        "PLAY_ON_DESKTOP".to_string(),
                        QuestTask { event_name: "PLAY_ON_DESKTOP".to_string(), target: 900 },
                    ),
                    (
                        "WATCH_VIDEO".to_string(),
                        QuestTask { event_name: "WATCH_VIDEO".to_string(), target: 30 },
                    ),
                ],
            },
        },
    }
}

#[test]
fn feature_names() {
    assert_eq!(feature_id_to_name(1), "POST_ENROLLMENT_CTA");
    assert_eq!(feature_id_to_name(11), "ADDITIONAL_REDEMPTION_INSTRUCTIONS");
    assert_eq!(feature_id_to_name(18), "VIDEO_QUEST_FORCE_HLS_VIDEO");
    assert_eq!(feature_id_to_name(0), "UNKNOWN_FEATURE");
    assert_eq!(feature_id_to_name(-5), "UNKNOWN_FEATURE");
}

#[test]
fn reward_descriptions() {
    assert_eq!(reward_type_to_description(1), "Redeemable Code");
    assert_eq!(reward_type_to_description(2), "In-Game Item");
    assert_eq!(reward_type_to_description(3), "Collectible");
    assert_eq!(reward_type_to_description(4), "Virtual Currency");
    assert_eq!(reward_type_to_description(5), "Fractional Premium");
    assert_eq!(reward_type_to_description(6), "Unknown");
}

#[test]
fn cdn_urls() {
    assert_eq!(
        build_cdn_url("q1", "hero.png"),
        "https://cdn.discordapp.com/quest_assets/q1/hero.png"
    );
    assert_eq!(
        build_cdn_url("q1", "assets/hero.png"),
        "https://cdn.discordapp.com/assets/hero.png"
    );
}

#[test]
fn task_descriptions() {
    assert_eq!(format_task_description("WATCH_VIDEO", 900), "- Watch video (15 minutes)");
    assert_eq!(format_task_description("WATCH_VIDEO_ON_MOBILE", 60), "- Watch video on mobile (60 seconds)");
    assert_eq!(format_task_description("PLAY_ON_DESKTOP", 61), "- Play on Desktop (1 minutes)");
    assert_eq!(format_task_description("STREAM_ON_DESKTOP", 119), "- Stream on Desktop (1 minutes)");
    assert_eq!(format_task_description("PLAY_ACTIVITY_NOW", 0), "- PLAY ACTIVITY NOW (0 seconds)");
    assert_eq!(format_task_description("x", -5), "- x (-5 seconds)");
}

#[test]
fn reward_info_texts() {
    assert_eq!(format_reward_info(None), "No reward details available");
    let plain = reward(2);
    assert_eq!(
        format_reward_info(Some(&plain)),
        "**Reward Type**: In-Game Item\n**SKU ID**: `N/A`\n**Name**: Shiny Thing"
    );
    let mut full = reward(4);
    full.sku_id = Some("sku9".to_string());
    full.orb_quantity = Some(700);
    full.quantity = Some(-1);
    assert_eq!(
        format_reward_info(Some(&full)),
        "**Reward Type**: Virtual Currency\n**SKU ID**: `sku9`\n**Name**: Shiny Thing\n**Orbs Amount**: 700\n**Quantity**: -1"
    );
}

#[test]
fn quest_messages() {
    assert_eq!(
        format_quest_message(&quest_with(vec![reward(1)])),
        "Quest: Space Game - Reward: Shiny Thing"
    );
    assert_eq!(format_quest_message(&quest_with(vec![])), "Quest: Space Game - Reward: No reward");
}

#[test]
fn decimals() {
    assert_eq!(decimal_string(0), "0");
    assert_eq!(decimal_string(1704067200), "1704067200");
    assert_eq!(decimal_string(-42), "-42");
    assert_eq!(decimal_string(i64::MIN), "-9223372036854775808");
    assert_eq!(decimal_string(i64::MAX), "9223372036854775807");
}

#[test]
fn accent_colors() {
    assert_eq!(accent_color(None), COLOR_DEFAULT);
    assert_eq!(accent_color(Some(&reward(4))), COLOR_VIRTUAL_CURRENCY);
    assert_eq!(accent_color(Some(&reward(3))), COLOR_COLLECTIBLE);
    assert_eq!(accent_color(Some(&reward(1))), COLOR_DEFAULT);
}

#[test]
fn webhook_endpoints() {
    assert_eq!(
        webhook_endpoint("https://discord.com/api/webhooks/1/abc"),
        "https://discord.com/api/webhooks/1/abc?with_components=true"
    );
    assert_eq!(
        webhook_endpoint("https://discord.com/api/webhooks/1/abc?wait=true"),
        "https://discord.com/api/webhooks/1/abc?wait=true&with_components=true"
    );
}

#[test]
fn links_and_lists() {
    assert_eq!(quest_link("123"), "https://discord.com/quests/123");
    assert_eq!(features_text(&vec![]), "");
    assert_eq!(features_text(&vec![3, 99]), "``QUEST_BAR_V2``, ``UNKNOWN_FEATURE``");
    let q = quest_with(vec![]);
    assert_eq!(
        tasks_text(&q.config.task_config.tasks),
        "- Play on Desktop (15 minutes)\n- Watch video (30 seconds)"
    );
}

#[test]
fn timestamps_parse_rfc3339() {
    let q = quest_with(vec![]);
    assert_eq!(quest_timestamps(&q), Ok((1704067200, 1704063600)));
}

#[test]
fn invalid_start_date_is_a_parse_error() {
    let mut q = quest_with(vec![]);
    q.config.starts_at = "yesterday".to_string();
    match quest_timestamps(&q) {
        Err(AppError::Parse(m)) => assert!(m.starts_with("Invalid start date 'yesterday': ")),
        other => panic!("unexpected {other:?}"),
    }
    let mut q = quest_with(vec![]);
    q.config.expires_at = "2024-13-01T00:00:00Z".to_string();
    match prepare_notification(&q, "icon".to_string()) {
        Err(AppError::Parse(m)) => {
            assert!(m.starts_with("Invalid expiry date '2024-13-01T00:00:00Z': "))
        }
        other => panic!("unexpected {other:?}"),
    }
}

#[test]
fn payload_texts() {
    let q = quest_with(vec![reward(3)]);
    let d = prepare_notification(&q, "https://icon".to_string()).unwrap();
    assert_eq!(d, build_payload_data(&q, 1704067200, 1704063600, "https://icon".to_string()));
    assert_eq!(d.accent_color, COLOR_COLLECTIBLE);
    assert_eq!(d.banner_url, "https://cdn.discordapp.com/quest_assets/123/hero.png");
    assert_eq!(d.header_text(), "## **New Quest** - [Space Game](https://discord.com/quests/123)");
    assert_eq!(
        d.info_text(),
        "\n# Quest Info\n**Duration**: <t:1704067200:d> - <t:1704063600:d>\n**Reedemable Platforms**: Cross Platform\n**Game**: Space Game (Stellar)\n**Application**: [Space](https://space.example) (``42``)\n**Features**: ``QUEST_BAR_V2``, ``UNKNOWN_FEATURE``"
    );
    assert_eq!(
        d.tasks_text(),
        "# Tasks\nUser must complete any of the following tasks\n- Play on Desktop (15 minutes)\n- Watch video (30 seconds)"
    );
    assert_eq!(
        d.rewards_text(),
        "# Rewards\n**Reward Type**: Collectible\n**SKU ID**: `N/A`\n**Name**: Shiny Thing"
    );
    assert_eq!(d.footer_text(), "Quest ID: `123`");
    let empty = WebhookPayloadData { quest_id: String::new(), ..d };
    assert_eq!(empty.footer_text(), "Quest ID: ``");
}

#[test]
fn reward_icons() {
    let tile = "https://cdn.discordapp.com/quest_assets/123/tile.jpg".to_string();
    assert_eq!(plan_reward_icon(&quest_with(vec![]), None), RewardIcon::Url(tile.clone()));

    let mut orbs = reward(4);
    orbs.orb_quantity = Some(5);
    assert_eq!(plan_reward_icon(&quest_with(vec![]), Some(&orbs)), RewardIcon::Url(ORBS_ICON_URL.to_string()));
    orbs.orb_quantity = Some(0);
    assert_eq!(plan_reward_icon(&quest_with(vec![]), Some(&orbs)), RewardIcon::Url(tile.clone()));

    let mut coll = reward(3);
    assert_eq!(plan_reward_icon(&quest_with(vec![]), Some(&coll)), RewardIcon::Url(tile.clone()));
    coll.sku_id = Some("777".to_string());
    assert_eq!(
        plan_reward_icon(&quest_with(vec![]), Some(&coll)),
        RewardIcon::Collectible { sku_id: "777".to_string(), fallback: tile.clone() }
    );

    let mut item = reward(2);
    item.asset = Some("rewards/item.png".to_string());
    assert_eq!(
        plan_reward_icon(&quest_with(vec![]), Some(&item)),
        RewardIcon::Url("https://cdn.discordapp.com/rewards/item.png".to_string())
    );
    item.asset = Some("trailer.MP4".to_string());
    assert_eq!(plan_reward_icon(&quest_with(vec![]), Some(&item)), RewardIcon::Url(tile));
}

#[test]
fn video_extension_detection() {
    assert!(is_video_file("clip.mp4"));
    assert!(is_video_file("dir/clip.Mp4"));
    assert!(!is_video_file("clip.mp4.png"));
    assert!(!is_video_file("mp4"));
    assert!(!is_video_file(".mp4"));
    assert!(is_video_file("a/b.mp4/"));
    assert!(is_video_file("x/./clip.MP4/."));
    assert!(!is_video_file("clip.mp4/.."));
    assert!(!is_video_file("/"));
    assert!(!is_video_file(""));
}

#[test]
fn asset_path_parts_and_extensions() {
    assert_eq!(split_path("/a//./b/"), vec!["a".to_string(), "b".to_string()]);
    assert_eq!(split_path("."), Vec::<String>::new());
    assert_eq!(asset_extension("dir/archive.tar.gz"), Some("gz".to_string()));
    assert_eq!(asset_extension("dir/.hidden"), None);
    assert_eq!(asset_extension("dir/name."), Some(String::new()));
    assert_eq!(asset_extension("dir/..."), Some(String::new()));
    assert_eq!(asset_extension("dir/noext"), None);
}

#[test]
fn task_keys_order() {
    let task = |k: &str| (k.to_string(), QuestTask { event_name: k.to_string(), target: 1 });
    let ordered = QuestTaskConfig { config_type: 1, tasks: vec![task("A"), task("B"), task("a"), task("ab")] };
    assert!(ordered.keys_ascending());
    let repeated = QuestTaskConfig { config_type: 1, tasks: vec![task("a"), task("a")] };
    assert!(!repeated.keys_ascending());
    let swapped = QuestTaskConfig { config_type: 1, tasks: vec![task("b"), task("a")] };
    assert!(!swapped.keys_ascending());
    assert!(QuestTaskConfig { config_type: 1, tasks: vec![] }.keys_ascending());
    assert!(text_precedes("ab", "b"));
    assert!(text_precedes("", "a"));
    assert!(!text_precedes("a", "a"));
    assert!(text_precedes("z", "\u{e9}"));
}

#[test]
fn collectible_urls() {
    assert_eq!(
        collectible_product_url("777"),
        "https://discord.com/api/v9/collectibles-products/777"
    );
    assert_eq!(collectible_icon_url(&CollectibleProduct { items: vec![] }), None);
    let p = CollectibleProduct {
        items: vec![CollectibleItem { asset: "a_1".to_string() }, CollectibleItem { asset: "b".to_string() }],
    };
    assert_eq!(
        collectible_icon_url(&p),
        Some("https://cdn.discordapp.com/avatar-decoration-presets/a_1.png".to_string())
    );
}

#[test]
fn error_messages() {
    assert_eq!(AppError::Config("x".to_string()).message(), "Configuration error: x");
    assert_eq!(AppError::Request("y".to_string()).message(), "Request error: y");
    assert_eq!(AppError::Parse("z".to_string()).message(), "Parse error: z");
}
