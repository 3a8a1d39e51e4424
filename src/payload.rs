//! The texts of an announcement. The message envelope around them is JSON,
//! which the caller builds from these texts.
use vstd::prelude::*;
use crate::text::{append_decimal, decimal};

verus! {

/// Everything an announcement shows.
#[derive(Clone, Debug, PartialEq, Eq)]
pub struct WebhookPayloadData {
    pub accent_color: i32,
    pub game_title: String,
    pub game_publisher: String,
    pub cta_link: String,
    pub banner_url: String,
    pub start_timestamp: i64,
    pub expires_timestamp: i64,
    pub app_name: String,
    pub app_link: String,
    pub app_id: String,
    pub features_string: String,
    pub tasks_string: String,
    pub reward_icon_url: String,
    pub reward_info: String,
    pub quest_id: String,
}

/// The heading: the game title, linked to the quest page.
pub open spec fn header_text(d: WebhookPayloadData) -> Seq<char> {
    "## **New Quest** - ["@ + d.game_title@ + "]("@ + d.cta_link@ + ")"@
}

/// The quest-info block: dates, game, application and features.
pub open spec fn info_text(d: WebhookPayloadData) -> Seq<char> {
    "\n# Quest Info\n**Duration**: <t:"@ + decimal(d.start_timestamp as int) + ":d> - <t:"@ + decimal(
        d.expires_timestamp as int,
    ) + ":d>\n**Reedemable Platforms**: Cross Platform\n**Game**: "@ + d.game_title@ + " ("@
        + d.game_publisher@ + ")\n**Application**: ["@ + d.app_name@ + "]("@ + d.app_link@
        + ") (``"@ + d.app_id@ + "``)\n**Features**: "@ + d.features_string@
}

/// The task block.
pub open spec fn tasks_text(d: WebhookPayloadData) -> Seq<char> {
    "# Tasks\nUser must complete any of the following tasks\n"@ + d.tasks_string@
}

/// The reward block.
pub open spec fn rewards_text(d: WebhookPayloadData) -> Seq<char> {
    "# Rewards\n"@ + d.reward_info@
}

/// The closing line with the quest id.
pub open spec fn footer_text(d: WebhookPayloadData) -> Seq<char> {
    "Quest ID: `"@ + d.quest_id@ + "`"@
}

impl WebhookPayloadData {
    pub fn header_text(&self) -> (r: String)
        ensures
            r@ == header_text(*self),
    {
        let mut r = String::from_str("## **New Quest** - [");
        r.append(self.game_title.as_str());
        r.append("](");
        r.append(self.cta_link.as_str());
        r.append(")");
        r
    }

    pub fn info_text(&self) -> (r: String)
        ensures
            r@ == info_text(*self),
    {
        let mut r = String::from_str("\n# Quest Info\n**Duration**: <t:");
        append_decimal(&mut r, self.start_timestamp);
        r.append(":d> - <t:");
        append_decimal(&mut r, self.expires_timestamp);
        r.append(":d>\n**Reedemable Platforms**: Cross Platform\n**Game**: ");
        r.append(self.game_title.as_str());
        r.append(" (");
        r.append(self.game_publisher.as_str());
        r.append(")\n**Application**: [");
        r.append(self.app_name.as_str());
        r.append("](");
        r.append(self.app_link.as_str());
        r.append(") (``");
        r.append(self.app_id.as_str());
        r.append("``)\n**Features**: ");
        r.append(self.features_string.as_str());
        proof {
            assert(r@ =~= info_text(*self));
        }
        r
    }

    pub fn tasks_text(&self) -> (r: String)
        ensures
            r@ == tasks_text(*self),
    {
        let mut r = String::from_str("# Tasks\nUser must complete any of the following tasks\n");
        r.append(self.tasks_string.as_str());
        r
    }

    pub fn rewards_text(&self) -> (r: String)
        ensures
            r@ == rewards_text(*self),
    {
        let mut r = String::from_str("# Rewards\n");
        r.append(self.reward_info.as_str());
        r
    }

    pub fn footer_text(&self) -> (r: String)
        ensures
            r@ == footer_text(*self),
    {
        let mut r = String::from_str("Quest ID: `");
        r.append(self.quest_id.as_str());
        r.append("`");
        r
    }
}

} // verus!
