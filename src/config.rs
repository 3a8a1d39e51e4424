//! The validated configuration, from the raw settings the process was given.
use vstd::prelude::*;
use crate::error::AppError;
use crate::text::{eq_ignore_ascii_case, has_prefix, same_text_ignore_ascii_case, split_on, starts_with};

verus! {

pub const MIN_POLLING_INTERVAL_SEC: u64 = 30;

pub const MAX_POLLING_INTERVAL_SEC: u64 = 86400;

pub const DEFAULT_POLLING_INTERVAL: &'static str = "300";

pub const DEFAULT_REGIONS: &'static str = "en-US";

pub const DEFAULT_PREVIOUS_QUESTS: &'static str = "false";

pub const DISCORD_WEBHOOK_PREFIX_1: &'static str = "https://discord.com/api/webhooks/";

pub const DISCORD_WEBHOOK_PREFIX_2: &'static str = "https://discordapp.com/api/webhooks/";

pub const DISCORD_WEBHOOK_PREFIX_3: &'static str = "https://ptb.discord.com/api/webhooks/";

pub const DISCORD_WEBHOOK_PREFIX_4: &'static str = "https://canary.discord.com/api/webhooks/";

pub const DEFAULT_SUPER_PROPERTIES: &'static str = "ewogICJvcyI6ICJXaW5kb3dzIiwKICAiYnJvd3NlciI6ICJDaHJvbWUiLAogICJkZXZpY2UiOiAiIiwKICAic3lzdGVtX2xvY2FsZSI6ICJlbi1VUyIsCiAgImJyb3dzZXJfdXNlcl9hZ2VudCI6ICJNb3ppbGxhLzUuMCAoV2luZG93cyBOVCAxMC4wOyBXaW42NDsgeDY0KSBBcHBsZVdlYktpdC81MzcuMzYgKEtIVE1MLCBsaWtlIEdlY2tvKSBDaHJvbWUvMTIwLjAuMC4wIFNhZmFyaS81MzcuMzYiLAogICJicm93c2VyX3ZlcnNpb24iOiAiMTIwLjAuMC4wIiwKICAib3NfdmVyc2lvbiI6ICIxMCIsCiAgInJlZmVycmVyIjogIiIsCiAgInJlZmVycmluZ19kb21haW4iOiAiIiwKICAicmVmZXJyZXJfY3VycmVudCI6ICIiLAogICJyZWZlcnJpbmdfZG9tYWluX2N1cnJlbnQiOiAiIiwKICAicmVsZWFzZV9jaGFubmVsIjogInN0YWJsZSIsCiAgImNsaWVudF9idWlsZF9udW1iZXIiOiA5OTk5OTksCiAgImNsaWVudF9ldmVudF9zb3VyY2UiOiBudWxsCn0d";

/// The validated configuration.
#[derive(Clone, Debug, PartialEq, Eq)]
pub struct AppConfig {
    pub discord_auth_token: String,
    pub discord_webhook_url: String,
    pub polling_interval_sec: u64,
    pub discord_regions: Vec<String>,
    pub previous_quests: bool,
    pub super_properties: String,
}

/// Whether `c` is whitespace as `char::is_whitespace` defines it: a
/// character with the Unicode `White_Space` property.
pub open spec fn is_whitespace(c: char) -> bool {
    let u = c as u32;
    (0x9 <= u <= 0xD) || u == 0x20 || u == 0x85 || u == 0xA0 || u == 0x1680 || (0x2000 <= u
        <= 0x200A) || u == 0x2028 || u == 0x2029 || u == 0x202F || u == 0x205F || u == 0x3000
}

/// `s` without its leading whitespace.
pub open spec fn trim_start(s: Seq<char>) -> Seq<char>
    decreases s.len(),
{
    if s.len() > 0 && is_whitespace(s[0]) {
        trim_start(s.drop_first())
    } else {
        s
    }
}

/// `s` without its trailing whitespace.
pub open spec fn trim_end(s: Seq<char>) -> Seq<char>
    decreases s.len(),
{
    if s.len() > 0 && is_whitespace(s.last()) {
        trim_end(s.drop_last())
    } else {
        s
    }
}

/// `s` without its leading and trailing whitespace.
pub open spec fn trimmed(s: Seq<char>) -> Seq<char> {
    trim_end(trim_start(s))
}

/// Relies on std's `str::trim`, which removes the leading and trailing
/// characters for which `char::is_whitespace` holds.
#[verifier::external_body]
fn trim_text(s: &str) -> (r: String)
    ensures
        r@ == trimmed(s@),
{
    s.trim().to_string()
}

/// Whether `c` is an ASCII decimal digit.
pub open spec fn is_digit(c: char) -> bool {
    '0' <= c <= '9'
}

/// The value of a string of decimal digits.
pub open spec fn digits_value(s: Seq<char>) -> int
    decreases s.len(),
{
    if s.len() == 0 {
        0
    } else {
        digits_value(s.drop_last()) * 10 + ((s.last() as u32) as int - ('0' as u32) as int)
    }
}

/// The `u64` that `s` writes: an optional `+`, then one or more decimal
/// digits, of a value that fits; `None` for any other text.
pub open spec fn u64_text_value(s: Seq<char>) -> Option<u64> {
    let d = if s.len() > 0 && s[0] == '+' {
        s.drop_first()
    } else {
        s
    };
    if d.len() > 0 && (forall|i: int| 0 <= i < d.len() ==> is_digit(d[i])) && digits_value(d)
        <= u64::MAX {
        Some(digits_value(d) as u64)
    } else {
        None
    }
}

/// Relies on std's `u64::from_str`, which its documentation says accepts an
/// optional `+` followed by decimal digits, and nothing else, and fails where
/// the value does not fit. The error is handed back as its text.
#[verifier::external_body]
fn parse_u64(s: &str) -> (r: Result<u64, String>)
    ensures
        match r {
            Ok(v) => u64_text_value(s@) == Some(v),
            Err(_) => u64_text_value(s@) is None,
        },
{
    match s.parse::<u64>() {
        Ok(v) => Ok(v),
        Err(e) => Err(e.to_string()),
    }
}

/// The trimmed pieces that are not empty.
pub open spec fn nonblank_pieces(pieces: Seq<Seq<char>>) -> Seq<Seq<char>> {
    pieces.map_values(|p: Seq<char>| trimmed(p)).filter(|p: Seq<char>| p.len() > 0)
}

/// The regions of a comma-separated list: each item trimmed, empty items
/// dropped.
pub open spec fn region_list(s: Seq<char>) -> Seq<Seq<char>> {
    nonblank_pieces(split_on(s, ','))
}

proof fn lemma_nonblank_push(pieces: Seq<Seq<char>>, p: Seq<char>)
    ensures
        nonblank_pieces(pieces.push(p)) == if trimmed(p).len() > 0 {
            nonblank_pieces(pieces).push(trimmed(p))
        } else {
            nonblank_pieces(pieces)
        },
{
    let f = |p: Seq<char>| trimmed(p);
    let keep = |p: Seq<char>| p.len() > 0;
    assert(pieces.push(p).map_values(f) =~= pieces.map_values(f).push(trimmed(p)));
    pieces.map_values(f).lemma_filter_push(trimmed(p), keep);
}

/// Splits a comma-separated list of regions.
pub fn parse_regions(s: &str) -> (r: Vec<String>)
    ensures
        crate::store::string_views(r@) == region_list(s@),
{
    let n = s.unicode_len();
    let mut regions: Vec<String> = Vec::new();
    let mut current = String::new();
    let ghost mut done: Seq<Seq<char>> = Seq::empty();
    let mut i: usize = 0;
    proof {
        assert(s@.subrange(0, 0) =~= Seq::<char>::empty());
    }
    while i < n
        invariant
            n == s@.len(),
            0 <= i <= n,
            split_on(s@.subrange(0, i as int), ',') == done.push(current@),
            crate::store::string_views(regions@) == nonblank_pieces(done),
        decreases n - i,
    {
        let ghost prefix = s@.subrange(0, i as int);
        proof {
            assert(s@.subrange(0, i + 1).drop_last() =~= prefix);
            assert(s@.subrange(0, i + 1).last() == s@[i as int]);
        }
        if s.get_char(i) == ',' {
            let piece = trim_text(current.as_str());
            proof {
                lemma_nonblank_push(done, current@);
            }
            if piece.unicode_len() > 0 {
                let ghost before = regions@;
                regions.push(piece);
                proof {
                    assert(crate::store::string_views(regions@) =~= crate::store::string_views(
                        before,
                    ).push(piece@));
                }
            }
            proof {
                done = done.push(current@);
            }
            current = String::new();
            proof {
                assert(split_on(s@.subrange(0, i + 1), ',') =~= done.push(current@));
            }
        } else {
            let ghost old_current = current@;
            current.append(s.substring_char(i, i + 1));
            proof {
                assert(current@ =~= old_current.push(s@[i as int]));
                assert(split_on(s@.subrange(0, i + 1), ',') =~= done.push(current@));
            }
        }
        i = i + 1;
    }
    let piece = trim_text(current.as_str());
    proof {
        assert(s@.subrange(0, n as int) =~= s@);
        lemma_nonblank_push(done, current@);
    }
    if piece.unicode_len() > 0 {
        let ghost before = regions@;
        regions.push(piece);
        proof {
            assert(crate::store::string_views(regions@) =~= crate::store::string_views(before).push(
                piece@,
            ));
        }
    }
    regions
}

/// The text of a setting, or `default` where it is not set.
pub open spec fn setting_or(setting: Option<String>, default: Seq<char>) -> Seq<char> {
    match setting {
        Some(s) => s@,
        None => default,
    }
}

/// Whether `url` is the address of a Discord webhook.
pub open spec fn is_discord_webhook(url: Seq<char>) -> bool {
    has_prefix(url, DISCORD_WEBHOOK_PREFIX_1@) || has_prefix(url, DISCORD_WEBHOOK_PREFIX_2@)
        || has_prefix(url, DISCORD_WEBHOOK_PREFIX_3@) || has_prefix(url, DISCORD_WEBHOOK_PREFIX_4@)
}

/// The first fault of the settings, checked in this order: token, webhook
/// address, polling interval. It comes with its message, and `false` where
/// the message goes on with the number parser's own explanation.
pub open spec fn settings_fault(
    token: Option<String>,
    webhook: Option<String>,
    interval: Option<String>,
) -> Option<(Seq<char>, bool)> {
    match token {
        None => Some(("DISCORD_AUTH_TOKEN not set"@, true)),
        Some(t) => if trimmed(t@).len() == 0 {
            Some(("DISCORD_AUTH_TOKEN is empty or contains only whitespace"@, true))
        } else {
            match webhook {
                None => Some(("DISCORD_WEBHOOK_URL not set"@, true)),
                Some(w) => if trimmed(w@).len() == 0 {
                    Some(("DISCORD_WEBHOOK_URL is empty or contains only whitespace"@, true))
                } else if !is_discord_webhook(w@) {
                    Some(("DISCORD_WEBHOOK_URL must be a valid Discord webhook URL"@, true))
                } else {
                    match u64_text_value(setting_or(interval, DEFAULT_POLLING_INTERVAL@)) {
                        None => Some(("Invalid POLLING_INTERVAL_SEC: "@, false)),
                        Some(v) => if v < MIN_POLLING_INTERVAL_SEC {
                            Some(
                                (
                                    "POLLING_INTERVAL_SEC must be at least 30 seconds to avoid rate limiting"@,
                                    true,
                                ),
                            )
                        } else if v > MAX_POLLING_INTERVAL_SEC {
                            Some(
                                (
                                    "POLLING_INTERVAL_SEC must be less than 86400 seconds (24 hours)"@,
                                    true,
                                ),
                            )
                        } else {
                            None
                        },
                    }
                },
            }
        },
    }
}

fn config_error(message: &str) -> (r: Result<AppConfig, AppError>)
    ensures
        r matches Err(AppError::Config(m)) && m@ == message@,
{
    Err(AppError::Config(String::from_str(message)))
}

impl AppConfig {
    /// Validates the raw settings; an unset optional setting takes its
    /// default. The token and webhook address are kept as given.
    pub fn from_settings(
        token: Option<String>,
        webhook: Option<String>,
        interval: Option<String>,
        regions: Option<String>,
        previous_quests: Option<String>,
        super_properties: Option<String>,
    ) -> (r: Result<AppConfig, AppError>)
        ensures
            r is Ok <==> settings_fault(token, webhook, interval) is None,
            settings_fault(token, webhook, interval) matches Some((msg, exact)) ==> (r matches Err(
                AppError::Config(m),
            ) && if exact {
                m@ == msg
            } else {
                has_prefix(m@, msg)
            }),
            r matches Ok(c) ==> {
                &&& token == Some(c.discord_auth_token)
                &&& webhook == Some(c.discord_webhook_url)
                &&& u64_text_value(setting_or(interval, DEFAULT_POLLING_INTERVAL@)) == Some(
                    c.polling_interval_sec,
                )
                &&& crate::store::string_views(c.discord_regions@) == region_list(
                    setting_or(regions, DEFAULT_REGIONS@),
                )
                &&& c.previous_quests == eq_ignore_ascii_case(
                    trimmed(setting_or(previous_quests, DEFAULT_PREVIOUS_QUESTS@)),
                    "true"@,
                )
                &&& c.super_properties@ == setting_or(super_properties, DEFAULT_SUPER_PROPERTIES@)
            },
    {
        let token = match token {
            None => return config_error("DISCORD_AUTH_TOKEN not set"),
            Some(t) => t,
        };
        if trim_text(token.as_str()).unicode_len() == 0 {
            return config_error("DISCORD_AUTH_TOKEN is empty or contains only whitespace");
        }
        let webhook = match webhook {
            None => return config_error("DISCORD_WEBHOOK_URL not set"),
            Some(w) => w,
        };
        if trim_text(webhook.as_str()).unicode_len() == 0 {
            return config_error("DISCORD_WEBHOOK_URL is empty or contains only whitespace");
        }
        if !starts_with(webhook.as_str(), DISCORD_WEBHOOK_PREFIX_1) && !starts_with(
            webhook.as_str(),
            DISCORD_WEBHOOK_PREFIX_2,
        ) && !starts_with(webhook.as_str(), DISCORD_WEBHOOK_PREFIX_3) && !starts_with(
            webhook.as_str(),
            DISCORD_WEBHOOK_PREFIX_4,
        ) {
            return config_error("DISCORD_WEBHOOK_URL must be a valid Discord webhook URL");
        }
        let interval_text = match interval {
            Some(i) => i,
            None => String::from_str(DEFAULT_POLLING_INTERVAL),
        };
        let polling_interval_sec = match parse_u64(interval_text.as_str()) {
            Ok(v) => v,
            Err(detail) => {
                let mut m = String::from_str("Invalid POLLING_INTERVAL_SEC: ");
                let ghost head = m@;
                m.append(detail.as_str());
                proof {
                    assert(m@.subrange(0, head.len() as int) =~= head);
                }
                return Err(AppError::Config(m));
            },
        };
        if polling_interval_sec < MIN_POLLING_INTERVAL_SEC {
            return config_error(
                "POLLING_INTERVAL_SEC must be at least 30 seconds to avoid rate limiting",
            );
        }
        if polling_interval_sec > MAX_POLLING_INTERVAL_SEC {
            return config_error("POLLING_INTERVAL_SEC must be less than 86400 seconds (24 hours)");
        }
        let regions_text = match regions {
            Some(r) => r,
            None => String::from_str(DEFAULT_REGIONS),
        };
        let discord_regions = parse_regions(regions_text.as_str());
        let previous_text = match previous_quests {
            Some(p) => p,
            None => String::from_str(DEFAULT_PREVIOUS_QUESTS),
        };
        let previous_quests = same_text_ignore_ascii_case(
            trim_text(previous_text.as_str()).as_str(),
            "true",
        );
        let super_properties = match super_properties {
            Some(s) => s,
            None => String::from_str(DEFAULT_SUPER_PROPERTIES),
        };
        Ok(
            AppConfig {
                discord_auth_token: token,
                discord_webhook_url: webhook,
                polling_interval_sec,
                discord_regions,
                previous_quests,
                super_properties,
            },
        )
    }
}

} // verus!
