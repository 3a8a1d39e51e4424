//! Which icon an announcement shows for its reward.
use vstd::prelude::*;
use crate::constants::{build_cdn_url, cdn_url, COLLECTIBLES_API_URL, ORBS_ICON_URL, REWARD_TYPE_COLLECTIBLE};
use crate::quest::{CollectibleProduct, DiscordQuest, QuestReward};
use crate::store::string_views;
use crate::text::{eq_ignore_ascii_case, same_text, same_text_ignore_ascii_case, split_on};

verus! {

/// Whether a part of a path names something: it is neither empty nor `.`.
pub open spec fn is_named_part(part: Seq<char>) -> bool {
    part.len() > 0 && part != "."@
}

/// The parts of `pieces` that name something.
pub open spec fn named_parts(pieces: Seq<Seq<char>>) -> Seq<Seq<char>> {
    pieces.filter(|p: Seq<char>| is_named_part(p))
}

/// The parts of an asset path, which is a path on the CDN and so always
/// separated by `/`, without the empty and `.` parts, as `Path::components`
/// reads such a path.
pub open spec fn path_parts(path: Seq<char>) -> Seq<Seq<char>> {
    named_parts(split_on(path, '/'))
}

/// The name of the file an asset path ends in; `None` where it ends in none
/// (no part, or a last part of `..`), as `Path::file_name` gives it.
pub open spec fn file_name(path: Seq<char>) -> Option<Seq<char>> {
    let parts = path_parts(path);
    if parts.len() == 0 || parts.last() == ".."@ {
        None
    } else {
        Some(parts.last())
    }
}

/// The index of the last `c` in `s`, or -1 where there is none.
pub open spec fn last_index_of(s: Seq<char>, c: char) -> int
    decreases s.len(),
{
    if s.len() == 0 {
        -1
    } else if s.last() == c {
        s.len() - 1
    } else {
        last_index_of(s.drop_last(), c)
    }
}

/// The extension of a file name: what follows its last `.`, where something
/// comes before that dot; as `Path::extension` gives it.
pub open spec fn name_extension(name: Seq<char>) -> Option<Seq<char>> {
    let k = last_index_of(name, '.');
    if k <= 0 {
        None
    } else {
        Some(name.subrange(k + 1, name.len() as int))
    }
}

/// The extension of the file that an asset path names.
pub open spec fn path_extension(path: Seq<char>) -> Option<Seq<char>> {
    match file_name(path) {
        Some(n) => name_extension(n),
        None => None,
    }
}

proof fn lemma_named_push(pieces: Seq<Seq<char>>, p: Seq<char>)
    ensures
        named_parts(pieces.push(p)) == if is_named_part(p) {
            named_parts(pieces).push(p)
        } else {
            named_parts(pieces)
        },
{
    pieces.lemma_filter_push(p, |p: Seq<char>| is_named_part(p));
}

/// The parts of an asset path that name something, in order.
pub fn split_path(path: &str) -> (r: Vec<String>)
    ensures
        string_views(r@) == path_parts(path@),
{
    let n = path.unicode_len();
    let mut parts: Vec<String> = Vec::new();
    let mut current = String::new();
    let ghost mut done: Seq<Seq<char>> = Seq::empty();
    let mut i: usize = 0;
    proof {
        assert(path@.subrange(0, 0) =~= Seq::<char>::empty());
    }
    while i < n
        invariant
            n == path@.len(),
            0 <= i <= n,
            split_on(path@.subrange(0, i as int), '/') == done.push(current@),
            string_views(parts@) == named_parts(done),
        decreases n - i,
    {
        proof {
            assert(path@.subrange(0, i + 1).drop_last() =~= path@.subrange(0, i as int));
            assert(path@.subrange(0, i + 1).last() == path@[i as int]);
        }
        if path.get_char(i) == '/' {
            proof {
                lemma_named_push(done, current@);
                reveal_strlit(".");
            }
            let ghost piece = current@;
            if current.unicode_len() > 0 && !same_text(current.as_str(), ".") {
                let ghost before = parts@;
                parts.push(current);
                proof {
                    assert(string_views(parts@) =~= string_views(before).push(piece));
                }
            }
            proof {
                done = done.push(piece);
            }
            current = String::new();
            proof {
                assert(split_on(path@.subrange(0, i + 1), '/') =~= done.push(current@));
            }
        } else {
            let ghost old_current = current@;
            current.append(path.substring_char(i, i + 1));
            proof {
                assert(current@ =~= old_current.push(path@[i as int]));
                assert(split_on(path@.subrange(0, i + 1), '/') =~= done.push(current@));
            }
        }
        i = i + 1;
    }
    proof {
        assert(path@.subrange(0, n as int) =~= path@);
        lemma_named_push(done, current@);
        reveal_strlit(".");
    }
    let ghost piece = current@;
    if current.unicode_len() > 0 && !same_text(current.as_str(), ".") {
        let ghost before = parts@;
        parts.push(current);
        proof {
            assert(string_views(parts@) =~= string_views(before).push(piece));
        }
    }
    parts
}

/// The extension of a file name.
pub fn file_name_extension(name: &str) -> (r: Option<String>)
    ensures
        match r {
            Some(e) => name_extension(name@) == Some(e@),
            None => name_extension(name@) is None,
        },
{
    let n = name.unicode_len();
    let mut i: usize = n;
    proof {
        assert(name@.subrange(0, n as int) =~= name@);
    }
    while i > 0
        invariant
            n == name@.len(),
            0 <= i <= n,
            last_index_of(name@, '.') == last_index_of(name@.subrange(0, i as int), '.'),
        decreases i,
    {
        proof {
            assert(name@.subrange(0, i as int).drop_last() =~= name@.subrange(0, i - 1));
        }
        if name.get_char(i - 1) == '.' {
            if i - 1 == 0 {
                return None;
            }
            return Some(String::from_str(name.substring_char(i, n)));
        }
        i = i - 1;
    }
    None
}

/// The extension of the file that an asset path names.
pub fn asset_extension(path: &str) -> (r: Option<String>)
    ensures
        match r {
            Some(e) => path_extension(path@) == Some(e@),
            None => path_extension(path@) is None,
        },
{
    let parts = split_path(path);
    let n = parts.len();
    if n == 0 {
        return None;
    }
    proof {
        reveal_strlit("..");
        assert(string_views(parts@).last() == parts@[n - 1]@);
    }
    if same_text(parts[n - 1].as_str(), "..") {
        return None;
    }
    file_name_extension(parts[n - 1].as_str())
}

/// Whether an asset is a video, which an icon cannot show.
pub open spec fn is_video_asset(asset: Seq<char>) -> bool {
    match path_extension(asset) {
        Some(e) => eq_ignore_ascii_case(e, "mp4"@),
        None => false,
    }
}

/// Whether `asset` names an `.mp4` file, in any case.
pub fn is_video_file(asset: &str) -> (r: bool)
    ensures
        r == is_video_asset(asset@),
{
    match asset_extension(asset) {
        Some(e) => same_text_ignore_ascii_case(e.as_str(), "mp4"),
        None => false,
    }
}

/// Where a reward's icon comes from.
#[derive(Clone, Debug, PartialEq, Eq)]
pub enum RewardIcon {
    /// This address.
    Url(String),
    /// The collectible with this SKU, as the collectibles endpoint lists it;
    /// `fallback` where it cannot be had.
    Collectible { sku_id: String, fallback: String },
}

/// The icon address fixed by the quest alone, or `None` where it is that of a
/// collectible to look up: the orb icon for an orb reward of a positive
/// amount; the collectible's own for a collectible with a SKU; the reward's
/// asset where it is not a video; else the game tile.
pub open spec fn direct_icon(quest: DiscordQuest, reward: Option<&QuestReward>) -> Option<Seq<char>> {
    let tile = cdn_url(quest.id@, quest.config.assets.game_tile@);
    match reward {
        None => Some(tile),
        Some(r) => match r.orb_quantity {
            Some(orbs) => if orbs > 0 {
                Some(ORBS_ICON_URL@)
            } else {
                Some(tile)
            },
            None => if r.reward_type == REWARD_TYPE_COLLECTIBLE {
                match r.sku_id {
                    Some(_) => None,
                    None => Some(tile),
                }
            } else {
                match r.asset {
                    Some(a) => if is_video_asset(a@) {
                        Some(tile)
                    } else {
                        Some(cdn_url(quest.id@, a@))
                    },
                    None => Some(tile),
                }
            },
        },
    }
}

/// Decides where the icon of `reward`, the first reward of `quest`, comes from.
pub fn plan_reward_icon(quest: &DiscordQuest, reward: Option<&QuestReward>) -> (r: RewardIcon)
    ensures
        match r {
            RewardIcon::Url(u) => direct_icon(*quest, reward) == Some(u@),
            RewardIcon::Collectible { sku_id, fallback } => {
                &&& direct_icon(*quest, reward) is None
                &&& (reward matches Some(rw) && rw.sku_id == Some(sku_id))
                &&& fallback@ == cdn_url(quest.id@, quest.config.assets.game_tile@)
            },
        },
{
    let tile = build_cdn_url(quest.id.as_str(), quest.config.assets.game_tile.as_str());
    match reward {
        None => RewardIcon::Url(tile),
        Some(r) => match r.orb_quantity {
            Some(orbs) => if orbs > 0 {
                RewardIcon::Url(String::from_str(ORBS_ICON_URL))
            } else {
                RewardIcon::Url(tile)
            },
            None => if r.reward_type == REWARD_TYPE_COLLECTIBLE {
                match &r.sku_id {
                    Some(sku) => RewardIcon::Collectible { sku_id: sku.clone(), fallback: tile },
                    None => RewardIcon::Url(tile),
                }
            } else {
                match &r.asset {
                    Some(a) => if is_video_file(a.as_str()) {
                        RewardIcon::Url(tile)
                    } else {
                        RewardIcon::Url(build_cdn_url(quest.id.as_str(), a.as_str()))
                    },
                    None => RewardIcon::Url(tile),
                }
            },
        },
    }
}

/// The address of the collectibles endpoint for one SKU.
pub fn collectible_product_url(sku_id: &str) -> (r: String)
    ensures
        r@ == COLLECTIBLES_API_URL@ + "/"@ + sku_id@,
{
    let mut r = String::from_str(COLLECTIBLES_API_URL);
    r.append("/");
    r.append(sku_id);
    r
}

/// The image of the first item of a collectible product, if it has one.
pub fn collectible_icon_url(product: &CollectibleProduct) -> (r: Option<String>)
    ensures
        product.items@.len() == 0 ==> r is None,
        product.items@.len() > 0 ==> (r matches Some(u) && u@
            == "https://cdn.discordapp.com/avatar-decoration-presets/"@ + product.items@[0].asset@
            + ".png"@),
{
    if product.items.len() == 0 {
        None
    } else {
        let mut r = String::from_str("https://cdn.discordapp.com/avatar-decoration-presets/");
        r.append(product.items[0].asset.as_str());
        r.append(".png");
        Some(r)
    }
}

} // verus!
