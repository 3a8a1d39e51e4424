//! The quest catalog's entries, as plain values.
use vstd::prelude::*;

verus! {

/// One entry of the quest catalog. Its identity is `id` alone.
#[derive(Clone, Debug, PartialEq, Eq, Hash)]
pub struct DiscordQuest {
    pub id: String,
    pub config: QuestConfig,
}

#[derive(Clone, Debug, PartialEq, Eq, Hash)]
pub struct QuestConfig {
    pub starts_at: String,
    pub expires_at: String,
    pub features: Vec<i32>,
    pub messages: QuestMessages,
    pub rewards_config: RewardsConfig,
    pub assets: QuestAssets,
    pub application: QuestApplication,
    pub task_config: QuestTaskConfig,
}

#[derive(Clone, Debug, PartialEq, Eq, Hash)]
pub struct QuestApplication {
    pub id: String,
    pub name: String,
    pub link: String,
}

#[derive(Clone, Debug, PartialEq, Eq, Hash)]
pub struct QuestAssets {
    pub hero: String,
    pub game_tile: String,
}

#[derive(Clone, Debug, PartialEq, Eq, Hash)]
pub struct QuestMessages {
    pub game_title: String,
    pub game_publisher: String,
}

/// The tasks of a quest, keyed by task name, in ascending key order.
#[derive(Clone, Debug, PartialEq, Eq, Hash)]
pub struct QuestTaskConfig {
    pub config_type: i32,
    pub tasks: Vec<(String, QuestTask)>,
}

#[derive(Clone, Debug, PartialEq, Eq, Hash)]
pub struct QuestTask {
    pub event_name: String,
    pub target: i32,
}

#[derive(Clone, Debug, PartialEq, Eq, Hash)]
pub struct RewardsConfig {
    pub rewards: Vec<QuestReward>,
    pub platforms: Vec<i32>,
}

#[derive(Clone, Debug, PartialEq, Eq, Hash)]
pub struct QuestReward {
    pub reward_type: i32,
    pub messages: QuestRewardMessages,
    pub sku_id: Option<String>,
    pub orb_quantity: Option<i32>,
    pub asset: Option<String>,
    pub quantity: Option<i32>,
}

#[derive(Clone, Debug, PartialEq, Eq, Hash)]
pub struct QuestRewardMessages {
    pub name: String,
}

/// A collectible product as the collectibles endpoint lists it.
#[derive(Clone, Debug)]
pub struct CollectibleProduct {
    pub items: Vec<CollectibleItem>,
}

#[derive(Clone, Debug)]
pub struct CollectibleItem {
    pub asset: String,
}

/// Whether `a` comes strictly before `b` in the order of `String`:
/// lexicographic by character code (the same as by UTF-8 bytes).
pub open spec fn text_before(a: Seq<char>, b: Seq<char>) -> bool
    decreases a.len(),
{
    if a.len() == 0 {
        b.len() > 0
    } else if b.len() == 0 {
        false
    } else if a[0] != b[0] {
        (a[0] as u32) < (b[0] as u32)
    } else {
        text_before(a.drop_first(), b.drop_first())
    }
}

proof fn lemma_text_before_transitive(a: Seq<char>, b: Seq<char>, c: Seq<char>)
    requires
        text_before(a, b),
        text_before(b, c),
    ensures
        text_before(a, c),
    decreases a.len(),
{
    if a.len() > 0 && b.len() > 0 && c.len() > 0 && a[0] == b[0] && b[0] == c[0] {
        lemma_text_before_transitive(a.drop_first(), b.drop_first(), c.drop_first());
    }
}

/// Whether `a` comes strictly before `b` in the order of `String`.
pub fn text_precedes(a: &str, b: &str) -> (r: bool)
    ensures
        r == text_before(a@, b@),
{
    let n = a.unicode_len();
    let m = b.unicode_len();
    let mut i: usize = 0;
    proof {
        assert(a@.skip(0) =~= a@);
        assert(b@.skip(0) =~= b@);
    }
    while i < n && i < m
        invariant
            n == a@.len(),
            m == b@.len(),
            0 <= i <= n,
            i <= m,
            text_before(a@, b@) == text_before(a@.skip(i as int), b@.skip(i as int)),
        decreases n - i,
    {
        let x = a.get_char(i);
        let y = b.get_char(i);
        if x != y {
            return (x as u32) < (y as u32);
        }
        proof {
            assert(a@.skip(i as int).drop_first() =~= a@.skip(i + 1));
            assert(b@.skip(i as int).drop_first() =~= b@.skip(i + 1));
        }
        i = i + 1;
    }
    i < m
}

impl QuestTaskConfig {
    /// The task keys are strictly ascending, and so unique, as a `BTreeMap`
    /// yields them.
    pub open spec fn wf(&self) -> bool {
        forall|i: int, j: int|
            0 <= i < j < self.tasks@.len() ==> text_before(self.tasks@[i].0@, self.tasks@[j].0@)
    }

    /// Whether the task keys are strictly ascending.
    pub fn keys_ascending(&self) -> (r: bool)
        ensures
            r == self.wf(),
    {
        let n = self.tasks.len();
        if n == 0 {
            return true;
        }
        let mut k: usize = 1;
        while k < n
            invariant
                n == self.tasks@.len(),
                1 <= k <= n,
                forall|i: int, j: int|
                    0 <= i < j < k ==> text_before(self.tasks@[i].0@, self.tasks@[j].0@),
            decreases n - k,
        {
            if !text_precedes(self.tasks[k - 1].0.as_str(), self.tasks[k].0.as_str()) {
                return false;
            }
            proof {
                assert forall|i: int, j: int| 0 <= i < j < k + 1 implies text_before(
                    self.tasks@[i].0@,
                    self.tasks@[j].0@,
                ) by {
                    if j == k && i < k - 1 {
                        lemma_text_before_transitive(
                            self.tasks@[i].0@,
                            self.tasks@[k - 1].0@,
                            self.tasks@[j].0@,
                        );
                    }
                }
            }
            k = k + 1;
        }
        true
    }
}

/// The ids of a batch of quests, in order.
pub open spec fn batch_ids(batch: Seq<DiscordQuest>) -> Seq<Seq<char>> {
    batch.map_values(|q: DiscordQuest| q.id@)
}

} // verus!
