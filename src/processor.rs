//! The novelty filter: which fetched quests the dedup store has not seen.
use vstd::prelude::*;
use crate::quest::{batch_ids, DiscordQuest};

verus! {

/// Whether the id of `q` is absent from `known`.
pub open spec fn is_unseen(known: Set<Seq<char>>, q: DiscordQuest) -> bool {
    !known.contains(q.id@)
}

/// The quests of `fetched` whose id is not in `known`, in fetch order.
pub open spec fn new_quests(fetched: Seq<DiscordQuest>, known: Set<Seq<char>>) -> Seq<DiscordQuest> {
    fetched.filter(|q: DiscordQuest| is_unseen(known, q))
}

/// Keeps the quests whose id is not in `known_ids`, in fetch order. Every
/// copy of a repeated id is kept: the decision is made against `known_ids`
/// alone, never against earlier quests of the same batch.
pub fn filter_new_quests(fetched_quests: Vec<DiscordQuest>, known_ids: &crate::store::IdSet) -> (r: Vec<
    DiscordQuest,
>)
    ensures
        r@ == new_quests(fetched_quests@, known_ids@),
{
    let ghost known = known_ids@;
    let ghost pred = |q: DiscordQuest| is_unseen(known, q);
    let ghost all = fetched_quests@;
    let mut kept: Vec<DiscordQuest> = Vec::new();
    for q in it: fetched_quests
        invariant
            it.seq() == all,
            known == known_ids@,
            pred == (|q: DiscordQuest| is_unseen(known, q)),
            kept@ == all.take(it.index() as int).filter(pred),
    {
        proof {
            let i = it.index() as int;
            assert(all.take(i + 1) == all.take(i).push(all[i]));
            all.take(i).lemma_filter_push(all[i], pred);
        }
        if !known_ids.contains(&q.id) {
            kept.push(q);
        }
    }
    proof {
        assert(all.take(all.len() as int) == all);
    }
    kept
}

/// `Quest: <game title> - Reward: <first reward's name, or "No reward">`.
pub open spec fn quest_summary(quest: DiscordQuest) -> Seq<char> {
    "Quest: "@ + quest.config.messages.game_title@ + " - Reward: "@ + if quest.config.rewards_config.rewards@.len() > 0 {
        quest.config.rewards_config.rewards@[0].messages.name@
    } else {
        "No reward"@
    }
}

/// A one-line summary of a quest, for the log.
pub fn format_quest_message(quest: &DiscordQuest) -> (r: String)
    ensures
        r@ == quest_summary(*quest),
{
    let mut r = String::from_str("Quest: ");
    r.append(quest.config.messages.game_title.as_str());
    r.append(" - Reward: ");
    if quest.config.rewards_config.rewards.len() > 0 {
        r.append(quest.config.rewards_config.rewards[0].messages.name.as_str());
    } else {
        r.append("No reward");
    }
    r
}

/// Filtering again against the same snapshot changes nothing: every quest
/// that the filter keeps is unseen, and so is kept again.
pub proof fn lemma_filter_new_idempotent(fetched: Seq<DiscordQuest>, known: Set<Seq<char>>)
    ensures
        new_quests(new_quests(fetched, known), known) == new_quests(fetched, known),
{
    broadcast use Seq::lemma_filter_pred;

    let pred = |q: DiscordQuest| is_unseen(known, q);
    lemma_filter_keeps_all(fetched.filter(pred), pred);
}

proof fn lemma_filter_keeps_all(s: Seq<DiscordQuest>, pred: spec_fn(DiscordQuest) -> bool)
    requires
        forall|i: int| 0 <= i < s.len() ==> pred(s[i]),
    ensures
        s.filter(pred) == s,
    decreases s.len(),
{
    reveal(Seq::filter);
    if s.len() > 0 {
        lemma_filter_keeps_all(s.drop_last(), pred);
        assert(s.drop_last().push(s.last()) =~= s);
    }
}

/// Where no id repeats within a fetched batch, no id repeats among its new
/// quests, so a cycle hands each id to notify at most once.
pub proof fn lemma_new_quests_distinct(fetched: Seq<DiscordQuest>, known: Set<Seq<char>>)
    requires
        batch_ids(fetched).no_duplicates(),
    ensures
        batch_ids(new_quests(fetched, known)).no_duplicates(),
    decreases fetched.len(),
{
    reveal(Seq::filter);
    let pred = |q: DiscordQuest| is_unseen(known, q);
    if fetched.len() > 0 {
        let init = fetched.drop_last();
        let last = fetched.last();
        assert(batch_ids(init) =~= batch_ids(fetched).drop_last());
        assert(batch_ids(init).no_duplicates()) by {
            assert forall|a: int, b: int|
                0 <= a < batch_ids(init).len() && 0 <= b < batch_ids(init).len() && a != b
                implies batch_ids(init)[a] != batch_ids(init)[b] by {
                assert(batch_ids(fetched)[a] != batch_ids(fetched)[b]);
            }
        }
        lemma_new_quests_distinct(init, known);
        let sub = init.filter(pred);
        if pred(last) {
            assert(fetched.filter(pred) == sub.push(last));
            #[allow(deprecated)]
            init.filter_lemma(pred);
            assert forall|a: int| 0 <= a < sub.len() implies sub[a].id@ != last.id@ by {
                assert(sub.contains(sub[a]));
                init.lemma_filter_contains_rev(pred, sub[a]);
                assert(init.contains(sub[a]));
                let j = choose|j: int| 0 <= j < init.len() && init[j] == sub[a];
                assert(batch_ids(fetched)[j] != batch_ids(fetched)[fetched.len() - 1]);
            }
            assert(batch_ids(sub.push(last)) =~= batch_ids(sub).push(last.id@));
            assert forall|a: int, b: int|
                0 <= a < batch_ids(sub.push(last)).len() && 0 <= b < batch_ids(
                    sub.push(last),
                ).len() && a != b implies batch_ids(sub.push(last))[a] != batch_ids(
                sub.push(last),
            )[b] by {
                if a < sub.len() && b < sub.len() {
                    assert(batch_ids(sub)[a] != batch_ids(sub)[b]);
                }
            }
        } else {
            assert(fetched.filter(pred) == sub);
        }
    }
}

} // verus!
