//! Token usage added up over a conversation.
use vstd::prelude::*;

use crate::message::{msgs_view, MessageView, Session, TokenUsage};
use crate::text::{ascii_lower_seq, ascii_lower_vec, chars_of, contains, contains_vec};

verus! {

/// The price tier a model is billed at.
#[derive(Debug, Clone, Copy, PartialEq, Eq, Structural)]
pub enum PricingTier {
    Haiku,
    Opus,
    Sonnet,
}

/// The tier of `model`: its ASCII-lowercased name is searched for `haiku`,
/// then `opus`, then `sonnet`; a name with none of them has no known tier.
pub open spec fn tier_of_model(model: Seq<char>) -> Option<PricingTier> {
    let name = ascii_lower_seq(model);
    if contains(name, "haiku"@) {
        Some(PricingTier::Haiku)
    } else if contains(name, "opus"@) {
        Some(PricingTier::Opus)
    } else if contains(name, "sonnet"@) {
        Some(PricingTier::Sonnet)
    } else {
        None
    }
}

/// The pricing tier of `model`, if its name names one.
pub fn pricing_tier_for_model(model: &str) -> (r: Option<PricingTier>)
    ensures
        r == tier_of_model(model@),
{
    let name = ascii_lower_vec(&chars_of(model));
    if contains_vec(&name, &chars_of("haiku")) {
        Some(PricingTier::Haiku)
    } else if contains_vec(&name, &chars_of("opus")) {
        Some(PricingTier::Opus)
    } else if contains_vec(&name, &chars_of("sonnet")) {
        Some(PricingTier::Sonnet)
    } else {
        None
    }
}

/// Token usage of the latest turn and of all turns.
#[derive(Debug, Clone, Copy, PartialEq, Eq)]
pub struct UsageTracker {
    latest_turn: TokenUsage,
    cumulative: TokenUsage,
    turns: u32,
}

/// The usages recorded on the messages, in order.
pub open spec fn usages_of(ms: Seq<MessageView>) -> Seq<TokenUsage>
    decreases ms.len(),
{
    if ms.len() == 0 {
        seq![]
    } else {
        usages_of(ms.drop_last()) + match ms.last().usage {
            Some(u) => seq![u],
            None => seq![],
        }
    }
}

/// Sums of each counter over the usages: input, output, cache creation, cache read.
pub open spec fn usage_sums(us: Seq<TokenUsage>) -> (nat, nat, nat, nat)
    decreases us.len(),
{
    if us.len() == 0 {
        (0, 0, 0, 0)
    } else {
        let (a, b, c, d) = usage_sums(us.drop_last());
        let u = us.last();
        (
            a + u.input_tokens as nat,
            b + u.output_tokens as nat,
            c + u.cache_creation_input_tokens as nat,
            d + u.cache_read_input_tokens as nat,
        )
    }
}

/// The sums fit the counters.
pub open spec fn sums_fit(s: (nat, nat, nat, nat)) -> bool {
    s.0 <= u32::MAX && s.1 <= u32::MAX && s.2 <= u32::MAX && s.3 <= u32::MAX
}

/// A usage with every counter at zero.
pub open spec fn zero_usage() -> TokenUsage {
    TokenUsage {
        input_tokens: 0,
        output_tokens: 0,
        cache_creation_input_tokens: 0,
        cache_read_input_tokens: 0,
    }
}

impl UsageTracker {
    /// The usage of the latest recorded turn.
    pub closed spec fn latest(&self) -> TokenUsage {
        self.latest_turn
    }

    /// The usage of all recorded turns.
    pub closed spec fn total(&self) -> TokenUsage {
        self.cumulative
    }

    /// The number of recorded turns.
    pub closed spec fn turn_count(&self) -> u32 {
        self.turns
    }

    /// A tracker with nothing recorded.
    pub fn new() -> (t: Self)
        ensures
            t.latest() == zero_usage(),
            t.total() == zero_usage(),
            t.turn_count() == 0,
    {
        let zero = TokenUsage {
            input_tokens: 0,
            output_tokens: 0,
            cache_creation_input_tokens: 0,
            cache_read_input_tokens: 0,
        };
        UsageTracker { latest_turn: zero, cumulative: zero, turns: 0 }
    }

    /// Records one turn: it becomes the latest, and its counters are added to
    /// the totals.
    pub fn record(&mut self, usage: TokenUsage)
        requires
            old(self).total().input_tokens + usage.input_tokens <= u32::MAX,
            old(self).total().output_tokens + usage.output_tokens <= u32::MAX,
            old(self).total().cache_creation_input_tokens + usage.cache_creation_input_tokens
                <= u32::MAX,
            old(self).total().cache_read_input_tokens + usage.cache_read_input_tokens <= u32::MAX,
            old(self).turn_count() < u32::MAX,
        ensures
            final(self).latest() == usage,
            final(self).total().input_tokens == old(self).total().input_tokens + usage.input_tokens,
            final(self).total().output_tokens == old(self).total().output_tokens + usage.output_tokens,
            final(self).total().cache_creation_input_tokens == old(self).total().cache_creation_input_tokens
                + usage.cache_creation_input_tokens,
            final(self).total().cache_read_input_tokens == old(self).total().cache_read_input_tokens
                + usage.cache_read_input_tokens,
            final(self).turn_count() == old(self).turn_count() + 1,
    {
        self.latest_turn = usage;
        self.cumulative.input_tokens = self.cumulative.input_tokens + usage.input_tokens;
        self.cumulative.output_tokens = self.cumulative.output_tokens + usage.output_tokens;
        self.cumulative.cache_creation_input_tokens = self.cumulative.cache_creation_input_tokens
            + usage.cache_creation_input_tokens;
        self.cumulative.cache_read_input_tokens = self.cumulative.cache_read_input_tokens
            + usage.cache_read_input_tokens;
        self.turns = self.turns + 1;
    }

    /// A tracker holding every usage recorded on the session's messages.
    pub fn from_session(session: &Session) -> (t: Self)
        requires
            sums_fit(usage_sums(usages_of(msgs_view(session.messages@)))),
            usages_of(msgs_view(session.messages@)).len() <= u32::MAX,
        ensures
            ({
                let us = usages_of(msgs_view(session.messages@));
                let s = usage_sums(us);
                &&& t.total().input_tokens == s.0
                &&& t.total().output_tokens == s.1
                &&& t.total().cache_creation_input_tokens == s.2
                &&& t.total().cache_read_input_tokens == s.3
                &&& t.turn_count() == us.len()
                &&& t.latest() == if us.len() > 0 {
                    us.last()
                } else {
                    zero_usage()
                }
            }),
    {
        let ghost mv = msgs_view(session.messages@);
        let ghost all = usages_of(mv);
        let mut t = UsageTracker::new();
        let mut i: usize = 0;
        assert(mv.take(0) =~= Seq::<MessageView>::empty());
        while i < session.messages.len()
            invariant
                0 <= i <= session.messages.len(),
                mv == msgs_view(session.messages@),
                all == usages_of(mv),
                sums_fit(usage_sums(all)),
                all.len() <= u32::MAX,
                ({
                    let us = usages_of(mv.take(i as int));
                    let s = usage_sums(us);
                    &&& t.total().input_tokens == s.0
                    &&& t.total().output_tokens == s.1
                    &&& t.total().cache_creation_input_tokens == s.2
                    &&& t.total().cache_read_input_tokens == s.3
                    &&& t.turn_count() == us.len()
                    &&& t.latest() == if us.len() > 0 {
                        us.last()
                    } else {
                        zero_usage()
                    }
                }),
            decreases session.messages.len() - i,
        {
            assert(mv.take(i + 1).drop_last() == mv.take(i as int));
            assert(mv.take(i + 1).last() == session.messages@[i as int]@);
            proof {
                lemma_usages_prefix(mv, i + 1);
            }
            match session.messages[i].usage {
                Some(u) => {
                    let ghost us = usages_of(mv.take(i + 1));
                    assert(us.drop_last() == usages_of(mv.take(i as int)));
                    t.record(u);
                },
                None => {},
            }
            i += 1;
        }
        assert(mv.take(session.messages.len() as int) == mv);
        t
    }

    /// The usage of the latest recorded turn.
    pub fn current_turn_usage(&self) -> (u: TokenUsage)
        ensures
            u == self.latest(),
    {
        self.latest_turn
    }

    /// The usage of all recorded turns.
    pub fn cumulative_usage(&self) -> (u: TokenUsage)
        ensures
            u == self.total(),
    {
        self.cumulative
    }

    /// The number of recorded turns.
    pub fn turns(&self) -> (n: u32)
        ensures
            n == self.turn_count(),
    {
        self.turns
    }
}

/// The usages of a prefix of the messages are a prefix of all usages, and
/// their sums are no larger.
pub proof fn lemma_usages_prefix(ms: Seq<MessageView>, k: int)
    requires
        0 <= k <= ms.len(),
    ensures
        usages_of(ms.take(k)).len() <= usages_of(ms).len(),
        usage_sums(usages_of(ms.take(k))).0 <= usage_sums(usages_of(ms)).0,
        usage_sums(usages_of(ms.take(k))).1 <= usage_sums(usages_of(ms)).1,
        usage_sums(usages_of(ms.take(k))).2 <= usage_sums(usages_of(ms)).2,
        usage_sums(usages_of(ms.take(k))).3 <= usage_sums(usages_of(ms)).3,
    decreases ms.len() - k,
{
    if k < ms.len() {
        lemma_usages_prefix(ms, k + 1);
        assert(ms.take(k + 1).drop_last() == ms.take(k));
        let us = usages_of(ms.take(k + 1));
        match ms.take(k + 1).last().usage {
            Some(u) => {
                assert(us.drop_last() == usages_of(ms.take(k)));
            },
            None => {},
        }
    } else {
        assert(ms.take(k) == ms);
    }
}

} // verus!
