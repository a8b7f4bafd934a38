//! The library's laws: what holds of every state and every run of calls,
//! each proved over the spec-level model.

use vstd::prelude::*;
use crate::fixed::spec_fixed;
use crate::model::{
    BotView, ConfigView, LogView, spec_analyze, spec_log_entry, spec_start, spec_stop,
    spec_update_config,
};

verus! {

/// The balances a real state can hold: within the range of `i64`.
pub open spec fn balance_in_range(v: BotView) -> bool {
    i64::MIN as int <= v.balance && v.balance <= i64::MAX as int
}

/// A history of fewer than three prices changes nothing and only reports the
/// shortage.
pub proof fn lemma_short_history_is_noop(v: BotView, now: u64, prices: Seq<int>)
    requires
        prices.len() < 3,
    ensures
        spec_analyze(v, now, prices).0 == v,
        spec_analyze(v, now, prices).1 == "Not enough data"@,
{
}

/// Under an unrecognized strategy tag, every sufficiently long history
/// holds: the reported action is HOLD, the balance is untouched, and the one
/// appended entry is labelled HOLD with a reason naming the tag and the last
/// price.
pub proof fn lemma_unknown_strategy_holds(v: BotView, now: u64, prices: Seq<int>)
    requires
        prices.len() >= 3,
        balance_in_range(v),
        v.config.strategy != "basic"@,
        v.config.strategy != "macd"@,
    ensures
        spec_analyze(v, now, prices).1 == "HOLD"@,
        spec_analyze(v, now, prices).0.balance == v.balance,
        spec_analyze(v, now, prices).0.logs == v.logs.push(
            spec_log_entry(v.config, now, prices.last(), prices[prices.len() - 3]),
        ),
        spec_analyze(v, now, prices).0.logs.last().action == "HOLD"@,
        spec_analyze(v, now, prices).0.logs.last().reason == "Strategy: "@ + v.config.strategy
            + ", Price: "@ + spec_fixed(prices.last()),
{
}

/// An update of the configuration followed by a read gives back exactly the
/// values supplied; nothing else moves.
pub proof fn lemma_config_round_trip(v: BotView, strategy: Seq<char>, threshold: int)
    ensures
        spec_update_config(v, strategy, threshold).config == (ConfigView { strategy, threshold }),
        spec_update_config(v, strategy, threshold).active == v.active,
        spec_update_config(v, strategy, threshold).balance == v.balance,
        spec_update_config(v, strategy, threshold).logs == v.logs,
{
}

/// The bot state after a run of analysis calls, one per element of
/// `histories`, in order, all timestamped `now`.
pub open spec fn spec_analyze_all(v: BotView, now: u64, histories: Seq<Seq<int>>) -> BotView
    decreases histories.len(),
{
    if histories.len() == 0 {
        v
    } else {
        spec_analyze_all(spec_analyze(v, now, histories.first()).0, now, histories.drop_first())
    }
}

/// The log entries a run of calls under configuration `cfg` appends, one per
/// history, in call order.
pub open spec fn entries_of(cfg: ConfigView, now: u64, histories: Seq<Seq<int>>) -> Seq<LogView> {
    Seq::new(
        histories.len(),
        |j: int| spec_log_entry(cfg, now, histories[j].last(), histories[j][histories[j].len() - 3]),
    )
}

/// A run of successful analysis calls appends exactly one entry per call, in
/// call order, each recording its own history under the one configuration,
/// which the run never changes; nor does it change the activity flag.
pub proof fn lemma_one_entry_per_call(v: BotView, now: u64, histories: Seq<Seq<int>>)
    requires
        forall|i: int| 0 <= i < histories.len() ==> (#[trigger] histories[i]).len() >= 3,
    ensures
        spec_analyze_all(v, now, histories).config == v.config,
        spec_analyze_all(v, now, histories).active == v.active,
        spec_analyze_all(v, now, histories).logs == v.logs + entries_of(v.config, now, histories),
    decreases histories.len(),
{
    if histories.len() == 0 {
        assert(spec_analyze_all(v, now, histories).logs =~= v.logs + entries_of(
            v.config,
            now,
            histories,
        ));
    } else {
        let first = histories.first();
        let rest = histories.drop_first();
        let v1 = spec_analyze(v, now, first).0;
        assert(v1.config == v.config);
        assert(v1.logs == v.logs.push(
            spec_log_entry(v.config, now, first.last(), first[first.len() - 3]),
        ));
        assert forall|i: int| 0 <= i < rest.len() implies (#[trigger] rest[i]).len() >= 3 by {
            assert(rest[i] == histories[i + 1]);
        }
        lemma_one_entry_per_call(v1, now, rest);
        assert forall|k: int|
            0 <= k < v.logs.len() + histories.len() implies (v1.logs + entries_of(
            v.config,
            now,
            rest,
        ))[k] == (v.logs + entries_of(v.config, now, histories))[k] by {
            if k < v.logs.len() {
            } else if k == v.logs.len() {
                assert(histories[0] == first);
            } else {
                assert(rest[k - v.logs.len() - 1] == histories[k - v.logs.len()]);
            }
        }
        assert(spec_analyze_all(v, now, histories).logs =~= v.logs + entries_of(
            v.config,
            now,
            histories,
        ));
    }
}

/// Starting and stopping only toggle the flag, idempotently; an analysis
/// call neither reads nor changes the flag, so it runs and mutates state the
/// same way whether the bot is started or stopped.
pub proof fn lemma_flag_independent(v: BotView, now: u64, prices: Seq<int>)
    ensures
        spec_start(v).active && !spec_stop(v).active,
        spec_start(spec_start(v)) == spec_start(v),
        spec_stop(spec_stop(v)) == spec_stop(v),
        spec_start(v).config == v.config && spec_start(v).balance == v.balance && spec_start(
            v,
        ).logs == v.logs,
        spec_stop(v).config == v.config && spec_stop(v).balance == v.balance && spec_stop(v).logs
            == v.logs,
        spec_analyze(v, now, prices).0.active == v.active,
        spec_analyze(spec_stop(v), now, prices).0 == spec_stop(spec_analyze(v, now, prices).0),
        spec_analyze(spec_stop(v), now, prices).1 == spec_analyze(v, now, prices).1,
        spec_analyze(spec_start(v), now, prices).0 == spec_start(spec_analyze(v, now, prices).0),
        spec_analyze(spec_start(v), now, prices).1 == spec_analyze(v, now, prices).1,
{
    assert(spec_analyze(spec_stop(v), now, prices).0 =~= spec_stop(
        spec_analyze(v, now, prices).0,
    ));
    assert(spec_analyze(spec_start(v), now, prices).0 =~= spec_start(
        spec_analyze(v, now, prices).0,
    ));
}

} // verus!
