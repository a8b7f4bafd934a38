//! The mathematical model of the bot: spec-level images of the state and the
//! transition each operation performs.

use vstd::prelude::*;
use crate::fixed::spec_fixed;

verus! {

/// The fixed balance adjustment, in hundredths, applied on a BUY (subtracted)
/// or a SELL (added).
pub const TRADE_UNIT: i64 = 500;

/// The balance the bot starts with, in hundredths.
pub const INITIAL_BALANCE: i64 = 100_000;

/// The threshold the default configuration starts with, in hundredths.
pub const DEFAULT_THRESHOLD: i64 = 50;

/// Twice the fixed-point scale: a fixed-point amount stands for an even whole
/// number exactly when this divides it.
pub const DOUBLE_SCALE: i64 = 200;

/// A trading decision.
#[derive(Clone, Copy)]
pub enum Action {
    Buy,
    Sell,
    Hold,
}

/// Spec-level image of a strategy configuration.
#[verifier::ext_equal]
pub ghost struct ConfigView {
    pub strategy: Seq<char>,
    pub threshold: int,
}

/// Spec-level image of one trade-log entry.
#[verifier::ext_equal]
pub ghost struct LogView {
    pub timestamp: u64,
    pub action: Seq<char>,
    pub reason: Seq<char>,
    pub price: int,
}

/// Spec-level image of the whole bot state.
#[verifier::ext_equal]
pub ghost struct BotView {
    pub active: bool,
    pub config: ConfigView,
    pub balance: int,
    pub logs: Seq<LogView>,
}

/// The state the bot starts in: inactive, the `basic` strategy with a
/// threshold of half a unit, the initial balance, and an empty log.
pub open spec fn spec_init() -> BotView {
    BotView {
        active: false,
        config: ConfigView { strategy: "basic"@, threshold: DEFAULT_THRESHOLD as int },
        balance: INITIAL_BALANCE as int,
        logs: Seq::empty(),
    }
}

/// Starting the bot sets the activity flag and changes nothing else.
pub open spec fn spec_start(v: BotView) -> BotView {
    BotView { active: true, ..v }
}

/// Stopping the bot clears the activity flag and changes nothing else.
pub open spec fn spec_stop(v: BotView) -> BotView {
    BotView { active: false, ..v }
}

/// Updating the configuration replaces it wholesale and changes nothing else.
pub open spec fn spec_update_config(v: BotView, strategy: Seq<char>, threshold: int) -> BotView {
    BotView { config: ConfigView { strategy, threshold }, ..v }
}

/// The decision rule, over the last and the third-from-last price.
///
/// Under `basic`, the average change `(last - third) / 2` is compared
/// strictly against the threshold; in hundredths that comparison is
/// `last - third` against twice the threshold, exactly. Under `macd`, the
/// placeholder rule buys exactly when the last price is an even whole
/// number, that is, when `DOUBLE_SCALE` divides its hundredths. Any other
/// strategy tag always holds.
pub open spec fn spec_decide(cfg: ConfigView, last: int, third: int) -> Action {
    if cfg.strategy == "basic"@ {
        if last - third > 2 * cfg.threshold {
            Action::Buy
        } else if last - third < -2 * cfg.threshold {
            Action::Sell
        } else {
            Action::Hold
        }
    } else if cfg.strategy == "macd"@ {
        if last % (DOUBLE_SCALE as int) == 0 {
            Action::Buy
        } else {
            Action::Sell
        }
    } else {
        Action::Hold
    }
}

/// The text of an action.
pub open spec fn action_label(a: Action) -> Seq<char> {
    match a {
        Action::Buy => "BUY"@,
        Action::Sell => "SELL"@,
        Action::Hold => "HOLD"@,
    }
}

/// The signed balance adjustment of an action, in hundredths.
pub open spec fn balance_delta(a: Action) -> int {
    match a {
        Action::Buy => -(TRADE_UNIT as int),
        Action::Sell => TRADE_UNIT as int,
        Action::Hold => 0,
    }
}

/// Addition clamped to the range of `i64`.
pub open spec fn sat_add_i64(b: int, d: int) -> int {
    if b + d > i64::MAX {
        i64::MAX as int
    } else if b + d < i64::MIN {
        i64::MIN as int
    } else {
        b + d
    }
}

/// The log entry a successful analysis appends: the timestamp of the call,
/// the action's text, a reason naming the strategy and the last price, and
/// the last price itself.
pub open spec fn spec_log_entry(cfg: ConfigView, now: u64, last: int, third: int) -> LogView {
    LogView {
        timestamp: now,
        action: action_label(spec_decide(cfg, last, third)),
        reason: "Strategy: "@ + cfg.strategy + ", Price: "@ + spec_fixed(last),
        price: last,
    }
}

/// One analysis call over `prices`: the state after the call and the text
/// returned.
///
/// With fewer than three prices the state is untouched and the call reports
/// the shortage. Otherwise the decision is taken over the last and the
/// third-from-last price under the current configuration, the balance moves
/// by the action's adjustment, and one entry is appended to the log.
pub open spec fn spec_analyze(v: BotView, now: u64, prices: Seq<int>) -> (BotView, Seq<char>) {
    if prices.len() < 3 {
        (v, "Not enough data"@)
    } else {
        let last = prices.last();
        let third = prices[prices.len() - 3];
        let a = spec_decide(v.config, last, third);
        (
            BotView {
                balance: sat_add_i64(v.balance, balance_delta(a)),
                logs: v.logs.push(spec_log_entry(v.config, now, last, third)),
                ..v
            },
            action_label(a),
        )
    }
}

} // verus!
