//! The bot's state and its operations.
//!
//! All amounts are fixed-point hundredths (see [`crate::fixed`]). The
//! timestamp of an analysis call is supplied by the caller, in nanoseconds.

use vstd::prelude::*;
use vstd::string::StringExecFns;
use vstd::arithmetic::div_mod::{lemma_fundamental_div_mod, lemma_mod_multiples_vanish};
use crate::fixed::fixed_to_string;
use crate::model::{
    Action, BotView, ConfigView, LogView, action_label, balance_delta, sat_add_i64, spec_analyze,
    spec_decide, spec_init, spec_log_entry, spec_start, spec_stop, spec_update_config,
    DEFAULT_THRESHOLD, DOUBLE_SCALE, INITIAL_BALANCE, TRADE_UNIT,
};

verus! {

/// Caller identity placeholder, reserved for a future authentication scheme;
/// no operation reads it.
pub struct UserContext {
    pub principal_id: String,
}

/// The strategy configuration: a free-text strategy tag and a threshold in
/// hundredths. Any tag is accepted; an unrecognized one makes every analysis
/// hold.
pub struct BotConfig {
    pub strategy: String,
    pub threshold: i64,
}

/// One entry of the trade log: the timestamp of the analysis call, the
/// action's text, a reason naming the strategy and the last price, and the
/// last price in hundredths.
pub struct TradeLog {
    pub timestamp: u64,
    pub action: String,
    pub reason: String,
    pub price: i64,
}

/// The whole bot state: the activity flag, the configuration, the balance in
/// hundredths, and the append-only trade log.
pub struct TradingBot {
    pub active: bool,
    pub config: BotConfig,
    pub balance: i64,
    pub logs: Vec<TradeLog>,
}

impl View for BotConfig {
    type V = ConfigView;

    open spec fn view(&self) -> ConfigView {
        ConfigView { strategy: self.strategy@, threshold: self.threshold as int }
    }
}

impl View for TradeLog {
    type V = LogView;

    open spec fn view(&self) -> LogView {
        LogView {
            timestamp: self.timestamp,
            action: self.action@,
            reason: self.reason@,
            price: self.price as int,
        }
    }
}

/// The spec-level image of a sequence of log entries.
pub open spec fn logs_view(s: Seq<TradeLog>) -> Seq<LogView> {
    s.map_values(|l: TradeLog| l@)
}

/// The spec-level image of a sequence of fixed-point prices.
pub open spec fn cents_of(s: Seq<i64>) -> Seq<int> {
    s.map_values(|p: i64| p as int)
}

impl View for TradingBot {
    type V = BotView;

    open spec fn view(&self) -> BotView {
        BotView {
            active: self.active,
            config: self.config@,
            balance: self.balance as int,
            logs: logs_view(self.logs@),
        }
    }
}

impl Clone for BotConfig {
    fn clone(&self) -> (res: Self)
        ensures
            res == *self,
    {
        BotConfig { strategy: self.strategy.clone(), threshold: self.threshold }
    }
}

impl Clone for TradeLog {
    fn clone(&self) -> (res: Self)
        ensures
            res == *self,
    {
        TradeLog {
            timestamp: self.timestamp,
            action: self.action.clone(),
            reason: self.reason.clone(),
            price: self.price,
        }
    }
}

/// A multiple of `m` stays one under negation.
proof fn lemma_neg_divisible(c: int, m: int)
    requires
        m > 0,
    ensures
        (c % m == 0) <==> ((-c) % m == 0),
{
    lemma_fundamental_div_mod(c, m);
    lemma_fundamental_div_mod(-c, m);
    if c % m == 0 {
        assert(-c == m * (-(c / m)) + 0) by (nonlinear_arith)
            requires
                c == m * (c / m) + (c % m),
                c % m == 0,
        ;
        lemma_mod_multiples_vanish(-(c / m), 0, m);
    }
    if (-c) % m == 0 {
        assert(c == m * (-((-c) / m)) + 0) by (nonlinear_arith)
            requires
                -c == m * ((-c) / m) + ((-c) % m),
                (-c) % m == 0,
        ;
        lemma_mod_multiples_vanish(-((-c) / m), 0, m);
    }
}

/// Whether `DOUBLE_SCALE` divides `c`, that is, whether the fixed-point
/// amount of `c` hundredths is an even whole number.
fn divisible_by_double_scale(c: i64) -> (r: bool)
    ensures
        r == ((c as int) % (DOUBLE_SCALE as int) == 0),
{
    let a: u64 = if c >= 0 {
        c as u64
    } else {
        (-(c as i128)) as u64
    };
    proof {
        if c < 0 {
            lemma_neg_divisible(c as int, DOUBLE_SCALE as int);
        }
    }
    a % (DOUBLE_SCALE as u64) == 0
}

/// Addition on `i64`, clamped to its range.
fn sat_add(b: i64, d: i64) -> (r: i64)
    ensures
        r as int == sat_add_i64(b as int, d as int),
{
    let s: i128 = b as i128 + d as i128;
    if s > i64::MAX as i128 {
        i64::MAX
    } else if s < i64::MIN as i128 {
        i64::MIN
    } else {
        s as i64
    }
}

/// The decision rule over the current configuration, the last price and the
/// third-from-last price.
fn decide(cfg: &BotConfig, last: i64, third: i64) -> (a: Action)
    ensures
        a == spec_decide(cfg@, last as int, third as int),
{
    let basic: String = String::from_str("basic");
    if cfg.strategy == basic {
        let diff: i128 = last as i128 - third as i128;
        let bound: i128 = 2 * (cfg.threshold as i128);
        if diff > bound {
            Action::Buy
        } else if diff < -bound {
            Action::Sell
        } else {
            Action::Hold
        }
    } else {
        let macd: String = String::from_str("macd");
        if cfg.strategy == macd {
            if divisible_by_double_scale(last) {
                Action::Buy
            } else {
                Action::Sell
            }
        } else {
            Action::Hold
        }
    }
}

/// The text of an action.
fn action_text(a: Action) -> (s: String)
    ensures
        s@ == action_label(a),
{
    match a {
        Action::Buy => String::from_str("BUY"),
        Action::Sell => String::from_str("SELL"),
        Action::Hold => String::from_str("HOLD"),
    }
}

impl TradingBot {
    /// A bot in its starting state: inactive, the `basic` strategy with a
    /// threshold of half a unit, the initial balance, and an empty log.
    pub fn new() -> (bot: TradingBot)
        ensures
            bot@ == spec_init(),
    {
        let bot = TradingBot {
            active: false,
            config: BotConfig { strategy: String::from_str("basic"), threshold: DEFAULT_THRESHOLD },
            balance: INITIAL_BALANCE,
            logs: Vec::new(),
        };
        proof {
            assert(bot@ =~= spec_init());
        }
        bot
    }

    /// Sets the activity flag; idempotent, touches nothing else.
    pub fn start_bot(&mut self)
        ensures
            final(self)@ == spec_start(old(self)@),
    {
        self.active = true;
    }

    /// Clears the activity flag; idempotent, touches nothing else.
    pub fn stop_bot(&mut self)
        ensures
            final(self)@ == spec_stop(old(self)@),
    {
        self.active = false;
    }

    /// Reads the activity flag.
    pub fn is_bot_active(&self) -> (r: bool)
        ensures
            r == self@.active,
    {
        self.active
    }

    /// A snapshot copy of the whole trade log, in insertion order.
    pub fn get_trade_logs(&self) -> (logs: Vec<TradeLog>)
        ensures
            logs_view(logs@) == self@.logs,
    {
        let mut out: Vec<TradeLog> = Vec::new();
        let mut i: usize = 0;
        proof {
            assert(out@ =~= self.logs@.subrange(0, 0));
        }
        while i < self.logs.len()
            invariant
                i <= self.logs.len(),
                out@ == self.logs@.subrange(0, i as int),
            decreases self.logs.len() - i,
        {
            out.push(self.logs[i].clone());
            i = i + 1;
            proof {
                assert(out@ =~= self.logs@.subrange(0, i as int));
            }
        }
        proof {
            assert(out@ =~= self.logs@);
            assert(logs_view(out@) =~= self@.logs);
        }
        out
    }

    /// A copy of the current configuration.
    pub fn get_bot_config(&self) -> (cfg: BotConfig)
        ensures
            cfg@ == self@.config,
    {
        self.config.clone()
    }

    /// Replaces the configuration wholesale; any strategy text and any
    /// threshold are accepted.
    pub fn update_config(&mut self, strategy: String, threshold: i64)
        ensures
            final(self)@ == spec_update_config(old(self)@, strategy@, threshold as int),
    {
        self.config = BotConfig { strategy, threshold };
    }

    /// The current balance, in hundredths.
    pub fn get_balance(&self) -> (r: i64)
        ensures
            r as int == self@.balance,
    {
        self.balance
    }

    /// One analysis call over `price_history`, timestamped `now`.
    ///
    /// With fewer than three prices it reports the shortage and touches
    /// nothing. Otherwise it decides under the current configuration, moves
    /// the balance by the action's adjustment, appends one log entry, and
    /// returns the action's text. The activity flag has no effect on it.
    pub fn analyze_market(&mut self, now: u64, price_history: Vec<i64>) -> (r: String)
        ensures
            final(self)@ == spec_analyze(old(self)@, now, cents_of(price_history@)).0,
            r@ == spec_analyze(old(self)@, now, cents_of(price_history@)).1,
    {
        let n = price_history.len();
        if n < 3 {
            return String::from_str("Not enough data");
        }
        let last = price_history[n - 1];
        let third = price_history[n - 3];
        let a = decide(&self.config, last, third);
        let delta: i64 = match a {
            Action::Buy => -TRADE_UNIT,
            Action::Sell => TRADE_UNIT,
            Action::Hold => 0,
        };
        self.balance = sat_add(self.balance, delta);
        let reason = String::from_str("Strategy: ")
            .concat(self.config.strategy.as_str())
            .concat(", Price: ")
            .concat(fixed_to_string(last).as_str());
        let entry = TradeLog { timestamp: now, action: action_text(a), reason, price: last };
        self.logs.push(entry);
        proof {
            assert(self@ =~= spec_analyze(old(self)@, now, cents_of(price_history@)).0);
        }
        action_text(a)
    }
}

} // verus!
