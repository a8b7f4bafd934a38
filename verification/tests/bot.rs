//! End-to-end tests of the bot's operations, over fixed-point hundredths:
//! 100 stands for a price of 1.00 and the starting balance of 1000.00 is
//! 100_000.

use trading_bot::bot::TradingBot;

#[test]
fn short_history_is_rejected_without_side_effects() {
    let mut bot = TradingBot::new();
    assert_eq!(bot.analyze_market(1, vec![]), "Not enough data");
    assert_eq!(bot.analyze_market(2, vec![100]), "Not enough data");
    assert_eq!(bot.analyze_market(3, vec![100, 300]), "Not enough data");
    assert_eq!(bot.get_balance(), 100_000);
    assert!(bot.get_trade_logs().is_empty());
}

#[test]
fn basic_strategy_buys_above_threshold() {
    let mut bot = TradingBot::new();
    let r = bot.analyze_market(7, vec![100, 100, 300]);
    assert_eq!(r, "BUY");
    assert_eq!(bot.get_balance(), 99_500);
    let logs = bot.get_trade_logs();
    assert_eq!(logs.len(), 1);
    assert_eq!(logs[0].timestamp, 7);
    assert_eq!(logs[0].action, "BUY");
    assert_eq!(logs[0].reason, "Strategy: basic, Price: 3.00");
    assert_eq!(logs[0].price, 300);
}

#[test]
fn basic_strategy_sells_below_negative_threshold() {
    let mut bot = TradingBot::new();
    let r = bot.analyze_market(8, vec![500, 500, 100]);
    assert_eq!(r, "SELL");
    assert_eq!(bot.get_balance(), 100_500);
    let logs = bot.get_trade_logs();
    assert_eq!(logs.len(), 1);
    assert_eq!(logs[0].action, "SELL");
    assert_eq!(logs[0].price, 100);
}

#[test]
fn basic_strategy_holds_within_threshold() {
    let mut bot = TradingBot::new();
    bot.update_config("basic".to_string(), 100);
    let r = bot.analyze_market(9, vec![100, 100, 150]);
    assert_eq!(r, "HOLD");
    assert_eq!(bot.get_balance(), 100_000);
    assert_eq!(bot.get_trade_logs().len(), 1);
}

#[test]
fn basic_strategy_holds_at_exact_threshold() {
    let mut bot = TradingBot::new();
    let r = bot.analyze_market(10, vec![100, 100, 200]);
    assert_eq!(r, "HOLD");
    assert_eq!(bot.get_balance(), 100_000);
}

#[test]
fn basic_strategy_uses_last_and_third_from_last() {
    let mut bot = TradingBot::new();
    let r = bot.analyze_market(11, vec![99_900, 100, 100, 300]);
    assert_eq!(r, "BUY");
    assert_eq!(bot.get_balance(), 99_500);
}

#[test]
fn macd_strategy_buys_on_even_whole_price() {
    let mut bot = TradingBot::new();
    bot.update_config("macd".to_string(), 50);
    let r = bot.analyze_market(12, vec![100, 100, 400]);
    assert_eq!(r, "BUY");
    assert_eq!(bot.get_balance(), 99_500);
    let logs = bot.get_trade_logs();
    assert_eq!(logs[0].reason, "Strategy: macd, Price: 4.00");
}

#[test]
fn macd_strategy_sells_on_odd_whole_price() {
    let mut bot = TradingBot::new();
    bot.update_config("macd".to_string(), 50);
    let r = bot.analyze_market(13, vec![100, 100, 300]);
    assert_eq!(r, "SELL");
    assert_eq!(bot.get_balance(), 100_500);
}

#[test]
fn macd_strategy_sells_on_fractional_price() {
    let mut bot = TradingBot::new();
    bot.update_config("macd".to_string(), 50);
    let r = bot.analyze_market(14, vec![100, 100, 151]);
    assert_eq!(r, "SELL");
}

#[test]
fn macd_strategy_buys_on_negative_even_price() {
    let mut bot = TradingBot::new();
    bot.update_config("macd".to_string(), 50);
    let r = bot.analyze_market(15, vec![100, 100, -400]);
    assert_eq!(r, "BUY");
    let logs = bot.get_trade_logs();
    assert_eq!(logs[0].reason, "Strategy: macd, Price: -4.00");
}

#[test]
fn unknown_strategy_always_holds_and_still_logs() {
    let mut bot = TradingBot::new();
    bot.update_config("foo".to_string(), 50);
    let r = bot.analyze_market(16, vec![100, 100, 300]);
    assert_eq!(r, "HOLD");
    assert_eq!(bot.get_balance(), 100_000);
    let logs = bot.get_trade_logs();
    assert_eq!(logs.len(), 1);
    assert_eq!(logs[0].action, "HOLD");
    assert!(logs[0].reason.contains("Strategy: foo"));
    assert_eq!(logs[0].reason, "Strategy: foo, Price: 3.00");
}

#[test]
fn config_round_trips_exactly() {
    let mut bot = TradingBot::new();
    bot.update_config("macd".to_string(), 75);
    let cfg = bot.get_bot_config();
    assert_eq!(cfg.strategy, "macd");
    assert_eq!(cfg.threshold, 75);
    bot.update_config("anything at all".to_string(), -250);
    let cfg = bot.get_bot_config();
    assert_eq!(cfg.strategy, "anything at all");
    assert_eq!(cfg.threshold, -250);
}

#[test]
fn default_config_is_basic_with_half_unit_threshold() {
    let bot = TradingBot::new();
    let cfg = bot.get_bot_config();
    assert_eq!(cfg.strategy, "basic");
    assert_eq!(cfg.threshold, 50);
    assert_eq!(bot.get_balance(), 100_000);
    assert!(!bot.is_bot_active());
}

#[test]
fn one_log_entry_per_successful_call_in_call_order() {
    let mut bot = TradingBot::new();
    assert_eq!(bot.analyze_market(21, vec![100, 100, 300]), "BUY");
    assert_eq!(bot.analyze_market(22, vec![500, 500, 100]), "SELL");
    assert_eq!(bot.analyze_market(23, vec![100, 100, 100]), "HOLD");
    bot.analyze_market(24, vec![100]);
    let logs = bot.get_trade_logs();
    assert_eq!(logs.len(), 3);
    assert_eq!(logs[0].timestamp, 21);
    assert_eq!(logs[0].action, "BUY");
    assert_eq!(logs[1].timestamp, 22);
    assert_eq!(logs[1].action, "SELL");
    assert_eq!(logs[2].timestamp, 23);
    assert_eq!(logs[2].action, "HOLD");
}

#[test]
fn activity_flag_round_trips() {
    let mut bot = TradingBot::new();
    assert!(!bot.is_bot_active());
    bot.start_bot();
    assert!(bot.is_bot_active());
    bot.start_bot();
    assert!(bot.is_bot_active());
    bot.stop_bot();
    assert!(!bot.is_bot_active());
    bot.stop_bot();
    assert!(!bot.is_bot_active());
}

#[test]
fn activity_flag_does_not_gate_analysis() {
    let mut bot = TradingBot::new();
    bot.stop_bot();
    let r = bot.analyze_market(31, vec![100, 100, 300]);
    assert_eq!(r, "BUY");
    assert_eq!(bot.get_balance(), 99_500);
    assert_eq!(bot.get_trade_logs().len(), 1);
    assert!(!bot.is_bot_active());
    bot.start_bot();
    let r = bot.analyze_market(32, vec![100, 100, 300]);
    assert_eq!(r, "BUY");
    assert_eq!(bot.get_balance(), 99_000);
    assert_eq!(bot.get_trade_logs().len(), 2);
    assert!(bot.is_bot_active());
}

#[test]
fn analysis_does_not_change_configuration() {
    let mut bot = TradingBot::new();
    bot.update_config("foo".to_string(), 33);
    bot.analyze_market(41, vec![100, 100, 300]);
    let cfg = bot.get_bot_config();
    assert_eq!(cfg.strategy, "foo");
    assert_eq!(cfg.threshold, 33);
}

#[test]
fn log_snapshot_is_a_copy() {
    let mut bot = TradingBot::new();
    bot.analyze_market(51, vec![100, 100, 300]);
    let first = bot.get_trade_logs();
    bot.analyze_market(52, vec![100, 100, 300]);
    assert_eq!(first.len(), 1);
    assert_eq!(bot.get_trade_logs().len(), 2);
}
