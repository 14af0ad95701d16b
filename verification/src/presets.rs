//! Predefined cron expressions for common schedules, each the canonical
//! form of the matching English phrase.

use vstd::prelude::*;

verus! {

/// Execute every 5 seconds: "0/5 * * * * ? *"
pub const EVERY_5_SEC: &'static str = "0/5 * * * * ? *";

/// Execute every 10 seconds: "0/10 * * * * ? *"
pub const EVERY_10_SEC: &'static str = "0/10 * * * * ? *";

/// Execute every 30 seconds: "0/30 * * * * ? *"
pub const EVERY_30_SEC: &'static str = "0/30 * * * * ? *";

/// Execute every minute: "0 * * * * ? *"
pub const EVERY_MIN: &'static str = "0 * * * * ? *";

/// Execute every 5 minutes: "0 0/5 * * * ? *"
pub const EVERY_5_MIN: &'static str = "0 0/5 * * * ? *";

/// Execute every 10 minutes: "0 0/10 * * * ? *"
pub const EVERY_10_MIN: &'static str = "0 0/10 * * * ? *";

/// Execute every 30 minutes: "0 0/30 * * * ? *"
pub const EVERY_30_MIN: &'static str = "0 0/30 * * * ? *";

/// Execute every hour: "0 0 * * * ? *"
pub const EVERY_HOUR: &'static str = "0 0 * * * ? *";

/// Execute every day at midnight: "0 0 0 */1 * ? *"
pub const EVERY_DAY: &'static str = "0 0 0 */1 * ? *";

/// Execute every day at 1 AM: "0 0 1 */1 * ? *"
pub const EVERY_1_AM: &'static str = "0 0 1 */1 * ? *";

/// Execute every day at 2 AM: "0 0 2 */1 * ? *"
pub const EVERY_2_AM: &'static str = "0 0 2 */1 * ? *";

/// Execute every day at 3 AM: "0 0 3 */1 * ? *"
pub const EVERY_3_AM: &'static str = "0 0 3 */1 * ? *";

/// Execute every day at 4 AM: "0 0 4 */1 * ? *"
pub const EVERY_4_AM: &'static str = "0 0 4 */1 * ? *";

/// Execute every day at 5 AM: "0 0 5 */1 * ? *"
pub const EVERY_5_AM: &'static str = "0 0 5 */1 * ? *";

/// Execute every day at 6 AM: "0 0 6 */1 * ? *"
pub const EVERY_6_AM: &'static str = "0 0 6 */1 * ? *";

/// Execute every day at 7 AM: "0 0 7 */1 * ? *"
pub const EVERY_7_AM: &'static str = "0 0 7 */1 * ? *";

/// Execute every day at 8 AM: "0 0 8 */1 * ? *"
pub const EVERY_8_AM: &'static str = "0 0 8 */1 * ? *";

/// Execute every day at 9 AM: "0 0 9 */1 * ? *"
pub const EVERY_9_AM: &'static str = "0 0 9 */1 * ? *";

/// Execute every day at 10 AM: "0 0 10 */1 * ? *"
pub const EVERY_10_AM: &'static str = "0 0 10 */1 * ? *";

/// Execute every day at 11 AM: "0 0 11 */1 * ? *"
pub const EVERY_11_AM: &'static str = "0 0 11 */1 * ? *";

/// Execute every day at 12 PM (noon): "0 0 12 */1 * ? *"
pub const EVERY_12_PM: &'static str = "0 0 12 */1 * ? *";

/// Execute every day at 1 PM: "0 0 13 */1 * ? *"
pub const EVERY_1_PM: &'static str = "0 0 13 */1 * ? *";

/// Execute every day at 2 PM: "0 0 14 */1 * ? *"
pub const EVERY_2_PM: &'static str = "0 0 14 */1 * ? *";

/// Execute every day at 3 PM: "0 0 15 */1 * ? *"
pub const EVERY_3_PM: &'static str = "0 0 15 */1 * ? *";

/// Execute every day at 4 PM: "0 0 16 */1 * ? *"
pub const EVERY_4_PM: &'static str = "0 0 16 */1 * ? *";

/// Execute every day at 5 PM: "0 0 17 */1 * ? *"
pub const EVERY_5_PM: &'static str = "0 0 17 */1 * ? *";

/// Execute every day at 6 PM: "0 0 18 */1 * ? *"
pub const EVERY_6_PM: &'static str = "0 0 18 */1 * ? *";

/// Execute every day at 7 PM: "0 0 19 */1 * ? *"
pub const EVERY_7_PM: &'static str = "0 0 19 */1 * ? *";

/// Execute every day at 8 PM: "0 0 20 */1 * ? *"
pub const EVERY_8_PM: &'static str = "0 0 20 */1 * ? *";

/// Execute every day at 9 PM: "0 0 21 */1 * ? *"
pub const EVERY_9_PM: &'static str = "0 0 21 */1 * ? *";

/// Execute every day at 10 PM: "0 0 22 */1 * ? *"
pub const EVERY_10_PM: &'static str = "0 0 22 */1 * ? *";

/// Execute every day at 11 PM: "0 0 23 */1 * ? *"
pub const EVERY_11_PM: &'static str = "0 0 23 */1 * ? *";

/// Execute every day at 12 AM (midnight): "0 0 0 */1 * ? *"
pub const EVERY_12_AM: &'static str = "0 0 0 */1 * ? *";

} // verus!
