//! Alert rules: the editable fields of the alert configuration, how typed
//! values are read for them, and notification levels.

use vstd::prelude::*;
use crate::text::{
    ascii_lower, chars_of, decimal_chars, digit_char, string_of, equals_str, is_whitespace, lower_all, lower_chars, spec_decimal, trim, trim_end,
    trim_exec, trim_start,
};

verus! {

/// An editable field of the alert configuration, in editor order.
#[derive(Debug, Clone, Copy, PartialEq, Eq, Structural)]
pub enum AlertField {
    Enabled,
    DesktopNotifications,
    SoundEffects,
    BetPlaced,
    BetSettled,
    RecorderFailures,
    ProviderErrors,
    MatchbookFailures,
    SnapshotStale,
    ExitRecommendations,
    DecisionQueue,
    TrackedBets,
    OpportunityDetected,
    OpportunityThresholdPct,
    WatchedMovement,
    WatchedMovementThresholdPct,
    OwlsErrors,
    CooldownSeconds,
}

/// Number of alert fields.
pub const ALERT_FIELD_COUNT: usize = 18;

/// What a typed value means for a field, once read.
#[derive(Debug, Clone, PartialEq)]
pub enum AlertValue {
    /// An on/off switch.
    Flag(bool),
    /// A percentage threshold, as the trimmed text still to be read as a
    /// decimal number.
    Percent(String),
    /// A whole number of seconds.
    Seconds(u64),
}

/// The abstract form of an `AlertValue`.
pub enum AlertValueView {
    Flag(bool),
    Percent(Seq<char>),
    Seconds(u64),
}

impl View for AlertValue {
    type V = AlertValueView;

    open spec fn view(&self) -> AlertValueView {
        match self {
            AlertValue::Flag(b) => AlertValueView::Flag(*b),
            AlertValue::Percent(t) => AlertValueView::Percent(t@),
            AlertValue::Seconds(n) => AlertValueView::Seconds(*n),
        }
    }
}

/// Why a typed value was refused.
#[derive(Debug, Clone, Copy, PartialEq, Eq, Structural)]
pub enum AlertValueError {
    /// The field is a switch and the text is no boolean word.
    ExpectedBoolean,
    /// The cooldown is not a whole number of seconds.
    CooldownNotWholeSeconds,
}

impl AlertValueError {
    pub open spec fn spec_message(self) -> Seq<char> {
        match self {
            AlertValueError::ExpectedBoolean => "Expected a boolean value."@,
            AlertValueError::CooldownNotWholeSeconds => "Cooldown must be a whole number of seconds."@,
        }
    }

    /// The message shown to the operator.
    pub fn message(self) -> (r: &'static str)
        ensures
            r@ == self.spec_message(),
    {
        match self {
            AlertValueError::ExpectedBoolean => "Expected a boolean value.",
            AlertValueError::CooldownNotWholeSeconds => "Cooldown must be a whole number of seconds.",
        }
    }
}

// ---------------------------------------------------------------------------
// Reading typed values
// ---------------------------------------------------------------------------

/// The boolean words accepted (after trimming and ASCII lower-casing).
pub open spec fn spec_parse_bool(s: Seq<char>) -> Option<bool> {
    let t = lower_chars(trim(s));
    if t == "true"@ || t == "1"@ || t == "yes"@ || t == "on"@ {
        Some(true)
    } else if t == "false"@ || t == "0"@ || t == "no"@ || t == "off"@ {
        Some(false)
    } else {
        None
    }
}

pub open spec fn is_digit(c: char) -> bool {
    '0' <= c && c <= '9'
}

/// The number written by a sequence of decimal digits.
pub open spec fn digits_value(s: Seq<char>) -> nat
    decreases s.len(),
{
    if s.len() == 0 {
        0
    } else {
        10 * digits_value(s.drop_last()) + ((s.last() as u32) - ('0' as u32)) as nat
    }
}

/// What `u64::from_str` accepts: an optional `+`, then one or more decimal
/// digits whose value fits in 64 bits.
pub open spec fn spec_parse_u64(s: Seq<char>) -> Option<u64> {
    let d = unsigned_digits(s);
    if d.len() > 0 && all_digits(d) && digits_value(d) <= u64::MAX {
        Some(digits_value(d) as u64)
    } else {
        None
    }
}

/// The text after an optional leading `+`.
pub open spec fn unsigned_digits(s: Seq<char>) -> Seq<char> {
    if s.len() > 0 && s[0] == '+' {
        s.skip(1)
    } else {
        s
    }
}

pub open spec fn all_digits(d: Seq<char>) -> bool {
    forall|i: int| 0 <= i < d.len() ==> #[trigger] is_digit(d[i])
}

proof fn lemma_digits_value_prefix(s: Seq<char>, k: int)
    requires
        0 <= k <= s.len(),
        forall|i: int| 0 <= i < s.len() ==> #[trigger] is_digit(s[i]),
    ensures
        digits_value(s.take(k)) <= digits_value(s),
    decreases s.len(),
{
    if k < s.len() {
        let p = s.drop_last();
        assert(p.take(k) =~= s.take(k));
        assert forall|i: int| 0 <= i < p.len() implies #[trigger] is_digit(p[i]) by {
            assert(is_digit(s[i]));
        }
        lemma_digits_value_prefix(p, k);
    } else {
        assert(s.take(k) =~= s);
    }
}

/// Reads the text of a boolean switch.
pub fn parse_bool(value: &str) -> (r: Result<bool, AlertValueError>)
    ensures
        match spec_parse_bool(value@) {
            Some(b) => r == Ok::<bool, AlertValueError>(b),
            None => r == Err::<bool, AlertValueError>(AlertValueError::ExpectedBoolean),
        },
{
    let t = lower_all(&trim_exec(&chars_of(value)));
    if equals_str(&t, "true") || equals_str(&t, "1") || equals_str(&t, "yes") || equals_str(
        &t,
        "on",
    ) {
        Ok(true)
    } else if equals_str(&t, "false") || equals_str(&t, "0") || equals_str(&t, "no") || equals_str(
        &t,
        "off",
    ) {
        Ok(false)
    } else {
        Err(AlertValueError::ExpectedBoolean)
    }
}

/// Reads an unsigned decimal number (see `spec_parse_u64`).
pub fn parse_u64(text: &Vec<char>) -> (r: Option<u64>)
    ensures
        r == spec_parse_u64(text@),
{
    let start: usize = if text.len() > 0 && text[0] == '+' {
        1
    } else {
        0
    };
    let ghost d = unsigned_digits(text@);
    assert(d =~= text@.skip(start as int));
    let n = text.len();
    if start == n {
        return None;
    }
    let mut value: u64 = 0;
    let mut i = start;
    while i < n
        invariant
            start <= i <= n,
            n == text.len(),
            d == text@.skip(start as int),
            d == unsigned_digits(text@),
            value == digits_value(d.take(i - start)),
            forall|j: int| 0 <= j < i - start ==> #[trigger] is_digit(d[j]),
        decreases n - i,
    {
        let c = text[i];
        assert(c == d[i - start]);
        if !('0' <= c && c <= '9') {
            assert(!is_digit(d[i - start]));
            assert(!all_digits(d));
            return None;
        }
        let digit: u64 = ((c as u32) - ('0' as u32)) as u64;
        assert(d.take(i + 1 - start).drop_last() =~= d.take(i - start));
        assert(digits_value(d.take(i + 1 - start)) == 10 * value + digit);
        let next = match value.checked_mul(10) {
            Some(t) => t.checked_add(digit),
            None => None,
        };
        match next {
            Some(v) => {
                value = v;
            },
            None => {
                proof {
                    assert(10 * value + digit > u64::MAX);
                    if all_digits(d) {
                        lemma_digits_value_prefix(d, i + 1 - start);
                        assert(digits_value(d) > u64::MAX);
                    }
                }
                return None;
            },
        }
        i = i + 1;
    }
    assert(d.take(n - start) =~= d);
    Some(value)
}

/// The decimal numeral of a number is a non-empty run of digits whose value
/// is that number.
proof fn lemma_decimal_digits(n: nat)
    ensures
        spec_decimal(n).len() > 0,
        all_digits(spec_decimal(n)),
        digits_value(spec_decimal(n)) == n,
    decreases n,
{
    let s = spec_decimal(n);
    if n < 10 {
        assert(s =~= seq![digit_char(n)]);
        assert(s.drop_last() =~= Seq::<char>::empty());
        assert((digit_char(n) as u32) == n + 48);
        assert(('0' as u32) == 48);
        assert(digits_value(s.drop_last()) == 0);
        assert(digits_value(s) == ((s.last() as u32) - ('0' as u32)) as nat);
    } else {
        lemma_decimal_digits(n / 10);
        let p = spec_decimal(n / 10);
        assert(s.drop_last() =~= p);
        assert(s.last() == digit_char(n % 10));
        assert((digit_char(n % 10) as u32) == n % 10 + 48);
        assert(('0' as u32) == 48);
        assert(digits_value(s) == 10 * digits_value(p) + ((s.last() as u32) - ('0' as u32)) as nat);
        assert(10 * (n / 10) + n % 10 == n);
        assert forall|i: int| 0 <= i < s.len() implies #[trigger] is_digit(s[i]) by {
            if i < p.len() {
                assert(s[i] == p[i]);
                assert(is_digit(p[i]));
            }
        }
    }
}

/// A cooldown written out as the editor shows it (`u64::to_string`) reads
/// back as the same number of seconds, also as the cooldown field's value.
pub proof fn lemma_shown_cooldown_reads_back(n: u64)
    ensures
        spec_parse_u64(spec_decimal(n as nat)) == Some(n),
        AlertField::CooldownSeconds.spec_parse_value(spec_decimal(n as nat))
            == Ok::<AlertValueView, AlertValueError>(AlertValueView::Seconds(n)),
{
    let s = spec_decimal(n as nat);
    lemma_decimal_digits(n as nat);
    assert(is_digit(s[0]));
    assert(unsigned_digits(s) == s);
    assert(is_digit(s.last()));
    assert(!is_whitespace(s[0]));
    assert(trim_start(s) == s);
    assert(!is_whitespace(s.last()));
    assert(trim_end(s) == s);
    assert(trim(s) == s);
}

/// The text shown for a boolean.
pub fn format_bool(value: bool) -> (r: String)
    ensures
        r@ == (if value {
            "true"@
        } else {
            "false"@
        }),
{
    if value {
        "true".to_owned()
    } else {
        "false".to_owned()
    }
}

impl AlertField {
    pub open spec fn spec_index(self) -> nat {
        match self {
            AlertField::Enabled => 0,
            AlertField::DesktopNotifications => 1,
            AlertField::SoundEffects => 2,
            AlertField::BetPlaced => 3,
            AlertField::BetSettled => 4,
            AlertField::RecorderFailures => 5,
            AlertField::ProviderErrors => 6,
            AlertField::MatchbookFailures => 7,
            AlertField::SnapshotStale => 8,
            AlertField::ExitRecommendations => 9,
            AlertField::DecisionQueue => 10,
            AlertField::TrackedBets => 11,
            AlertField::OpportunityDetected => 12,
            AlertField::OpportunityThresholdPct => 13,
            AlertField::WatchedMovement => 14,
            AlertField::WatchedMovementThresholdPct => 15,
            AlertField::OwlsErrors => 16,
            AlertField::CooldownSeconds => 17,
        }
    }

    pub open spec fn spec_from_index(i: nat) -> AlertField {
        if i == 0 {
            AlertField::Enabled
        } else if i == 1 {
            AlertField::DesktopNotifications
        } else if i == 2 {
            AlertField::SoundEffects
        } else if i == 3 {
            AlertField::BetPlaced
        } else if i == 4 {
            AlertField::BetSettled
        } else if i == 5 {
            AlertField::RecorderFailures
        } else if i == 6 {
            AlertField::ProviderErrors
        } else if i == 7 {
            AlertField::MatchbookFailures
        } else if i == 8 {
            AlertField::SnapshotStale
        } else if i == 9 {
            AlertField::ExitRecommendations
        } else if i == 10 {
            AlertField::DecisionQueue
        } else if i == 11 {
            AlertField::TrackedBets
        } else if i == 12 {
            AlertField::OpportunityDetected
        } else if i == 13 {
            AlertField::OpportunityThresholdPct
        } else if i == 14 {
            AlertField::WatchedMovement
        } else if i == 15 {
            AlertField::WatchedMovementThresholdPct
        } else if i == 16 {
            AlertField::OwlsErrors
        } else {
            AlertField::CooldownSeconds
        }
    }

    /// The field after this one in editor order, wrapping to the first.
    pub open spec fn spec_next(self) -> AlertField {
        AlertField::spec_from_index((self.spec_index() + 1) % 18)
    }

    /// The field before this one in editor order, wrapping to the last.
    pub open spec fn spec_previous(self) -> AlertField {
        if self.spec_index() == 0 {
            AlertField::spec_from_index(17)
        } else {
            AlertField::spec_from_index((self.spec_index() - 1) as nat)
        }
    }

    pub open spec fn spec_label(self) -> Seq<char> {
        match self {
            AlertField::Enabled => "Enabled"@,
            AlertField::DesktopNotifications => "Desktop Notify"@,
            AlertField::SoundEffects => "Sounds"@,
            AlertField::BetPlaced => "Bet Placed"@,
            AlertField::BetSettled => "Bet Settled"@,
            AlertField::RecorderFailures => "Recorder Failures"@,
            AlertField::ProviderErrors => "Provider Errors"@,
            AlertField::MatchbookFailures => "Matchbook Failures"@,
            AlertField::SnapshotStale => "Snapshot Stale"@,
            AlertField::ExitRecommendations => "Exit Recs"@,
            AlertField::DecisionQueue => "Decision Queue"@,
            AlertField::TrackedBets => "Tracked Bets"@,
            AlertField::OpportunityDetected => "Opportunity"@,
            AlertField::OpportunityThresholdPct => "Opportunity %"@,
            AlertField::WatchedMovement => "Watch Move"@,
            AlertField::WatchedMovementThresholdPct => "Watch Move %"@,
            AlertField::OwlsErrors => "Owls Errors"@,
            AlertField::CooldownSeconds => "Cooldown Seconds"@,
        }
    }

    pub open spec fn spec_summary(self) -> Seq<char> {
        match self {
            AlertField::Enabled => "Master switch for alert evaluation and delivery."@,
            AlertField::DesktopNotifications => "Send notifications to the desktop notification daemon."@,
            AlertField::SoundEffects => "Play different sounds for different alert types."@,
            AlertField::BetPlaced => "Alert when a confirmed bet placement succeeds."@,
            AlertField::BetSettled => "Alert when a tracked bet moves into a settled state."@,
            AlertField::RecorderFailures => "Alert when the recorder stops or errors."@,
            AlertField::ProviderErrors => "Alert when snapshot/provider requests fail."@,
            AlertField::MatchbookFailures => "Alert when Matchbook sync fails."@,
            AlertField::SnapshotStale => "Alert when the active snapshot turns stale."@,
            AlertField::ExitRecommendations => "Alert when new actionable exit recommendations appear."@,
            AlertField::DecisionQueue => "Alert when actionable decisions enter the queue."@,
            AlertField::TrackedBets => "Alert when tracked bets increase."@,
            AlertField::OpportunityDetected => "Alert when a live EV/opportunity metric crosses the configured threshold."@,
            AlertField::OpportunityThresholdPct => "Minimum EV/opportunity percentage required to alert."@,
            AlertField::WatchedMovement => "Alert when a watched result moves sharply between snapshots."@,
            AlertField::WatchedMovementThresholdPct => "Minimum watched-odds percentage move required to alert."@,
            AlertField::OwlsErrors => "Alert when Owls endpoint errors appear or increase."@,
            AlertField::CooldownSeconds => "Suppress duplicate alerts for the same rule inside this window."@,
        }
    }

    pub open spec fn spec_suggestions(self) -> Seq<Seq<char>> {
        match self {
            AlertField::OpportunityThresholdPct => seq!["1.0"@, "2.5"@, "3.0"@, "5.0"@, "8.0"@],
            AlertField::WatchedMovementThresholdPct => seq![
                "2.0"@,
                "5.0"@,
                "8.0"@,
                "10.0"@,
                "15.0"@,
            ],
            AlertField::CooldownSeconds => seq!["0"@, "15"@, "30"@, "60"@, "300"@],
            _ => seq!["true"@, "false"@],
        }
    }

    /// Whether the field holds a percentage threshold.
    pub open spec fn spec_is_threshold(self) -> bool {
        self == AlertField::OpportunityThresholdPct || self == AlertField::WatchedMovementThresholdPct
    }

    /// What reading `value` for this field gives: a switch reads a boolean
    /// word, the cooldown a whole number of seconds, a threshold keeps the
    /// trimmed text.
    pub open spec fn spec_parse_value(self, value: Seq<char>) -> Result<
        AlertValueView,
        AlertValueError,
    > {
        if self.spec_is_threshold() {
            Ok(AlertValueView::Percent(trim(value)))
        } else if self == AlertField::CooldownSeconds {
            match spec_parse_u64(trim(value)) {
                Some(n) => Ok(AlertValueView::Seconds(n)),
                None => Err(AlertValueError::CooldownNotWholeSeconds),
            }
        } else {
            match spec_parse_bool(value) {
                Some(b) => Ok(AlertValueView::Flag(b)),
                None => Err(AlertValueError::ExpectedBoolean),
            }
        }
    }

    /// Position of the field in editor order.
    pub fn index(self) -> (r: usize)
        ensures
            r == self.spec_index(),
            r < ALERT_FIELD_COUNT,
    {
        match self {
            AlertField::Enabled => 0,
            AlertField::DesktopNotifications => 1,
            AlertField::SoundEffects => 2,
            AlertField::BetPlaced => 3,
            AlertField::BetSettled => 4,
            AlertField::RecorderFailures => 5,
            AlertField::ProviderErrors => 6,
            AlertField::MatchbookFailures => 7,
            AlertField::SnapshotStale => 8,
            AlertField::ExitRecommendations => 9,
            AlertField::DecisionQueue => 10,
            AlertField::TrackedBets => 11,
            AlertField::OpportunityDetected => 12,
            AlertField::OpportunityThresholdPct => 13,
            AlertField::WatchedMovement => 14,
            AlertField::WatchedMovementThresholdPct => 15,
            AlertField::OwlsErrors => 16,
            AlertField::CooldownSeconds => 17,
        }
    }

    /// The field at position `i` in editor order.
    pub fn from_index(i: usize) -> (r: AlertField)
        requires
            i < ALERT_FIELD_COUNT,
        ensures
            r == AlertField::spec_from_index(i as nat),
            r.spec_index() == i,
    {
        if i == 0 {
            AlertField::Enabled
        } else if i == 1 {
            AlertField::DesktopNotifications
        } else if i == 2 {
            AlertField::SoundEffects
        } else if i == 3 {
            AlertField::BetPlaced
        } else if i == 4 {
            AlertField::BetSettled
        } else if i == 5 {
            AlertField::RecorderFailures
        } else if i == 6 {
            AlertField::ProviderErrors
        } else if i == 7 {
            AlertField::MatchbookFailures
        } else if i == 8 {
            AlertField::SnapshotStale
        } else if i == 9 {
            AlertField::ExitRecommendations
        } else if i == 10 {
            AlertField::DecisionQueue
        } else if i == 11 {
            AlertField::TrackedBets
        } else if i == 12 {
            AlertField::OpportunityDetected
        } else if i == 13 {
            AlertField::OpportunityThresholdPct
        } else if i == 14 {
            AlertField::WatchedMovement
        } else if i == 15 {
            AlertField::WatchedMovementThresholdPct
        } else if i == 16 {
            AlertField::OwlsErrors
        } else {
            AlertField::CooldownSeconds
        }
    }

    /// The next field in editor order, wrapping around.
    pub fn next(self) -> (r: AlertField)
        ensures
            r == self.spec_next(),
    {
        AlertField::from_index((self.index() + 1) % ALERT_FIELD_COUNT)
    }

    /// The previous field in editor order, wrapping around.
    pub fn previous(self) -> (r: AlertField)
        ensures
            r == self.spec_previous(),
    {
        let i = self.index();
        if i == 0 {
            AlertField::from_index(ALERT_FIELD_COUNT - 1)
        } else {
            AlertField::from_index(i - 1)
        }
    }

    /// The short label shown in the rules list.
    pub fn label(self) -> (r: &'static str)
        ensures
            r@ == self.spec_label(),
    {
        match self {
            AlertField::Enabled => "Enabled",
            AlertField::DesktopNotifications => "Desktop Notify",
            AlertField::SoundEffects => "Sounds",
            AlertField::BetPlaced => "Bet Placed",
            AlertField::BetSettled => "Bet Settled",
            AlertField::RecorderFailures => "Recorder Failures",
            AlertField::ProviderErrors => "Provider Errors",
            AlertField::MatchbookFailures => "Matchbook Failures",
            AlertField::SnapshotStale => "Snapshot Stale",
            AlertField::ExitRecommendations => "Exit Recs",
            AlertField::DecisionQueue => "Decision Queue",
            AlertField::TrackedBets => "Tracked Bets",
            AlertField::OpportunityDetected => "Opportunity",
            AlertField::OpportunityThresholdPct => "Opportunity %",
            AlertField::WatchedMovement => "Watch Move",
            AlertField::WatchedMovementThresholdPct => "Watch Move %",
            AlertField::OwlsErrors => "Owls Errors",
            AlertField::CooldownSeconds => "Cooldown Seconds",
        }
    }

    /// One sentence on what the field controls.
    pub fn summary(self) -> (r: &'static str)
        ensures
            r@ == self.spec_summary(),
    {
        match self {
            AlertField::Enabled => "Master switch for alert evaluation and delivery.",
            AlertField::DesktopNotifications => "Send notifications to the desktop notification daemon.",
            AlertField::SoundEffects => "Play different sounds for different alert types.",
            AlertField::BetPlaced => "Alert when a confirmed bet placement succeeds.",
            AlertField::BetSettled => "Alert when a tracked bet moves into a settled state.",
            AlertField::RecorderFailures => "Alert when the recorder stops or errors.",
            AlertField::ProviderErrors => "Alert when snapshot/provider requests fail.",
            AlertField::MatchbookFailures => "Alert when Matchbook sync fails.",
            AlertField::SnapshotStale => "Alert when the active snapshot turns stale.",
            AlertField::ExitRecommendations => "Alert when new actionable exit recommendations appear.",
            AlertField::DecisionQueue => "Alert when actionable decisions enter the queue.",
            AlertField::TrackedBets => "Alert when tracked bets increase.",
            AlertField::OpportunityDetected => "Alert when a live EV/opportunity metric crosses the configured threshold.",
            AlertField::OpportunityThresholdPct => "Minimum EV/opportunity percentage required to alert.",
            AlertField::WatchedMovement => "Alert when a watched result moves sharply between snapshots.",
            AlertField::WatchedMovementThresholdPct => "Minimum watched-odds percentage move required to alert.",
            AlertField::OwlsErrors => "Alert when Owls endpoint errors appear or increase.",
            AlertField::CooldownSeconds => "Suppress duplicate alerts for the same rule inside this window.",
        }
    }

    /// Preset values offered while editing the field.
    pub fn suggestions(self) -> (r: Vec<&'static str>)
        ensures
            r@.map_values(|s: &str| s@) == self.spec_suggestions(),
    {
        let r = match self {
            AlertField::OpportunityThresholdPct => vec!["1.0", "2.5", "3.0", "5.0", "8.0"],
            AlertField::WatchedMovementThresholdPct => vec!["2.0", "5.0", "8.0", "10.0", "15.0"],
            AlertField::CooldownSeconds => vec!["0", "15", "30", "60", "300"],
            _ => vec!["true", "false"],
        };
        assert(r@.map_values(|s: &str| s@) =~= self.spec_suggestions());
        r
    }

    /// The name of the threshold a threshold field sets, for messages.
    pub fn threshold_name(self) -> (r: Option<&'static str>)
        ensures
            r is Some <==> self.spec_is_threshold(),
            self == AlertField::OpportunityThresholdPct ==> (r matches Some(s) && s@
                == "Opportunity threshold"@),
            self == AlertField::WatchedMovementThresholdPct ==> (r matches Some(s) && s@
                == "Watch move threshold"@),
    {
        match self {
            AlertField::OpportunityThresholdPct => Some("Opportunity threshold"),
            AlertField::WatchedMovementThresholdPct => Some("Watch move threshold"),
            _ => None,
        }
    }

    /// Reads `value` as the new value of this field.
    pub fn parse_value(self, value: &str) -> (r: Result<AlertValue, AlertValueError>)
        ensures
            match r {
                Ok(v) => self.spec_parse_value(value@) == Ok::<AlertValueView, AlertValueError>(v@),
                Err(e) => self.spec_parse_value(value@) == Err::<AlertValueView, AlertValueError>(e),
            },
    {
        match self {
            AlertField::OpportunityThresholdPct | AlertField::WatchedMovementThresholdPct => {
                let t = trim_exec(&chars_of(value));
                Ok(AlertValue::Percent(crate::text::string_of(&t)))
            },
            AlertField::CooldownSeconds => {
                let t = trim_exec(&chars_of(value));
                match parse_u64(&t) {
                    Some(n) => Ok(AlertValue::Seconds(n)),
                    None => Err(AlertValueError::CooldownNotWholeSeconds),
                }
            },
            _ => match parse_bool(value) {
                Ok(b) => Ok(AlertValue::Flag(b)),
                Err(e) => Err(e),
            },
        }
    }
}

/// The alert settings that are switches, and the cooldown: every setting
/// but the two percentage thresholds.
#[derive(Debug, Clone, Copy, PartialEq, Eq, Structural)]
pub struct AlertSwitches {
    pub enabled: bool,
    pub desktop_notifications: bool,
    pub sound_effects: bool,
    pub bet_placed: bool,
    pub bet_settled: bool,
    pub recorder_failures: bool,
    pub provider_errors: bool,
    pub matchbook_failures: bool,
    pub snapshot_stale: bool,
    pub exit_recommendations: bool,
    pub decision_queue: bool,
    pub tracked_bets: bool,
    pub opportunity_detected: bool,
    pub watched_movement: bool,
    pub owls_errors: bool,
    pub cooldown_seconds: u64,
}

impl Default for AlertSwitches {
    /// Every switch on, and a cooldown of sixty seconds.
    fn default() -> (r: Self)
        ensures
            r == (AlertSwitches {
                enabled: true,
                desktop_notifications: true,
                sound_effects: true,
                bet_placed: true,
                bet_settled: true,
                recorder_failures: true,
                provider_errors: true,
                matchbook_failures: true,
                snapshot_stale: true,
                exit_recommendations: true,
                decision_queue: true,
                tracked_bets: true,
                opportunity_detected: true,
                watched_movement: true,
                owls_errors: true,
                cooldown_seconds: 60,
            }),
    {
        AlertSwitches {
            enabled: true,
            desktop_notifications: true,
            sound_effects: true,
            bet_placed: true,
            bet_settled: true,
            recorder_failures: true,
            provider_errors: true,
            matchbook_failures: true,
            snapshot_stale: true,
            exit_recommendations: true,
            decision_queue: true,
            tracked_bets: true,
            opportunity_detected: true,
            watched_movement: true,
            owls_errors: true,
            cooldown_seconds: 60,
        }
    }
}

impl AlertSwitches {
    /// The switch a field sets, or `None` for the thresholds and the cooldown.
    pub open spec fn spec_flag(self, field: AlertField) -> Option<bool> {
        match field {
            AlertField::Enabled => Some(self.enabled),
            AlertField::DesktopNotifications => Some(self.desktop_notifications),
            AlertField::SoundEffects => Some(self.sound_effects),
            AlertField::BetPlaced => Some(self.bet_placed),
            AlertField::BetSettled => Some(self.bet_settled),
            AlertField::RecorderFailures => Some(self.recorder_failures),
            AlertField::ProviderErrors => Some(self.provider_errors),
            AlertField::MatchbookFailures => Some(self.matchbook_failures),
            AlertField::SnapshotStale => Some(self.snapshot_stale),
            AlertField::ExitRecommendations => Some(self.exit_recommendations),
            AlertField::DecisionQueue => Some(self.decision_queue),
            AlertField::TrackedBets => Some(self.tracked_bets),
            AlertField::OpportunityDetected => Some(self.opportunity_detected),
            AlertField::WatchedMovement => Some(self.watched_movement),
            AlertField::OwlsErrors => Some(self.owls_errors),
            _ => None,
        }
    }

    /// The settings with the switch of `field` set to `value`; unchanged for
    /// a field that is no switch.
    pub open spec fn spec_with_flag(self, field: AlertField, value: bool) -> AlertSwitches {
        match field {
            AlertField::Enabled => AlertSwitches { enabled: value, ..self },
            AlertField::DesktopNotifications => AlertSwitches { desktop_notifications: value, ..self },
            AlertField::SoundEffects => AlertSwitches { sound_effects: value, ..self },
            AlertField::BetPlaced => AlertSwitches { bet_placed: value, ..self },
            AlertField::BetSettled => AlertSwitches { bet_settled: value, ..self },
            AlertField::RecorderFailures => AlertSwitches { recorder_failures: value, ..self },
            AlertField::ProviderErrors => AlertSwitches { provider_errors: value, ..self },
            AlertField::MatchbookFailures => AlertSwitches { matchbook_failures: value, ..self },
            AlertField::SnapshotStale => AlertSwitches { snapshot_stale: value, ..self },
            AlertField::ExitRecommendations => AlertSwitches { exit_recommendations: value, ..self },
            AlertField::DecisionQueue => AlertSwitches { decision_queue: value, ..self },
            AlertField::TrackedBets => AlertSwitches { tracked_bets: value, ..self },
            AlertField::OpportunityDetected => AlertSwitches { opportunity_detected: value, ..self },
            AlertField::WatchedMovement => AlertSwitches { watched_movement: value, ..self },
            AlertField::OwlsErrors => AlertSwitches { owls_errors: value, ..self },
            _ => self,
        }
    }

    /// Typed text applied to a field: a switch takes the boolean read, the
    /// cooldown the number read; a threshold leaves the settings as they are
    /// and hands back its trimmed text, still to be read as a number; text
    /// that cannot be read leaves them as they are and gives the error.
    pub open spec fn spec_apply(self, field: AlertField, value: Seq<char>) -> (
        AlertSwitches,
        Result<Option<Seq<char>>, AlertValueError>,
    ) {
        match field.spec_parse_value(value) {
            Ok(AlertValueView::Flag(b)) => (self.spec_with_flag(field, b), Ok(None)),
            Ok(AlertValueView::Seconds(n)) => (AlertSwitches { cooldown_seconds: n, ..self }, Ok(None)),
            Ok(AlertValueView::Percent(t)) => (self, Ok(Some(t))),
            Err(e) => (self, Err(e)),
        }
    }

    /// The value a field shows: "true" or "false" for a switch, the number of
    /// seconds for the cooldown, nothing for a threshold.
    pub open spec fn spec_display(self, field: AlertField) -> Option<Seq<char>> {
        match self.spec_flag(field) {
            Some(b) => Some(if b {
                "true"@
            } else {
                "false"@
            }),
            None => if field == AlertField::CooldownSeconds {
                Some(spec_decimal(self.cooldown_seconds as nat))
            } else {
                None
            },
        }
    }

    /// The switch a field sets.
    pub fn flag(&self, field: AlertField) -> (r: Option<bool>)
        ensures
            r == self.spec_flag(field),
    {
        match field {
            AlertField::Enabled => Some(self.enabled),
            AlertField::DesktopNotifications => Some(self.desktop_notifications),
            AlertField::SoundEffects => Some(self.sound_effects),
            AlertField::BetPlaced => Some(self.bet_placed),
            AlertField::BetSettled => Some(self.bet_settled),
            AlertField::RecorderFailures => Some(self.recorder_failures),
            AlertField::ProviderErrors => Some(self.provider_errors),
            AlertField::MatchbookFailures => Some(self.matchbook_failures),
            AlertField::SnapshotStale => Some(self.snapshot_stale),
            AlertField::ExitRecommendations => Some(self.exit_recommendations),
            AlertField::DecisionQueue => Some(self.decision_queue),
            AlertField::TrackedBets => Some(self.tracked_bets),
            AlertField::OpportunityDetected => Some(self.opportunity_detected),
            AlertField::WatchedMovement => Some(self.watched_movement),
            AlertField::OwlsErrors => Some(self.owls_errors),
            _ => None,
        }
    }

    fn with_flag(self, field: AlertField, value: bool) -> (r: AlertSwitches)
        ensures
            r == self.spec_with_flag(field, value),
    {
        match field {
            AlertField::Enabled => AlertSwitches { enabled: value, ..self },
            AlertField::DesktopNotifications => AlertSwitches { desktop_notifications: value, ..self },
            AlertField::SoundEffects => AlertSwitches { sound_effects: value, ..self },
            AlertField::BetPlaced => AlertSwitches { bet_placed: value, ..self },
            AlertField::BetSettled => AlertSwitches { bet_settled: value, ..self },
            AlertField::RecorderFailures => AlertSwitches { recorder_failures: value, ..self },
            AlertField::ProviderErrors => AlertSwitches { provider_errors: value, ..self },
            AlertField::MatchbookFailures => AlertSwitches { matchbook_failures: value, ..self },
            AlertField::SnapshotStale => AlertSwitches { snapshot_stale: value, ..self },
            AlertField::ExitRecommendations => AlertSwitches { exit_recommendations: value, ..self },
            AlertField::DecisionQueue => AlertSwitches { decision_queue: value, ..self },
            AlertField::TrackedBets => AlertSwitches { tracked_bets: value, ..self },
            AlertField::OpportunityDetected => AlertSwitches { opportunity_detected: value, ..self },
            AlertField::WatchedMovement => AlertSwitches { watched_movement: value, ..self },
            AlertField::OwlsErrors => AlertSwitches { owls_errors: value, ..self },
            _ => self,
        }
    }

    /// Sets the switch of `field`; a field that is no switch changes nothing.
    pub fn set_flag(&mut self, field: AlertField, value: bool)
        ensures
            *final(self) == old(self).spec_with_flag(field, value),
    {
        *self = self.with_flag(field, value);
    }

    /// Applies typed text to a field (see `spec_apply`).
    pub fn apply_value(&mut self, field: AlertField, value: &str) -> (r: Result<
        Option<String>,
        AlertValueError,
    >)
        ensures
            *final(self) == old(self).spec_apply(field, value@).0,
            match r {
                Ok(Some(t)) => old(self).spec_apply(field, value@).1 == Ok::<
                    Option<Seq<char>>,
                    AlertValueError,
                >(Some(t@)),
                Ok(None) => old(self).spec_apply(field, value@).1 == Ok::<
                    Option<Seq<char>>,
                    AlertValueError,
                >(None),
                Err(e) => old(self).spec_apply(field, value@).1 == Err::<
                    Option<Seq<char>>,
                    AlertValueError,
                >(e),
            },
    {
        match field.parse_value(value) {
            Ok(AlertValue::Flag(b)) => {
                self.set_flag(field, b);
                Ok(None)
            },
            Ok(AlertValue::Seconds(n)) => {
                self.cooldown_seconds = n;
                Ok(None)
            },
            Ok(AlertValue::Percent(t)) => Ok(Some(t)),
            Err(e) => Err(e),
        }
    }

    /// The value a field shows (see `spec_display`).
    pub fn display_value(&self, field: AlertField) -> (r: Option<String>)
        ensures
            match r {
                Some(t) => self.spec_display(field) == Some(t@),
                None => self.spec_display(field) is None,
            },
    {
        match self.flag(field) {
            Some(b) => Some(format_bool(b)),
            None => if field == AlertField::CooldownSeconds {
                Some(string_of(&decimal_chars(self.cooldown_seconds)))
            } else {
                None
            },
        }
    }
}

proof fn lemma_trim_start_shape(s: Seq<char>)
    ensures
        exists|k: int| 0 <= k <= s.len() && trim_start(s) == s.skip(k),
        trim_start(s).len() == 0 || !is_whitespace(trim_start(s)[0]),
    decreases s.len(),
{
    if s.len() > 0 && is_whitespace(s[0]) {
        lemma_trim_start_shape(s.skip(1));
        let k = choose|k: int| 0 <= k <= s.skip(1).len() && trim_start(s.skip(1)) == s.skip(1).skip(k);
        assert(s.skip(1).skip(k) =~= s.skip(k + 1));
    } else {
        assert(s.skip(0) =~= s);
    }
}

proof fn lemma_trim_end_shape(s: Seq<char>)
    ensures
        exists|k: int| 0 <= k <= s.len() && trim_end(s) == s.take(k),
        trim_end(s).len() == 0 || !is_whitespace(trim_end(s).last()),
    decreases s.len(),
{
    if s.len() > 0 && is_whitespace(s.last()) {
        lemma_trim_end_shape(s.drop_last());
        let k = choose|k: int| 0 <= k <= s.drop_last().len() && trim_end(s.drop_last()) == s.drop_last().take(k);
        assert(s.drop_last().take(k) =~= s.take(k));
    } else {
        assert(s.take(s.len() as int) =~= s);
    }
}

proof fn lemma_lower_keeps_whitespace(c: char)
    ensures
        is_whitespace(ascii_lower(c)) == is_whitespace(c),
        ascii_lower(ascii_lower(c)) == ascii_lower(c),
{
}

/// Trimming and lower-casing a text that is already trimmed and
/// lower-cased changes nothing.
proof fn lemma_lower_trim_idempotent(s: Seq<char>)
    ensures
        lower_chars(trim(lower_chars(trim(s)))) == lower_chars(trim(s)),
{
    let ts = trim_start(s);
    lemma_trim_start_shape(s);
    lemma_trim_end_shape(ts);
    let u = trim(s);
    let k = choose|k: int| 0 <= k <= ts.len() && trim_end(ts) == ts.take(k);
    assert(u == ts.take(k));
    if u.len() > 0 {
        assert(u[0] == ts[0]);
    }
    let t = lower_chars(u);
    assert(t.len() == u.len());
    if t.len() > 0 {
        lemma_lower_keeps_whitespace(u[0]);
        lemma_lower_keeps_whitespace(u.last());
        assert(t[0] == ascii_lower(u[0]));
        assert(t.last() == ascii_lower(u.last()));
        assert(!is_whitespace(t[0]));
        assert(!is_whitespace(t.last()));
    }
    assert(trim_start(t) == t);
    assert(trim_end(t) == t);
    assert forall|i: int| 0 <= i < t.len() implies lower_chars(t)[i] == t[i] by {
        lemma_lower_keeps_whitespace(u[i]);
    }
    assert(lower_chars(t) =~= t);
}

/// The boolean words: "true", "1", "yes" and "on" read as on; "false", "0",
/// "no" and "off" read as off; and upper case and surrounding whitespace
/// do not change what a text reads as.
pub proof fn lemma_boolean_words(s: Seq<char>)
    ensures
        spec_parse_bool("true"@) == Some(true),
        spec_parse_bool("1"@) == Some(true),
        spec_parse_bool("yes"@) == Some(true),
        spec_parse_bool("on"@) == Some(true),
        spec_parse_bool("false"@) == Some(false),
        spec_parse_bool("0"@) == Some(false),
        spec_parse_bool("no"@) == Some(false),
        spec_parse_bool("off"@) == Some(false),
        spec_parse_bool(s) == spec_parse_bool(lower_chars(trim(s))),
{
    reveal_strlit("true");
    reveal_strlit("1");
    reveal_strlit("yes");
    reveal_strlit("on");
    reveal_strlit("false");
    reveal_strlit("0");
    reveal_strlit("no");
    reveal_strlit("off");
    assert(trim_start("true"@) == "true"@);
    assert(trim_end("true"@) == "true"@);
    assert(lower_chars("true"@) =~= "true"@);
    assert(trim_start("1"@) == "1"@);
    assert(trim_end("1"@) == "1"@);
    assert(lower_chars("1"@) =~= "1"@);
    assert(trim_start("yes"@) == "yes"@);
    assert(trim_end("yes"@) == "yes"@);
    assert(lower_chars("yes"@) =~= "yes"@);
    assert(trim_start("on"@) == "on"@);
    assert(trim_end("on"@) == "on"@);
    assert(lower_chars("on"@) =~= "on"@);
    assert(trim_start("false"@) == "false"@);
    assert(trim_end("false"@) == "false"@);
    assert(lower_chars("false"@) =~= "false"@);
    assert(trim_start("0"@) == "0"@);
    assert(trim_end("0"@) == "0"@);
    assert(lower_chars("0"@) =~= "0"@);
    assert(trim_start("no"@) == "no"@);
    assert(trim_end("no"@) == "no"@);
    assert(lower_chars("no"@) =~= "no"@);
    assert(trim_start("off"@) == "off"@);
    assert(trim_end("off"@) == "off"@);
    assert(lower_chars("off"@) =~= "off"@);
    lemma_lower_trim_idempotent(s);
}

proof fn lemma_bool_words()
    ensures
        spec_parse_bool("true"@) == Some(true),
        spec_parse_bool("false"@) == Some(false),
{
    reveal_strlit("true");
    reveal_strlit("false");
    reveal_strlit("1");
    reveal_strlit("yes");
    reveal_strlit("on");
    reveal_strlit("0");
    reveal_strlit("no");
    reveal_strlit("off");
    let tt = "true"@;
    let ff = "false"@;
    assert(trim_start(tt) == tt);
    assert(trim_end(tt) == tt);
    assert(lower_chars(tt) =~= tt);
    assert(trim_start(ff) == ff);
    assert(trim_end(ff) == ff);
    assert(lower_chars(ff) =~= ff);
}

proof fn lemma_with_own_flag(sw: AlertSwitches, field: AlertField, b: bool)
    requires
        sw.spec_flag(field) == Some(b),
    ensures
        sw.spec_with_flag(field, b) == sw,
{
}

/// Applying to a field the value it shows leaves the settings as they are.
pub proof fn lemma_shown_value_reapplies(sw: AlertSwitches, field: AlertField)
    ensures
        sw.spec_display(field) matches Some(t) ==> sw.spec_apply(field, t).0 == sw,
{
    match sw.spec_flag(field) {
        Some(b) => {
            lemma_bool_words();
            lemma_with_own_flag(sw, field, b);
            assert(!field.spec_is_threshold());
            assert(field != AlertField::CooldownSeconds);
        },
        None => {
            lemma_shown_cooldown_reads_back(sw.cooldown_seconds);
        },
    }
}

/// Which alert field the editor has selected, and the edit in progress.
#[derive(Debug, Clone)]
pub struct AlertEditorState {
    selected_field: AlertField,
    pub editing: bool,
    pub buffer: String,
    pub replace_on_input: bool,
}

/// The abstract state of an `AlertEditorState`.
pub struct AlertEditorView {
    pub selected_field: AlertField,
    pub editing: bool,
    pub buffer: Seq<char>,
    pub replace_on_input: bool,
}

impl View for AlertEditorState {
    type V = AlertEditorView;

    closed spec fn view(&self) -> AlertEditorView {
        AlertEditorView {
            selected_field: self.selected_field,
            editing: self.editing,
            buffer: self.buffer@,
            replace_on_input: self.replace_on_input,
        }
    }
}

impl AlertEditorState {
    pub fn selected_field(&self) -> (r: AlertField)
        ensures
            r == self@.selected_field,
    {
        self.selected_field
    }

    /// Selects the next field, wrapping from the last to the first.
    pub fn select_next_field(&mut self)
        ensures
            final(self)@ == (AlertEditorView {
                selected_field: old(self)@.selected_field.spec_next(),
                ..old(self)@
            }),
    {
        self.selected_field = self.selected_field.next();
    }

    /// Selects the previous field, wrapping from the first to the last.
    pub fn select_previous_field(&mut self)
        ensures
            final(self)@ == (AlertEditorView {
                selected_field: old(self)@.selected_field.spec_previous(),
                ..old(self)@
            }),
    {
        self.selected_field = self.selected_field.previous();
    }
}

impl Default for AlertEditorState {
    fn default() -> (r: Self)
        ensures
            r@ == (AlertEditorView {
                selected_field: AlertField::Enabled,
                editing: false,
                buffer: Seq::<char>::empty(),
                replace_on_input: false,
            }),
    {
        AlertEditorState {
            selected_field: AlertField::Enabled,
            editing: false,
            buffer: String::new(),
            replace_on_input: false,
        }
    }
}

/// How serious a notification is.
#[derive(Debug, Clone, Copy, PartialEq, Eq, Structural)]
pub enum NotificationLevel {
    Info,
    Warning,
    Critical,
}

impl NotificationLevel {
    pub open spec fn spec_label(self) -> Seq<char> {
        match self {
            NotificationLevel::Info => "info"@,
            NotificationLevel::Warning => "warn"@,
            NotificationLevel::Critical => "crit"@,
        }
    }

    pub open spec fn spec_urgency(self) -> Seq<char> {
        match self {
            NotificationLevel::Info => "normal"@,
            NotificationLevel::Warning => "normal"@,
            NotificationLevel::Critical => "critical"@,
        }
    }

    /// The short tag shown beside a notification.
    pub fn label(self) -> (r: &'static str)
        ensures
            r@ == self.spec_label(),
    {
        match self {
            NotificationLevel::Info => "info",
            NotificationLevel::Warning => "warn",
            NotificationLevel::Critical => "crit",
        }
    }

    /// The urgency handed to the desktop notifier.
    pub fn notify_send_urgency(self) -> (r: &'static str)
        ensures
            r@ == self.spec_urgency(),
    {
        match self {
            NotificationLevel::Info => "normal",
            NotificationLevel::Warning => "normal",
            NotificationLevel::Critical => "critical",
        }
    }
}

/// One notification raised by an alert rule.
#[derive(Debug, Clone, PartialEq, Eq)]
pub struct NotificationEntry {
    pub created_at: String,
    pub rule_key: String,
    pub level: NotificationLevel,
    pub title: String,
    pub detail: String,
    pub unread: bool,
}

// ---------------------------------------------------------------------------
// Laws
// ---------------------------------------------------------------------------

/// Field positions and fields correspond one to one.
pub proof fn lemma_field_index_round_trip(f: AlertField, i: nat)
    ensures
        AlertField::spec_from_index(f.spec_index()) == f,
        f.spec_index() < 18,
        i < 18 ==> AlertField::spec_from_index(i).spec_index() == i,
{
}

/// Moving to the next field and back, or back and then on, returns to the
/// same field.
pub proof fn lemma_next_previous_inverse(f: AlertField)
    ensures
        f.spec_next().spec_previous() == f,
        f.spec_previous().spec_next() == f,
{
}

/// The field reached after `n` steps forward.
pub open spec fn advance(f: AlertField, n: nat) -> AlertField
    decreases n,
{
    if n == 0 {
        f
    } else {
        advance(f, (n - 1) as nat).spec_next()
    }
}

/// Moving forward `n` fields lands `n` positions further on, counted round
/// the 18 fields.
pub proof fn lemma_advance_index(f: AlertField, n: nat)
    ensures
        advance(f, n).spec_index() == (f.spec_index() + n) % 18,
    decreases n,
{
    if n > 0 {
        lemma_advance_index(f, (n - 1) as nat);
        let g = advance(f, (n - 1) as nat);
        assert(g.spec_next().spec_index() == (g.spec_index() + 1) % 18);
    }
}

/// Moving forward through all 18 fields returns to the start.
pub proof fn lemma_advance_full_cycle(f: AlertField)
    ensures
        advance(f, 18) == f,
{
    lemma_advance_index(f, 18);
    let g = advance(f, 18);
    assert(AlertField::spec_from_index(g.spec_index()) == g);
    assert(AlertField::spec_from_index(f.spec_index()) == f);
}

} // verus!
