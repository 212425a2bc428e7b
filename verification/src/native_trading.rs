//! The decisions taken while a trade is placed on Smarkets through the
//! browser: whether it may start, which page it opens, whether the bet slip
//! must still be filled in, and how the outcome is labelled.

use vstd::prelude::*;
use crate::text::{chars_of, contains_exec, contains_text, occurs_at_exec, starts_with, trim, trim_exec};

verus! {

/// The outcome of a trade placed in the browser.
#[derive(Debug, Clone)]
pub struct NativeTradingResult {
    pub detail: String,
    pub action_status: String,
}

/// Why a trade could not be carried out.
#[derive(Debug, Clone, Copy, PartialEq, Eq, Structural)]
pub enum TradingError {
    MissingSession,
    MissingTargetUrl,
    NotSmarketsUrl,
    SlipNotPopulated,
}

impl TradingError {
    pub open spec fn spec_message(self) -> Seq<char> {
        match self {
            TradingError::MissingSession => "Trading action execution requires agent_browser_session in recorder config."@,
            TradingError::MissingTargetUrl => "Trading action target URL is missing."@,
            TradingError::NotSmarketsUrl => "Trading action target URL must point to smarkets.com."@,
            TradingError::SlipNotPopulated => "Trading action deep link did not expose a populated Smarkets bet slip."@,
        }
    }

    /// The message shown to the operator.
    pub fn message(self) -> (r: &'static str)
        ensures
            r@ == self.spec_message(),
    {
        match self {
            TradingError::MissingSession => "Trading action execution requires agent_browser_session in recorder config.",
            TradingError::MissingTargetUrl => "Trading action target URL is missing.",
            TradingError::NotSmarketsUrl => "Trading action target URL must point to smarkets.com.",
            TradingError::SlipNotPopulated => "Trading action deep link did not expose a populated Smarkets bet slip.",
        }
    }
}

/// A browser session is configured: a session name that is not blank.
pub fn session_configured(session: Option<&str>) -> (r: bool)
    ensures
        r == (session matches Some(s) && trim(s@).len() > 0),
{
    match session {
        Some(s) => trim_exec(&chars_of(s)).len() > 0,
        None => false,
    }
}

pub open spec fn is_smarkets_url(url: Seq<char>) -> bool {
    starts_with(url, "https://smarkets.com"@) || starts_with(url, "https://www.smarkets.com"@)
}

/// Refuses a page that is not on smarkets.com.
pub fn assert_smarkets_target_url(url: &str) -> (r: Result<(), TradingError>)
    ensures
        r == (if is_smarkets_url(url@) {
            Ok::<(), TradingError>(())
        } else {
            Err(TradingError::NotSmarketsUrl)
        }),
{
    let u = chars_of(url);
    if occurs_at_exec(&u, &chars_of("https://smarkets.com"), 0) || occurs_at_exec(
        &u,
        &chars_of("https://www.smarkets.com"),
        0,
    ) {
        Ok(())
    } else {
        Err(TradingError::NotSmarketsUrl)
    }
}

/// The page a trade opens: the deep link if there is one, otherwise the
/// event page; it must be on smarkets.com.
pub open spec fn spec_trade_target_url(deep_link_url: Option<Seq<char>>, event_url: Option<Seq<char>>) -> Result<
    Seq<char>,
    TradingError,
> {
    let target = match deep_link_url {
        Some(u) => Some(u),
        None => event_url,
    };
    match target {
        None => Err(TradingError::MissingTargetUrl),
        Some(u) => if is_smarkets_url(u) {
            Ok(u)
        } else {
            Err(TradingError::NotSmarketsUrl)
        },
    }
}

pub fn trade_target_url(deep_link_url: Option<&str>, event_url: Option<&str>) -> (r: Result<
    String,
    TradingError,
>)
    ensures
        match r {
            Ok(u) => spec_trade_target_url(
                match deep_link_url {
                    Some(s) => Some(s@),
                    None => None,
                },
                match event_url {
                    Some(s) => Some(s@),
                    None => None,
                },
            ) == Ok::<Seq<char>, TradingError>(u@),
            Err(e) => spec_trade_target_url(
                match deep_link_url {
                    Some(s) => Some(s@),
                    None => None,
                },
                match event_url {
                    Some(s) => Some(s@),
                    None => None,
                },
            ) == Err::<Seq<char>, TradingError>(e),
        },
{
    let target = match deep_link_url {
        Some(u) => u,
        None => match event_url {
            Some(u) => u,
            None => return Err(TradingError::MissingTargetUrl),
        },
    };
    match assert_smarkets_target_url(target) {
        Ok(()) => Ok(target.to_owned()),
        Err(e) => Err(e),
    }
}

/// Whether the bet slip must be filled in by selecting the contract: not
/// when the opened page already shows it; when it does not, only an event
/// page (not a bare deep link) lets the contract be selected.
pub fn slip_needs_population(slip_visible: bool, has_event_url: bool) -> (r: Result<
    bool,
    TradingError,
>)
    ensures
        slip_visible ==> r == Ok::<bool, TradingError>(false),
        !slip_visible && has_event_url ==> r == Ok::<bool, TradingError>(true),
        !slip_visible && !has_event_url ==> r == Err::<bool, TradingError>(
            TradingError::SlipNotPopulated,
        ),
{
    if slip_visible {
        Ok(false)
    } else if !has_event_url {
        Err(TradingError::SlipNotPopulated)
    } else {
        Ok(true)
    }
}

pub open spec fn spec_action_status(review: bool, fill_or_kill: bool) -> Seq<char> {
    if review {
        "review_ready"@
    } else if fill_or_kill {
        "submitted_fill_or_kill"@
    } else {
        "submitted"@
    }
}

/// The status recorded for a trade: loaded for review, or submitted (as
/// fill-or-kill when so placed).
pub fn action_status(review: bool, fill_or_kill: bool) -> (r: &'static str)
    ensures
        r@ == spec_action_status(review, fill_or_kill),
{
    if review {
        "review_ready"
    } else if fill_or_kill {
        "submitted_fill_or_kill"
    } else {
        "submitted"
    }
}


// ---------------------------------------------------------------------------
// Checking the filled-in bet slip
// ---------------------------------------------------------------------------

/// What Unicode lower-casing (`str::to_lowercase`) makes of a text.
pub uninterp spec fn unicode_lowercase(s: Seq<char>) -> Seq<char>;

/// Calls `str::to_lowercase`, which maps every character to its Unicode
/// lower case. The contract only says that the result is
/// `unicode_lowercase` of the text, the same for the same text; the
/// mapping itself is left unstated.
#[verifier::external_body]
fn to_lowercase(s: &str) -> (r: String)
    ensures
        r@ == unicode_lowercase(s@),
{
    s.to_lowercase()
}

/// Which part of the bet slip shown by the page disagrees with the trade.
#[derive(Debug, Clone, Copy, PartialEq, Eq, Structural)]
pub enum SlipMismatch {
    /// The selected contract does not name the selection.
    Contract,
    /// The side shown is not the side of the trade.
    Side,
}

pub open spec fn spec_slip_text_mismatch(
    contract_text: Seq<char>,
    side_text: Seq<char>,
    selection_name: Seq<char>,
    side_label: Seq<char>,
) -> Option<SlipMismatch> {
    if !contains_text(contract_text, selection_name) {
        Some(SlipMismatch::Contract)
    } else if !contains_text(unicode_lowercase(side_text), unicode_lowercase(side_label)) {
        Some(SlipMismatch::Side)
    } else {
        None
    }
}

/// Compares the contract and side shown on the bet slip with the trade:
/// the contract text must contain the selection name, and the side text
/// must contain the side label, both lower-cased.
pub fn slip_text_mismatch(
    contract_text: &str,
    side_text: &str,
    selection_name: &str,
    side_label: &str,
) -> (r: Option<SlipMismatch>)
    ensures
        r == spec_slip_text_mismatch(contract_text@, side_text@, selection_name@, side_label@),
{
    if !contains_exec(&chars_of(contract_text), &chars_of(selection_name)) {
        return Some(SlipMismatch::Contract);
    }
    let side = to_lowercase(side_text);
    let label = to_lowercase(side_label);
    if !contains_exec(&chars_of(side.as_str()), &chars_of(label.as_str())) {
        return Some(SlipMismatch::Side);
    }
    None
}

// ---------------------------------------------------------------------------
// The steps of a trade
// ---------------------------------------------------------------------------

/// Where a trade stands.
#[derive(Debug, Clone, Copy, PartialEq, Eq, Structural)]
pub enum TradeStage {
    /// The request marker is being written.
    RecordingRequest,
    /// The target page is being opened.
    OpeningPage,
    /// The page is being asked whether it shows a bet slip.
    CheckingSlip,
    /// The contract is being selected so that the bet slip fills in.
    PopulatingSlip,
    /// The stake is being typed into the bet slip.
    SettingStake,
    /// The bet slip is being compared with the trade.
    VerifyingSlip,
    /// The bet is being placed.
    PlacingBet,
    /// The response marker of a trade that went through is being written.
    RecordingOutcome,
    /// The response marker of a trade that failed is being written.
    RecordingFailure,
    /// Nothing is left to do.
    Finished,
}

/// A trade under way.
#[derive(Debug)]
pub struct TradeFlow {
    pub stage: TradeStage,
    /// The trade only loads the bet slip for review and places nothing.
    pub review: bool,
    /// The trade is placed fill-or-kill.
    pub fill_or_kill: bool,
    pub deep_link_url: Option<String>,
    pub event_url: Option<String>,
    /// The message of the failure whose marker is being written.
    pub failure: String,
}

/// What the program does next for a trade.
#[derive(Debug, PartialEq)]
pub enum TradeAction {
    /// Write the request marker.
    RecordRequest,
    /// Open this page and give it time to load.
    OpenPage(String),
    /// Ask the page whether it shows a filled bet slip.
    CheckSlip,
    /// Select the contract on the event page so that the bet slip fills in.
    PopulateSlip,
    /// Type the stake into the bet slip.
    SetStake,
    /// Read the bet slip back and compare it with the trade.
    VerifySlip,
    /// Press "Place bet" and give the page time to answer.
    PlaceBet,
    /// Write the response marker of a trade that went through, with this status.
    RecordOutcome(&'static str),
    /// Write the response marker of a failed trade, with this message.
    RecordFailure(String),
    /// The trade went through, with this status.
    Succeed(&'static str),
    /// The trade failed, with this message.
    Fail(String),
}

/// What became of the last action.
#[derive(Debug)]
pub enum TradeEvent {
    /// The action was carried out.
    Succeeded,
    /// The page answered whether it shows a filled bet slip.
    SlipShown(bool),
    /// The action failed, with this message.
    Failed(String),
}

pub struct TradeFlowView {
    pub stage: TradeStage,
    pub review: bool,
    pub fill_or_kill: bool,
    pub deep_link_url: Option<Seq<char>>,
    pub event_url: Option<Seq<char>>,
    pub failure: Seq<char>,
}

pub enum TradeActionView {
    RecordRequest,
    OpenPage(Seq<char>),
    CheckSlip,
    PopulateSlip,
    SetStake,
    VerifySlip,
    PlaceBet,
    RecordOutcome(Seq<char>),
    RecordFailure(Seq<char>),
    Succeed(Seq<char>),
    Fail(Seq<char>),
}

pub enum TradeEventView {
    Succeeded,
    SlipShown(bool),
    Failed(Seq<char>),
}

pub open spec fn opt_text(o: Option<String>) -> Option<Seq<char>> {
    match o {
        Some(s) => Some(s@),
        None => None,
    }
}

impl View for TradeFlow {
    type V = TradeFlowView;

    open spec fn view(&self) -> TradeFlowView {
        TradeFlowView {
            stage: self.stage,
            review: self.review,
            fill_or_kill: self.fill_or_kill,
            deep_link_url: opt_text(self.deep_link_url),
            event_url: opt_text(self.event_url),
            failure: self.failure@,
        }
    }
}

impl View for TradeAction {
    type V = TradeActionView;

    open spec fn view(&self) -> TradeActionView {
        match self {
            TradeAction::RecordRequest => TradeActionView::RecordRequest,
            TradeAction::OpenPage(u) => TradeActionView::OpenPage(u@),
            TradeAction::CheckSlip => TradeActionView::CheckSlip,
            TradeAction::PopulateSlip => TradeActionView::PopulateSlip,
            TradeAction::SetStake => TradeActionView::SetStake,
            TradeAction::VerifySlip => TradeActionView::VerifySlip,
            TradeAction::PlaceBet => TradeActionView::PlaceBet,
            TradeAction::RecordOutcome(s) => TradeActionView::RecordOutcome(s@),
            TradeAction::RecordFailure(m) => TradeActionView::RecordFailure(m@),
            TradeAction::Succeed(s) => TradeActionView::Succeed(s@),
            TradeAction::Fail(m) => TradeActionView::Fail(m@),
        }
    }
}

impl View for TradeEvent {
    type V = TradeEventView;

    open spec fn view(&self) -> TradeEventView {
        match self {
            TradeEvent::Succeeded => TradeEventView::Succeeded,
            TradeEvent::SlipShown(b) => TradeEventView::SlipShown(*b),
            TradeEvent::Failed(m) => TradeEventView::Failed(m@),
        }
    }
}

/// The event answers the action of the stage: the slip check answers
/// whether the slip is shown (or fails), every other action succeeds or
/// fails; a finished trade takes no event.
pub open spec fn event_fits(stage: TradeStage, event: TradeEventView) -> bool {
    match stage {
        TradeStage::Finished => false,
        TradeStage::CheckingSlip => !(event is Succeeded),
        _ => !(event is SlipShown),
    }
}

/// How a trade begins: without a browser session it fails at once;
/// otherwise the request marker is written first.
pub open spec fn spec_start(
    session: Option<Seq<char>>,
    review: bool,
    fill_or_kill: bool,
    deep_link_url: Option<Seq<char>>,
    event_url: Option<Seq<char>>,
) -> (TradeFlowView, TradeActionView) {
    let configured = session matches Some(s) && trim(s).len() > 0;
    let flow = TradeFlowView {
        stage: if configured { TradeStage::RecordingRequest } else { TradeStage::Finished },
        review,
        fill_or_kill,
        deep_link_url,
        event_url,
        failure: Seq::empty(),
    };
    if configured {
        (flow, TradeActionView::RecordRequest)
    } else {
        (flow, TradeActionView::Fail(TradingError::MissingSession.spec_message()))
    }
}

/// The stage a failure leads to: a failure once the request is recorded
/// is itself recorded before the trade fails.
pub open spec fn fail_with(f: TradeFlowView, message: Seq<char>) -> (TradeFlowView, TradeActionView) {
    (
        TradeFlowView { stage: TradeStage::RecordingFailure, failure: message, ..f },
        TradeActionView::RecordFailure(message),
    )
}

pub open spec fn at(f: TradeFlowView, stage: TradeStage) -> TradeFlowView {
    TradeFlowView { stage, ..f }
}

/// One step of a trade: given where it stands and what became of the last
/// action, where it stands next and what to do.
pub open spec fn spec_step(f: TradeFlowView, e: TradeEventView) -> (TradeFlowView, TradeActionView) {
    match f.stage {
        TradeStage::RecordingRequest => match e {
            TradeEventView::Failed(m) => (at(f, TradeStage::Finished), TradeActionView::Fail(m)),
            _ => match spec_trade_target_url(f.deep_link_url, f.event_url) {
                Ok(u) => (at(f, TradeStage::OpeningPage), TradeActionView::OpenPage(u)),
                Err(err) => fail_with(f, err.spec_message()),
            },
        },
        TradeStage::OpeningPage => match e {
            TradeEventView::Failed(m) => fail_with(f, m),
            _ => (at(f, TradeStage::CheckingSlip), TradeActionView::CheckSlip),
        },
        TradeStage::CheckingSlip => match e {
            TradeEventView::Failed(m) => fail_with(f, m),
            TradeEventView::SlipShown(true) => (at(f, TradeStage::SettingStake), TradeActionView::SetStake),
            _ => if f.event_url is Some {
                (at(f, TradeStage::PopulatingSlip), TradeActionView::PopulateSlip)
            } else {
                fail_with(f, TradingError::SlipNotPopulated.spec_message())
            },
        },
        TradeStage::PopulatingSlip => match e {
            TradeEventView::Failed(m) => fail_with(f, m),
            _ => (at(f, TradeStage::SettingStake), TradeActionView::SetStake),
        },
        TradeStage::SettingStake => match e {
            TradeEventView::Failed(m) => fail_with(f, m),
            _ => (at(f, TradeStage::VerifyingSlip), TradeActionView::VerifySlip),
        },
        TradeStage::VerifyingSlip => match e {
            TradeEventView::Failed(m) => fail_with(f, m),
            _ => if f.review {
                (
                    at(f, TradeStage::RecordingOutcome),
                    TradeActionView::RecordOutcome(spec_action_status(true, f.fill_or_kill)),
                )
            } else {
                (at(f, TradeStage::PlacingBet), TradeActionView::PlaceBet)
            },
        },
        TradeStage::PlacingBet => match e {
            TradeEventView::Failed(m) => fail_with(f, m),
            _ => (
                at(f, TradeStage::RecordingOutcome),
                TradeActionView::RecordOutcome(spec_action_status(false, f.fill_or_kill)),
            ),
        },
        TradeStage::RecordingOutcome => match e {
            TradeEventView::Failed(m) => (at(f, TradeStage::Finished), TradeActionView::Fail(m)),
            _ => (
                at(f, TradeStage::Finished),
                TradeActionView::Succeed(spec_action_status(f.review, f.fill_or_kill)),
            ),
        },
        TradeStage::RecordingFailure => (at(f, TradeStage::Finished), TradeActionView::Fail(f.failure)),
        TradeStage::Finished => (f, TradeActionView::Fail(f.failure)),
    }
}

fn opt_clone(o: &Option<String>) -> (r: Option<String>)
    ensures
        opt_text(r) == opt_text(*o),
{
    match o {
        Some(s) => Some(s.clone()),
        None => None,
    }
}

fn opt_str(o: &Option<String>) -> (r: Option<&str>)
    ensures
        match r {
            Some(s) => opt_text(*o) == Some(s@),
            None => o is None,
        },
{
    match o {
        Some(s) => Some(s.as_str()),
        None => None,
    }
}

impl TradeFlow {
    /// Begins a trade on Smarkets.
    pub fn start(
        session: Option<&str>,
        review: bool,
        fill_or_kill: bool,
        deep_link_url: Option<String>,
        event_url: Option<String>,
    ) -> (r: (TradeFlow, TradeAction))
        ensures
            (r.0@, r.1@) == spec_start(
                match session {
                    Some(s) => Some(s@),
                    None => None,
                },
                review,
                fill_or_kill,
                opt_text(deep_link_url),
                opt_text(event_url),
            ),
    {
        let configured = session_configured(session);
        let flow = TradeFlow {
            stage: if configured { TradeStage::RecordingRequest } else { TradeStage::Finished },
            review,
            fill_or_kill,
            deep_link_url,
            event_url,
            failure: String::new(),
        };
        if configured {
            (flow, TradeAction::RecordRequest)
        } else {
            (flow, TradeAction::Fail(TradingError::MissingSession.message().to_owned()))
        }
    }

    fn moved_to(self, stage: TradeStage) -> (r: TradeFlow)
        ensures
            r@ == at(self@, stage),
    {
        TradeFlow { stage, ..self }
    }

    fn failing(self, message: String) -> (r: (TradeFlow, TradeAction))
        ensures
            (r.0@, r.1@) == fail_with(self@, message@),
    {
        let action = TradeAction::RecordFailure(message.clone());
        (TradeFlow { stage: TradeStage::RecordingFailure, failure: message, ..self }, action)
    }

    /// Takes the trade one step further.
    pub fn step(self, event: TradeEvent) -> (r: (TradeFlow, TradeAction))
        requires
            event_fits(self.stage, event@),
        ensures
            (r.0@, r.1@) == spec_step(self@, event@),
    {
        match self.stage {
            TradeStage::RecordingRequest => match event {
                TradeEvent::Failed(m) => (self.moved_to(TradeStage::Finished), TradeAction::Fail(m)),
                _ => {
                    let target = trade_target_url(
                        opt_str(&self.deep_link_url),
                        opt_str(&self.event_url),
                    );
                    match target {
                        Ok(u) => (self.moved_to(TradeStage::OpeningPage), TradeAction::OpenPage(u)),
                        Err(err) => self.failing(err.message().to_owned()),
                    }
                },
            },
            TradeStage::OpeningPage => match event {
                TradeEvent::Failed(m) => self.failing(m),
                _ => (self.moved_to(TradeStage::CheckingSlip), TradeAction::CheckSlip),
            },
            TradeStage::CheckingSlip => match event {
                TradeEvent::Failed(m) => self.failing(m),
                TradeEvent::SlipShown(shown) => match slip_needs_population(
                    shown,
                    self.event_url.is_some(),
                ) {
                    Ok(false) => (self.moved_to(TradeStage::SettingStake), TradeAction::SetStake),
                    Ok(true) => (self.moved_to(TradeStage::PopulatingSlip), TradeAction::PopulateSlip),
                    Err(err) => self.failing(err.message().to_owned()),
                },
                TradeEvent::Succeeded => (self.moved_to(TradeStage::SettingStake), TradeAction::SetStake),
            },
            TradeStage::PopulatingSlip => match event {
                TradeEvent::Failed(m) => self.failing(m),
                _ => (self.moved_to(TradeStage::SettingStake), TradeAction::SetStake),
            },
            TradeStage::SettingStake => match event {
                TradeEvent::Failed(m) => self.failing(m),
                _ => (self.moved_to(TradeStage::VerifyingSlip), TradeAction::VerifySlip),
            },
            TradeStage::VerifyingSlip => match event {
                TradeEvent::Failed(m) => self.failing(m),
                _ => if self.review {
                    let status = action_status(true, self.fill_or_kill);
                    (self.moved_to(TradeStage::RecordingOutcome), TradeAction::RecordOutcome(status))
                } else {
                    (self.moved_to(TradeStage::PlacingBet), TradeAction::PlaceBet)
                },
            },
            TradeStage::PlacingBet => match event {
                TradeEvent::Failed(m) => self.failing(m),
                _ => {
                    let status = action_status(false, self.fill_or_kill);
                    (self.moved_to(TradeStage::RecordingOutcome), TradeAction::RecordOutcome(status))
                },
            },
            TradeStage::RecordingOutcome => match event {
                TradeEvent::Failed(m) => (self.moved_to(TradeStage::Finished), TradeAction::Fail(m)),
                _ => {
                    let status = action_status(self.review, self.fill_or_kill);
                    (self.moved_to(TradeStage::Finished), TradeAction::Succeed(status))
                },
            },
            TradeStage::RecordingFailure => {
                let m = self.failure.clone();
                (self.moved_to(TradeStage::Finished), TradeAction::Fail(m))
            },
            TradeStage::Finished => {
                let m = self.failure.clone();
                (self, TradeAction::Fail(m))
            },
        }
    }
}



// ---------------------------------------------------------------------------
// Trade markers
// ---------------------------------------------------------------------------

/// The status written in a trade marker: the phase and the status, joined
/// by a colon.
pub fn marker_status(phase: &str, status: &str) -> (r: String)
    ensures
        r@ == phase@ + ":"@ + status@,
{
    let mut r = phase.to_owned();
    r.append(":");
    r.append(status);
    r
}

/// The reference written in a trade marker: none for an empty source
/// reference.
pub fn marker_reference_id(source_ref: &str) -> (r: Option<String>)
    ensures
        source_ref@.len() == 0 ==> r is None,
        source_ref@.len() > 0 ==> (r matches Some(x) && x@ == source_ref@),
{
    if source_ref.is_empty() {
        None
    } else {
        Some(source_ref.to_owned())
    }
}

// ---------------------------------------------------------------------------
// Laws of a trade
// ---------------------------------------------------------------------------

/// How far a trade still is from its end; every step lowers it.
pub open spec fn stage_rank(stage: TradeStage) -> nat {
    match stage {
        TradeStage::RecordingRequest => 9,
        TradeStage::OpeningPage => 8,
        TradeStage::CheckingSlip => 7,
        TradeStage::PopulatingSlip => 6,
        TradeStage::SettingStake => 5,
        TradeStage::VerifyingSlip => 4,
        TradeStage::PlacingBet => 3,
        TradeStage::RecordingOutcome => 2,
        TradeStage::RecordingFailure => 1,
        TradeStage::Finished => 0,
    }
}

/// A step changes only where the trade stands and the failure being
/// written: the mode, the fill-or-kill choice and the pages stay.
pub proof fn lemma_step_keeps_trade(f: TradeFlowView, e: TradeEventView)
    requires
        event_fits(f.stage, e),
    ensures
        spec_step(f, e).0.review == f.review,
        spec_step(f, e).0.fill_or_kill == f.fill_or_kill,
        spec_step(f, e).0.deep_link_url == f.deep_link_url,
        spec_step(f, e).0.event_url == f.event_url,
{
}

/// Every step brings the trade closer to its end, so a trade is over after
/// at most nine steps.
pub proof fn lemma_trade_progresses(f: TradeFlowView, e: TradeEventView)
    requires
        event_fits(f.stage, e),
    ensures
        stage_rank(spec_step(f, e).0.stage) < stage_rank(f.stage),
{
}

/// A trade in review mode never places a bet, neither when it starts nor
/// at any later step.
pub proof fn lemma_review_never_places_bet(
    session: Option<Seq<char>>,
    fill_or_kill: bool,
    deep_link_url: Option<Seq<char>>,
    event_url: Option<Seq<char>>,
    f: TradeFlowView,
    e: TradeEventView,
)
    requires
        f.review,
        event_fits(f.stage, e),
    ensures
        !(spec_start(session, true, fill_or_kill, deep_link_url, event_url).1 is PlaceBet),
        spec_start(session, true, fill_or_kill, deep_link_url, event_url).0.review,
        !(spec_step(f, e).1 is PlaceBet),
        spec_step(f, e).0.review,
{
}

/// A bet is placed only right after the bet slip was checked against the
/// trade, and only outside review mode.
pub proof fn lemma_bet_placed_only_after_verification(f: TradeFlowView, e: TradeEventView)
    requires
        event_fits(f.stage, e),
        spec_step(f, e).1 is PlaceBet,
    ensures
        f.stage == TradeStage::VerifyingSlip,
        e is Succeeded,
        !f.review,
{
}

/// The only page a trade opens is on smarkets.com: the deep link if there
/// is one, otherwise the event page.
pub proof fn lemma_only_smarkets_pages_open(f: TradeFlowView, e: TradeEventView)
    requires
        event_fits(f.stage, e),
        spec_step(f, e).1 is OpenPage,
    ensures
        is_smarkets_url(spec_step(f, e).1->OpenPage_0),
        f.deep_link_url matches Some(u) ==> spec_step(f, e).1->OpenPage_0 == u,
        f.deep_link_url is None ==> f.event_url == Some(spec_step(f, e).1->OpenPage_0),
{
}

/// Once the request marker is written, a failure is written too, and the
/// trade then fails with the same message.
pub proof fn lemma_failures_are_recorded(f: TradeFlowView, m: Seq<char>)
    requires
        stage_rank(f.stage) >= 3,
        f.stage != TradeStage::RecordingRequest,
    ensures
        spec_step(f, TradeEventView::Failed(m)).1 == TradeActionView::RecordFailure(m),
        spec_step(f, TradeEventView::Failed(m)).0.stage == TradeStage::RecordingFailure,
        spec_step(spec_step(f, TradeEventView::Failed(m)).0, TradeEventView::Succeeded).1
            == TradeActionView::Fail(m),
        spec_step(spec_step(f, TradeEventView::Failed(m)).0, TradeEventView::Failed("x"@)).1
            == TradeActionView::Fail(m),
{
}

/// What holds of every trade that `TradeFlow::start` and `TradeFlow::step`
/// can produce: a trade in review mode is never about to place a bet.
pub open spec fn trade_consistent(f: TradeFlowView) -> bool {
    f.stage == TradeStage::PlacingBet ==> !f.review
}

/// Every trade starts consistent and stays so at every step.
pub proof fn lemma_trades_stay_consistent(
    session: Option<Seq<char>>,
    review: bool,
    fill_or_kill: bool,
    deep_link_url: Option<Seq<char>>,
    event_url: Option<Seq<char>>,
    f: TradeFlowView,
    e: TradeEventView,
)
    requires
        trade_consistent(f),
        event_fits(f.stage, e),
    ensures
        trade_consistent(spec_start(session, review, fill_or_kill, deep_link_url, event_url).0),
        trade_consistent(spec_step(f, e).0),
{
}

/// The status a trade reports on success is the one written in its
/// response marker: review ready, or submitted (fill-or-kill when so).
pub proof fn lemma_reported_status_is_recorded(f: TradeFlowView, e: TradeEventView)
    requires
        trade_consistent(f),
        event_fits(f.stage, e),
    ensures
        spec_step(f, e).1 matches TradeActionView::RecordOutcome(s) ==> s == spec_action_status(
            f.review,
            f.fill_or_kill,
        ),
        spec_step(f, e).1 matches TradeActionView::Succeed(s) ==> f.stage
            == TradeStage::RecordingOutcome && s == spec_action_status(f.review, f.fill_or_kill),
{
}

} // verus!
