//! The order of a whole flash: its opening log lines, one handshake per
//! batch, then (for a card skin) the cache invalidation, the skin history
//! and the closing report. The first failing step ends the flash; nothing
//! after it runs.

use vstd::prelude::*;
use crate::flasher::WalletArt;
use crate::text::{decimal, push_decimal, push_str, string_of};

verus! {

/// What is flashed.
#[derive(Clone, Copy, PartialEq, Eq, Structural, Debug)]
pub enum FlashKind {
    /// A card skin; `png` when its artwork is PNG.
    WalletSkin { png: bool },
    /// A passcode theme.
    PasscodeTheme,
}

/// Where a flash stands.
#[derive(Clone, Copy, PartialEq, Eq, Structural, Debug)]
pub enum FlashPhase {
    /// Batch `k` is being written.
    Writing(usize),
    /// The card's cached faces are being invalidated.
    Invalidating,
    /// The flash is over.
    Done,
}

/// What the caller does next.
pub enum FlashAction {
    /// Write batch `k` of the plan.
    WriteBatch(usize),
    /// Invalidate the card's cached faces.
    InvalidateCache,
    /// The flash succeeded: remember the applied PNG when `remember_png`,
    /// report `progress` when given, then log `log`.
    Finish { remember_png: bool, progress: Option<(usize, usize, String)>, log: String },
    /// The flash failed: return the failing step's error, wrapped in
    /// `context` when given.
    Fail { context: Option<String> },
    /// Nothing is left to do.
    Stop,
}

/// A `FlashAction` as plain values.
pub enum FlashActionModel {
    WriteBatch(usize),
    InvalidateCache,
    Finish { remember_png: bool, progress: Option<(usize, usize, Seq<char>)>, log: Seq<char> },
    Fail { context: Option<Seq<char>> },
    Stop,
}

impl View for FlashAction {
    type V = FlashActionModel;

    open spec fn view(&self) -> FlashActionModel {
        match self {
            FlashAction::WriteBatch(k) => FlashActionModel::WriteBatch(*k),
            FlashAction::InvalidateCache => FlashActionModel::InvalidateCache,
            FlashAction::Finish { remember_png, progress, log } => FlashActionModel::Finish {
                remember_png: *remember_png,
                progress: match progress {
                    Some(p) => Some((p.0, p.1, p.2@)),
                    None => None,
                },
                log: log@,
            },
            FlashAction::Fail { context } => FlashActionModel::Fail {
                context: match context {
                    Some(c) => Some(c@),
                    None => None,
                },
            },
            FlashAction::Stop => FlashActionModel::Stop,
        }
    }
}

/// The error context of a failed batch.
pub open spec fn batch_failure_context(kind: FlashKind) -> Seq<char> {
    match kind {
        FlashKind::WalletSkin { .. } => "Failed to write card skin batch"@,
        FlashKind::PasscodeTheme => "Failed to write passcode theme batch"@,
    }
}

/// The success of a flash of `items` files.
pub open spec fn flash_finish(kind: FlashKind, items: nat) -> FlashActionModel {
    match kind {
        FlashKind::WalletSkin { png } => FlashActionModel::Finish {
            remember_png: png,
            progress: Some(((items + 1) as usize, (items + 1) as usize, "Card skin updated successfully!"@)),
            log: "Card skin write finished! Close and reopen Wallet on iPhone to view."@,
        },
        FlashKind::PasscodeTheme => FlashActionModel::Finish {
            remember_png: false,
            progress: None,
            log: "Passcode theme successfully written! Lock iPhone to see new keypad."@,
        },
    }
}

/// What follows the last batch: the cache invalidation for a card skin,
/// the success of a passcode theme.
pub open spec fn after_batches(kind: FlashKind, items: nat) -> (FlashPhase, FlashActionModel) {
    match kind {
        FlashKind::WalletSkin { .. } => (FlashPhase::Invalidating, FlashActionModel::InvalidateCache),
        FlashKind::PasscodeTheme => (FlashPhase::Done, flash_finish(kind, items)),
    }
}

/// The first step of a flash of `items` files in `batches` handshakes.
pub open spec fn flash_begin_spec(kind: FlashKind, batches: nat, items: nat) -> (FlashPhase, FlashActionModel) {
    if batches > 0 {
        (FlashPhase::Writing(0), FlashActionModel::WriteBatch(0))
    } else {
        after_batches(kind, items)
    }
}

/// The step after the last one, which succeeded when `ok`: the batches in
/// order, then what follows them; the first failure ends the flash with
/// its error (a failed batch wrapped in the batch context).
pub open spec fn flash_next_spec(kind: FlashKind, batches: nat, items: nat, phase: FlashPhase, ok: bool) -> (FlashPhase, FlashActionModel) {
    match phase {
        FlashPhase::Writing(k) => if !ok {
            (FlashPhase::Done, FlashActionModel::Fail { context: Some(batch_failure_context(kind)) })
        } else if k + 1 < batches {
            (FlashPhase::Writing((k + 1) as usize), FlashActionModel::WriteBatch((k + 1) as usize))
        } else {
            after_batches(kind, items)
        },
        FlashPhase::Invalidating => if ok {
            (FlashPhase::Done, flash_finish(kind, items))
        } else {
            (FlashPhase::Done, FlashActionModel::Fail { context: None })
        },
        FlashPhase::Done => (FlashPhase::Done, FlashActionModel::Stop),
    }
}

fn finish_action(kind: FlashKind, items: usize) -> (r: FlashAction)
    requires
        items < usize::MAX,
    ensures
        r@ == flash_finish(kind, items as nat),
{
    match kind {
        FlashKind::WalletSkin { png } => FlashAction::Finish {
            remember_png: png,
            progress: Some((items + 1, items + 1, string_of("Card skin updated successfully!"))),
            log: string_of("Card skin write finished! Close and reopen Wallet on iPhone to view."),
        },
        FlashKind::PasscodeTheme => FlashAction::Finish {
            remember_png: false,
            progress: None,
            log: string_of("Passcode theme successfully written! Lock iPhone to see new keypad."),
        },
    }
}

fn after_batches_exec(kind: FlashKind, items: usize) -> (r: (FlashPhase, FlashAction))
    requires
        items < usize::MAX,
    ensures
        (r.0, r.1@) == after_batches(kind, items as nat),
{
    match kind {
        FlashKind::WalletSkin { .. } => (FlashPhase::Invalidating, FlashAction::InvalidateCache),
        FlashKind::PasscodeTheme => (FlashPhase::Done, finish_action(kind, items)),
    }
}

/// The first step of a flash of `items` files in `batches` handshakes.
pub fn flash_begin(kind: FlashKind, batches: usize, items: usize) -> (r: (FlashPhase, FlashAction))
    requires
        items < usize::MAX,
    ensures
        (r.0, r.1@) == flash_begin_spec(kind, batches as nat, items as nat),
{
    if batches > 0 {
        (FlashPhase::Writing(0), FlashAction::WriteBatch(0))
    } else {
        after_batches_exec(kind, items)
    }
}

/// The next step of a flash, after the last one succeeded (`ok`) or failed.
pub fn flash_next(kind: FlashKind, batches: usize, items: usize, phase: FlashPhase, ok: bool) -> (r: (FlashPhase, FlashAction))
    requires
        items < usize::MAX,
        phase matches FlashPhase::Writing(k) ==> k < batches,
    ensures
        (r.0, r.1@) == flash_next_spec(kind, batches as nat, items as nat, phase, ok),
        r.0 matches FlashPhase::Writing(k) ==> k < batches,
{
    match phase {
        FlashPhase::Writing(k) => if !ok {
            let context = match kind {
                FlashKind::WalletSkin { .. } => string_of("Failed to write card skin batch"),
                FlashKind::PasscodeTheme => string_of("Failed to write passcode theme batch"),
            };
            (FlashPhase::Done, FlashAction::Fail { context: Some(context) })
        } else if k + 1 < batches {
            (FlashPhase::Writing(k + 1), FlashAction::WriteBatch(k + 1))
        } else {
            after_batches_exec(kind, items)
        },
        FlashPhase::Invalidating => if ok {
            (FlashPhase::Done, finish_action(kind, items))
        } else {
            (FlashPhase::Done, FlashAction::Fail { context: None })
        },
        FlashPhase::Done => (FlashPhase::Done, FlashAction::Stop),
    }
}

/// A failed step ends the flash at once: no later batch is written, the
/// cache is not invalidated and no PNG is remembered; and the flash reports
/// success only from its last step.
pub proof fn lemma_failure_stops_flash(kind: FlashKind, batches: nat, items: nat, phase: FlashPhase)
    ensures
        phase !is Done ==> flash_next_spec(kind, batches, items, phase, false).0 == FlashPhase::Done
            && flash_next_spec(kind, batches, items, phase, false).1 is Fail,
        flash_next_spec(kind, batches, items, phase, true).1 is Finish ==> match phase {
            FlashPhase::Writing(k) => k + 1 >= batches && kind == FlashKind::PasscodeTheme,
            FlashPhase::Invalidating => true,
            FlashPhase::Done => false,
        },
{
}

/// The opening log lines of a card-skin flash.
pub open spec fn wallet_intro_spec(card_hash: Seq<char>, art: WalletArt) -> Seq<Seq<char>> {
    seq![
        "Target Card Hash: "@ + card_hash,
        match art {
            WalletArt::Png { png_3x, png_2x } => "Skin payload @3x="@ + decimal(png_3x@.len()) + " bytes PNG, @2x="@
                + decimal(png_2x@.len()) + " bytes PNG (1024x646)"@,
            WalletArt::Pdf(pdf) => "Skin payload size: "@ + decimal(pdf@.len()) + " bytes PDF (Suica / transit artwork)"@,
        },
    ]
}

/// The opening log lines of a card-skin flash.
pub fn wallet_intro_lines(card_hash: &str, art: &WalletArt) -> (r: Vec<String>)
    ensures
        r@.map_values(|s: String| s@) == wallet_intro_spec(card_hash@, *art),
{
    let mut first = string_of("Target Card Hash: ");
    push_str(&mut first, card_hash);
    let second = match art {
        WalletArt::Png { png_3x, png_2x } => {
            let mut m = string_of("Skin payload @3x=");
            push_decimal(&mut m, png_3x.len() as u64);
            push_str(&mut m, " bytes PNG, @2x=");
            push_decimal(&mut m, png_2x.len() as u64);
            push_str(&mut m, " bytes PNG (1024x646)");
            m
        },
        WalletArt::Pdf(pdf) => {
            let mut m = string_of("Skin payload size: ");
            push_decimal(&mut m, pdf.len() as u64);
            push_str(&mut m, " bytes PDF (Suica / transit artwork)");
            m
        },
    };
    let mut r: Vec<String> = Vec::new();
    r.push(first);
    r.push(second);
    assert(r@.map_values(|s: String| s@) =~= wallet_intro_spec(card_hash@, *art));
    r
}

/// The opening log line of a passcode-theme flash of `items` files.
pub open spec fn passcode_intro_spec(items: nat) -> Seq<char> {
    "Flashing passcode theme ("@ + decimal(items) + " button assets, batched AirTraffic)..."@
}

/// The opening log line of a passcode-theme flash of `items` files.
pub fn passcode_intro_line(items: usize) -> (r: String)
    ensures
        r@ == passcode_intro_spec(items as nat),
{
    let mut m = string_of("Flashing passcode theme (");
    push_decimal(&mut m, items as u64);
    push_str(&mut m, " button assets, batched AirTraffic)...");
    m
}

} // verus!
