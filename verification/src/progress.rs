//! What the observer is told: a completion fraction with a status, and the
//! named milestones of a run.
//!
//! A fraction is held in parts per million, so that `1_000_000` stands for a
//! finished run and `400_000` for four tenths.

use vstd::arithmetic::div_mod::{lemma_div_is_ordered, lemma_div_multiples_vanish};
use vstd::arithmetic::mul::{lemma_mul_inequality, lemma_mul_is_commutative};
use vstd::prelude::*;

use crate::text::{decimal_text, render_decimal};

verus! {

/// The fraction of a finished run.
pub const FULL_SCALE: u32 = 1_000_000;

/// The fraction shown while the old installation is cleared away.
pub const CLEANING_PPM: u32 = 100_000;

/// The fraction at which the download starts.
pub const DOWNLOAD_BASE_PPM: u32 = 200_000;

/// The part of the whole that the download covers.
pub const DOWNLOAD_SPAN_PPM: u32 = 400_000;

/// The fraction at which the extraction starts.
pub const EXTRACT_BASE_PPM: u32 = 600_000;

/// The part of the whole that the extraction covers.
pub const EXTRACT_SPAN_PPM: u32 = 300_000;

/// The fraction shown while the shortcuts are made.
pub const SHORTCUTS_PPM: u32 = 950_000;

/// The fraction shown while the bundled application is provided.
pub const BUNDLE_PPM: u32 = 980_000;

/// A download is reported when the number of bytes received so far is a
/// multiple of this.
pub const DOWNLOAD_REPORT_INTERVAL: u64 = 100_000;

/// An extraction is reported at every entry whose index is a multiple of this.
pub const EXTRACT_REPORT_INTERVAL: usize = 10;

/// The status that a progress event carries.
#[derive(Clone, Copy, Debug, PartialEq, Eq, Structural)]
pub enum StatusKey {
    Cleaning,
    DownloadingStart,
    DownloadingPercent,
    Extracting,
    Installing,
    Shortcuts,
    Opera,
}

impl StatusKey {
    /// The key as the observer receives it.
    pub open spec fn text(self) -> Seq<char> {
        match self {
            StatusKey::Cleaning => "status_cleaning"@,
            StatusKey::DownloadingStart => "status_downloading_start"@,
            StatusKey::DownloadingPercent => "status_downloading_percent"@,
            StatusKey::Extracting => "status_extracting"@,
            StatusKey::Installing => "status_installing"@,
            StatusKey::Shortcuts => "status_shortcuts"@,
            StatusKey::Opera => "status_opera"@,
        }
    }

    pub fn as_str(self) -> (r: &'static str)
        ensures
            r@ == self.text(),
    {
        match self {
            StatusKey::Cleaning => "status_cleaning",
            StatusKey::DownloadingStart => "status_downloading_start",
            StatusKey::DownloadingPercent => "status_downloading_percent",
            StatusKey::Extracting => "status_extracting",
            StatusKey::Installing => "status_installing",
            StatusKey::Shortcuts => "status_shortcuts",
            StatusKey::Opera => "status_opera",
        }
    }

    /// The fraction at which the stage of this status begins.
    pub open spec fn base(self) -> nat {
        match self {
            StatusKey::Cleaning => CLEANING_PPM as nat,
            StatusKey::DownloadingStart => DOWNLOAD_BASE_PPM as nat,
            StatusKey::DownloadingPercent => DOWNLOAD_BASE_PPM as nat,
            StatusKey::Extracting => EXTRACT_BASE_PPM as nat,
            StatusKey::Installing => EXTRACT_BASE_PPM as nat,
            StatusKey::Shortcuts => SHORTCUTS_PPM as nat,
            StatusKey::Opera => BUNDLE_PPM as nat,
        }
    }

    pub fn base_ppm(self) -> (r: u32)
        ensures
            r == self.base(),
            r <= FULL_SCALE,
    {
        match self {
            StatusKey::Cleaning => CLEANING_PPM,
            StatusKey::DownloadingStart => DOWNLOAD_BASE_PPM,
            StatusKey::DownloadingPercent => DOWNLOAD_BASE_PPM,
            StatusKey::Extracting => EXTRACT_BASE_PPM,
            StatusKey::Installing => EXTRACT_BASE_PPM,
            StatusKey::Shortcuts => SHORTCUTS_PPM,
            StatusKey::Opera => BUNDLE_PPM,
        }
    }
}

/// A named point in the life of a run, recorded for analytics.
#[derive(Clone, Copy, Debug, PartialEq, Eq, Structural)]
pub enum Milestone {
    InstallStarted,
    OperaAccepted,
    CleanupStarted,
    CleanupFinished,
    DownloadStarted,
    DownloadFinished,
    ExtractStarted,
    ExtractComplete,
    UninstallerRegistered,
    ShortcutsCreated,
    OperaInstalled,
    InstallComplete,
}

impl Milestone {
    /// The name under which the milestone is recorded.
    pub open spec fn text(self) -> Seq<char> {
        match self {
            Milestone::InstallStarted => "install_started"@,
            Milestone::OperaAccepted => "opera_accepted"@,
            Milestone::CleanupStarted => "cleanup_started"@,
            Milestone::CleanupFinished => "cleanup_finished"@,
            Milestone::DownloadStarted => "download_started"@,
            Milestone::DownloadFinished => "download_finished"@,
            Milestone::ExtractStarted => "extract_started"@,
            Milestone::ExtractComplete => "extract_complete"@,
            Milestone::UninstallerRegistered => "uninstaller_registered"@,
            Milestone::ShortcutsCreated => "shortcuts_created"@,
            Milestone::OperaInstalled => "opera_installed"@,
            Milestone::InstallComplete => "install_complete"@,
        }
    }

    pub fn name(self) -> (r: &'static str)
        ensures
            r@ == self.text(),
    {
        match self {
            Milestone::InstallStarted => "install_started",
            Milestone::OperaAccepted => "opera_accepted",
            Milestone::CleanupStarted => "cleanup_started",
            Milestone::CleanupFinished => "cleanup_finished",
            Milestone::DownloadStarted => "download_started",
            Milestone::DownloadFinished => "download_finished",
            Milestone::ExtractStarted => "extract_started",
            Milestone::ExtractComplete => "extract_complete",
            Milestone::UninstallerRegistered => "uninstaller_registered",
            Milestone::ShortcutsCreated => "shortcuts_created",
            Milestone::OperaInstalled => "opera_installed",
            Milestone::InstallComplete => "install_complete",
        }
    }
}

/// One notification to the observer.
#[derive(Clone, Debug, PartialEq, Eq)]
pub struct ProgressEvent {
    /// The completed fraction of the run, in parts per million.
    pub fraction_ppm: u32,
    pub status: StatusKey,
    /// Text that the observer puts into the status message.
    pub detail: Option<String>,
}

/// A progress event as a mathematical value.
pub struct ProgressEventView {
    pub fraction_ppm: nat,
    pub status: StatusKey,
    pub detail: Option<Seq<char>>,
}

impl View for ProgressEvent {
    type V = ProgressEventView;

    open spec fn view(&self) -> ProgressEventView {
        ProgressEventView {
            fraction_ppm: self.fraction_ppm as nat,
            status: self.status,
            detail: match self.detail {
                Some(d) => Some(d@),
                None => None,
            },
        }
    }
}

/// The smaller of two numbers.
pub open spec fn least(a: nat, b: nat) -> nat {
    if a < b {
        a
    } else {
        b
    }
}

/// The part of `span` that is reached when `part` of `whole` is done, rounded
/// down. What is done beyond `whole` does not count.
pub open spec fn share(span: nat, part: nat, whole: nat) -> nat
    recommends
        whole > 0,
{
    (span * least(part, whole)) / whole
}

/// The whole percentage nearest to `part` of `whole`; of two equally near, the
/// even one. What is done beyond `whole` does not count.
pub open spec fn percent_of(part: nat, whole: nat) -> nat
    recommends
        whole > 0,
{
    let scaled = 100 * least(part, whole);
    let below = scaled / whole;
    let rest = scaled % whole;
    if 2 * rest > whole || (2 * rest == whole && below % 2 == 1) {
        below + 1
    } else {
        below
    }
}

/// A share never exceeds its span.
pub proof fn lemma_share_bounded(span: nat, part: nat, whole: nat)
    requires
        whole > 0,
    ensures
        share(span, part, whole) <= span,
{
    let m = least(part, whole);
    lemma_mul_inequality(m as int, whole as int, span as int);
    lemma_mul_is_commutative(m as int, span as int);
    lemma_div_is_ordered((span * m) as int, (whole * span) as int, whole as int);
    lemma_div_multiples_vanish(span as int, whole as int);
}

/// A share grows with the part that is done.
pub proof fn lemma_share_monotonic(span: nat, less: nat, more: nat, whole: nat)
    requires
        whole > 0,
        less <= more,
    ensures
        share(span, less, whole) <= share(span, more, whole),
{
    let a = least(less, whole);
    let b = least(more, whole);
    lemma_mul_inequality(a as int, b as int, span as int);
    lemma_mul_is_commutative(a as int, span as int);
    lemma_mul_is_commutative(b as int, span as int);
    lemma_div_is_ordered((span * a) as int, (span * b) as int, whole as int);
}

/// Computes the share of `span` that `part` of `whole` reaches.
pub fn scaled_share(span: u32, part: u64, whole: u64) -> (r: u32)
    requires
        whole > 0,
    ensures
        r == share(span as nat, part as nat, whole as nat),
        r <= span,
{
    let capped: u64 = if part < whole {
        part
    } else {
        whole
    };
    proof {
        lemma_share_bounded(span as nat, part as nat, whole as nat);
        assert((span as int) * (capped as int) <= 0xffff_ffff * 0xffff_ffff_ffff_ffff)
            by (nonlinear_arith)
            requires
                0 <= span <= 0xffff_ffff,
                0 <= capped <= 0xffff_ffff_ffff_ffff,
        ;
    }
    let product: u128 = (span as u128) * (capped as u128);
    let quotient: u128 = product / (whole as u128);
    quotient as u32
}

/// Computes the whole percentage nearest to `part` of `whole`.
pub fn percent(part: u64, whole: u64) -> (r: u64)
    requires
        whole > 0,
    ensures
        r == percent_of(part as nat, whole as nat),
        r <= 100,
{
    let capped: u64 = if part < whole {
        part
    } else {
        whole
    };
    let scaled: u128 = 100u128 * (capped as u128);
    let below: u128 = scaled / (whole as u128);
    let rest: u128 = scaled % (whole as u128);
    proof {
        lemma_div_is_ordered(scaled as int, 100 * (whole as int), whole as int);
        lemma_div_multiples_vanish(100, whole as int);
        lemma_mul_is_commutative(100, whole as int);
        assert(below <= 100);
        if below == 100 {
            vstd::arithmetic::div_mod::lemma_fundamental_div_mod(scaled as int, whole as int);
            assert(whole * 100 == 100 * whole) by (nonlinear_arith);
            assert(rest == 0);
        }
    }
    let up: bool = 2 * rest > (whole as u128) || (2 * rest == (whole as u128) && below % 2 == 1);
    if up {
        (below + 1) as u64
    } else {
        below as u64
    }
}

/// The event that opens the stage of `status`: its base fraction, no detail.
pub open spec fn stage_event(status: StatusKey) -> ProgressEventView {
    ProgressEventView { fraction_ppm: status.base(), status, detail: None }
}

/// The event that reports `received` bytes of a download of `total` bytes.
pub open spec fn download_event(received: nat, total: nat) -> ProgressEventView
    recommends
        total > 0,
{
    ProgressEventView {
        fraction_ppm: DOWNLOAD_BASE_PPM as nat + share(DOWNLOAD_SPAN_PPM as nat, received, total),
        status: StatusKey::DownloadingPercent,
        detail: Some(decimal_text(percent_of(received, total))),
    }
}

/// Whether a download of `total` bytes is reported once `received` bytes have
/// come in: only where the length is known, and at every multiple of the
/// interval.
pub open spec fn download_is_reported(received: nat, total: nat) -> bool {
    total > 0 && received % (DOWNLOAD_REPORT_INTERVAL as nat) == 0
}

/// The event that reports the entry `index` of `count` as done.
pub open spec fn extract_event(index: nat, count: nat) -> ProgressEventView
    recommends
        count > 0,
{
    ProgressEventView {
        fraction_ppm: EXTRACT_BASE_PPM as nat + share(EXTRACT_SPAN_PPM as nat, index, count),
        status: StatusKey::Installing,
        detail: None,
    }
}

/// Whether the entry `index` of `count` is reported.
pub open spec fn extract_is_reported(index: nat, count: nat) -> bool {
    count > 0 && index % (EXTRACT_REPORT_INTERVAL as nat) == 0
}

impl ProgressEvent {
    /// Whether the fraction lies between nothing and the whole.
    pub open spec fn well_formed(self) -> bool {
        self.fraction_ppm <= FULL_SCALE
    }

    /// The event that opens the stage of `status`.
    pub fn stage(status: StatusKey) -> (e: ProgressEvent)
        ensures
            e@ == stage_event(status),
            e.well_formed(),
    {
        ProgressEvent { fraction_ppm: status.base_ppm(), status, detail: None }
    }

    /// The report on a download of which `received` of `total` bytes have
    /// come in, where one is due. A `total` of zero stands for an unknown
    /// length.
    pub fn download(received: u64, total: u64) -> (r: Option<ProgressEvent>)
        ensures
            r is Some <==> download_is_reported(received as nat, total as nat),
            r matches Some(e) ==> e@ == download_event(received as nat, total as nat)
                && e.well_formed(),
    {
        if total > 0 && received % DOWNLOAD_REPORT_INTERVAL == 0 {
            let part: u32 = scaled_share(DOWNLOAD_SPAN_PPM, received, total);
            let text = render_decimal(percent(received, total));
            Some(
                ProgressEvent {
                    fraction_ppm: DOWNLOAD_BASE_PPM + part,
                    status: StatusKey::DownloadingPercent,
                    detail: Some(text),
                },
            )
        } else {
            None
        }
    }

    /// The report on the entry `index` of `count`, where one is due.
    pub fn extraction(index: usize, count: usize) -> (r: Option<ProgressEvent>)
        ensures
            r is Some <==> extract_is_reported(index as nat, count as nat),
            r matches Some(e) ==> e@ == extract_event(index as nat, count as nat)
                && e.well_formed(),
    {
        if count > 0 && index % EXTRACT_REPORT_INTERVAL == 0 {
            let part: u32 = scaled_share(EXTRACT_SPAN_PPM, index as u64, count as u64);
            Some(
                ProgressEvent {
                    fraction_ppm: EXTRACT_BASE_PPM + part,
                    status: StatusKey::Installing,
                    detail: None,
                },
            )
        } else {
            None
        }
    }
}

} // verus!
