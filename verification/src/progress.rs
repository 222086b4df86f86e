//! Progress events: an exact percentage and the phase it belongs to.

use vstd::prelude::*;
use vstd::string::StringExecFns;

verus! {

/// A percentage held exactly, as the fraction `numerator / denominator` of
/// one hundred percent. `1/4` is 25%, `1/1` is 100%.
///
/// Keeping the fraction instead of a rounded number lets every statement
/// about progress be made in integers; a caller that needs a decimal value
/// computes `100 * numerator / denominator` in the precision it wants.
#[derive(Clone, Copy, Debug, PartialEq, Eq, Structural)]
pub struct Percentage {
    pub numerator: u64,
    pub denominator: u64,
}

impl Percentage {
    /// A percentage is well formed when its denominator is positive.
    pub open spec fn wf(self) -> bool {
        self.denominator > 0
    }

    /// The value is exactly 0%.
    pub open spec fn is_zero(self) -> bool {
        self.numerator == 0
    }

    /// The value is exactly 100%.
    pub open spec fn is_full(self) -> bool {
        self.numerator == self.denominator
    }

    /// `self <= other` as rational numbers (for well-formed operands).
    pub open spec fn at_most(self, other: Percentage) -> bool {
        self.numerator * other.denominator <= other.numerator * self.denominator
    }

    /// Whole percent points, rounded down; zero for a percentage that is
    /// not well formed.
    pub open spec fn floor(self) -> int {
        if self.denominator == 0 {
            0
        } else {
            (100 * self.numerator) / (self.denominator as int)
        }
    }

    /// 0%.
    pub fn zero() -> (p: Percentage)
        ensures
            p == (Percentage { numerator: 0, denominator: 1 }),
            p.wf(),
            p.is_zero(),
    {
        Percentage { numerator: 0, denominator: 1 }
    }

    /// 100%.
    pub fn full() -> (p: Percentage)
        ensures
            p == (Percentage { numerator: 1, denominator: 1 }),
            p.wf(),
            p.is_full(),
    {
        Percentage { numerator: 1, denominator: 1 }
    }

    /// The share that `part` is of `whole`. A `whole` of zero has no shares:
    /// the result is then 0%.
    pub fn of(part: u64, whole: u64) -> (p: Percentage)
        ensures
            p == Self::spec_of(part as nat, whole as nat),
            p.wf(),
    {
        if whole == 0 {
            Percentage { numerator: 0, denominator: 1 }
        } else {
            Percentage { numerator: part, denominator: whole }
        }
    }

    /// What [`Percentage::of`] returns.
    pub open spec fn spec_of(part: nat, whole: nat) -> Percentage {
        if whole == 0 {
            Percentage { numerator: 0, denominator: 1 }
        } else {
            Percentage { numerator: part as u64, denominator: whole as u64 }
        }
    }

    /// Whole percent points, rounded down; zero for a percentage that is
    /// not well formed.
    pub fn whole_points(&self) -> (n: u128)
        ensures
            n == self.floor(),
    {
        if self.denominator == 0 {
            0
        } else {
            let scaled: u128 = 100u128 * (self.numerator as u128);
            scaled / (self.denominator as u128)
        }
    }
}

/// The phase a progress event belongs to.
#[derive(Clone, Copy, Debug, PartialEq, Eq, Structural)]
pub enum ProgressStatus {
    /// The download has begun; nothing was received yet.
    Started,
    /// A chunk of the download arrived.
    Receiving,
    /// The byte stream is drained; unpacking comes next.
    Downloaded,
    /// Every archive entry has been processed.
    Installed,
}

impl ProgressStatus {
    /// The label of this phase as a sequence of characters.
    pub open spec fn spec_label(self) -> Seq<char> {
        match self {
            ProgressStatus::Started => "Downloading..."@,
            ProgressStatus::Receiving => "Downloading..."@,
            ProgressStatus::Downloaded => "Download complete. Unzipping..."@,
            ProgressStatus::Installed => "Installation complete!"@,
        }
    }

    /// The label shown to the user for this phase.
    pub fn label(&self) -> (s: String)
        ensures
            s@ == self.spec_label(),
    {
        match self {
            ProgressStatus::Started => String::from_str("Downloading..."),
            ProgressStatus::Receiving => String::from_str("Downloading..."),
            ProgressStatus::Downloaded => String::from_str("Download complete. Unzipping..."),
            ProgressStatus::Installed => String::from_str("Installation complete!"),
        }
    }
}

/// One progress notification. It is informational only: nothing in the
/// library reads an event back.
#[derive(Clone, Copy, Debug, PartialEq, Eq, Structural)]
pub struct DownloadProgress {
    pub percentage: Percentage,
    pub status: ProgressStatus,
}

impl DownloadProgress {
    /// The event that opens a download: 0%.
    pub open spec fn spec_started() -> DownloadProgress {
        DownloadProgress {
            percentage: Percentage { numerator: 0, denominator: 1 },
            status: ProgressStatus::Started,
        }
    }

    /// The event for a chunk, once `received` bytes are in hand. With a
    /// declared total the percentage is `received / total`; with none
    /// (`total == 0`) it is 0%.
    pub open spec fn spec_receiving(received: nat, total: nat) -> DownloadProgress {
        DownloadProgress {
            percentage: Percentage::spec_of(received, total),
            status: ProgressStatus::Receiving,
        }
    }

    /// The event that closes a download: 100%.
    pub open spec fn spec_downloaded() -> DownloadProgress {
        DownloadProgress {
            percentage: Percentage { numerator: 1, denominator: 1 },
            status: ProgressStatus::Downloaded,
        }
    }

    /// The event that closes an installation: 100%.
    pub open spec fn spec_installed() -> DownloadProgress {
        DownloadProgress {
            percentage: Percentage { numerator: 1, denominator: 1 },
            status: ProgressStatus::Installed,
        }
    }

    /// The event that opens a download.
    pub fn started() -> (e: DownloadProgress)
        ensures
            e == Self::spec_started(),
    {
        DownloadProgress { percentage: Percentage::zero(), status: ProgressStatus::Started }
    }

    /// The event for a chunk, once `received` bytes are in hand of a declared
    /// `total` (zero when no total was declared).
    pub fn receiving(received: u64, total: u64) -> (e: DownloadProgress)
        ensures
            e == Self::spec_receiving(received as nat, total as nat),
    {
        DownloadProgress {
            percentage: Percentage::of(received, total),
            status: ProgressStatus::Receiving,
        }
    }

    /// The event that closes a download.
    pub fn downloaded() -> (e: DownloadProgress)
        ensures
            e == Self::spec_downloaded(),
    {
        DownloadProgress { percentage: Percentage::full(), status: ProgressStatus::Downloaded }
    }

    /// The event that closes an installation.
    pub fn installed() -> (e: DownloadProgress)
        ensures
            e == Self::spec_installed(),
    {
        DownloadProgress { percentage: Percentage::full(), status: ProgressStatus::Installed }
    }
}

} // verus!
