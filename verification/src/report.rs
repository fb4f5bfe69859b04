//! What the optimizer saved.

use crate::rounding::{
    lemma_rounded_quotient_is_nearest, nearest_double, round_half_even, rounded_quotient,
};
use crate::text::{decimal_of, one_place, one_place_of, two_places_of};
use crate::wasm_opt::WasmOpt;
use vstd::prelude::*;
use vstd::string::*;

verus! {

/// A byte count in words: in bytes up to 1023, in KiB (1024 bytes) up to
/// 1048575 and in MB (1048576 bytes) from there, the latter two with two decimal
/// places. The count is first taken to the nearest double-precision number, and
/// the quotient is rounded to the nearest hundredth, ties to the even one.
pub open spec fn size_text(raw_size: nat) -> Seq<char> {
    if raw_size == 1 {
        "1 byte"@
    } else if raw_size < 1024 {
        decimal_of(raw_size) + " bytes"@
    } else if raw_size < 1048576 {
        two_places_of(rounded_quotient(raw_size * 100, 1024)) + " KiB"@
    } else {
        two_places_of(rounded_quotient(nearest_double(raw_size) * 100, 1048576)) + " MB"@
    }
}

/// The sizes of an artifact before and after the optimizer ran on it.
#[derive(Clone, Copy, Debug, PartialEq, Eq, Structural)]
pub struct SizeReport {
    /// The size in bytes before the run.
    pub original_size: u64,
    /// The size in bytes after the run.
    pub final_size: u64,
}

impl SizeReport {
    /// The bytes that the run saved; negative where the artifact grew.
    pub open spec fn saved(self) -> int {
        self.original_size - self.final_size
    }

    /// The size of the change in bytes, whichever way it went.
    pub open spec fn change(self) -> nat {
        if self.original_size >= self.final_size {
            (self.original_size - self.final_size) as nat
        } else {
            (self.final_size - self.original_size) as nat
        }
    }

    /// The reduction in percent of the original size, rounded to the nearest
    /// tenth with ties to the even one, and negative where the artifact grew.
    /// Of an empty original no share can be taken: the text is then what a
    /// division by zero gives in floating point.
    pub open spec fn reduction_text(self) -> Seq<char> {
        if self.original_size == 0 {
            if self.final_size == 0 {
                "NaN"@
            } else {
                "-inf"@
            }
        } else {
            (if self.saved() < 0 {
                "-"@
            } else {
                Seq::empty()
            }) + one_place_of(rounded_quotient(self.change() * 1000, self.original_size as nat))
        }
    }

    /// The saved bytes in words, with a sign where the artifact grew.
    pub open spec fn saved_text(self) -> Seq<char> {
        (if self.saved() < 0 {
            "-"@
        } else {
            Seq::empty()
        }) + size_text(self.change())
    }

    /// The lines that tell of the run on the artifact at `wasm`.
    pub open spec fn summary_text(self, wasm: Seq<char>) -> Seq<char> {
        "Ran wasm-opt for "@ + wasm + "\nOriginal size: "@ + size_text(self.original_size as nat)
            + "\n   Final size: "@ + size_text(self.final_size as nat) + "\n    Reduction: "@
            + self.reduction_text() + " % ["@ + self.saved_text() + "]"@
    }

    /// The bytes that the run saved; negative where the artifact grew.
    pub fn saved_bytes(&self) -> (saved: i128)
        ensures
            saved == self.saved(),
    {
        self.original_size as i128 - self.final_size as i128
    }

    /// The reduction in percent as an exact fraction, numerator first: a
    /// hundred times the saved bytes over the original size. There is none of
    /// an empty original.
    pub fn reduction(&self) -> (fraction: Option<(i128, u64)>)
        ensures
            fraction is None <==> self.original_size == 0,
            fraction matches Some((numerator, denominator)) ==> numerator == 100 * (
            self.original_size - self.final_size) && denominator == self.original_size,
    {
        if self.original_size == 0 {
            None
        } else {
            Some((100 * self.saved_bytes(), self.original_size))
        }
    }

    fn change_bytes(&self) -> (change: u64)
        ensures
            change == self.change(),
    {
        if self.original_size >= self.final_size {
            self.original_size - self.final_size
        } else {
            self.final_size - self.original_size
        }
    }

    /// Writes the reduction in percent with one decimal place.
    pub fn reduction_percent(&self) -> (text: String)
        ensures
            text@ == self.reduction_text(),
    {
        if self.original_size == 0 {
            if self.final_size == 0 {
                String::from_str("NaN")
            } else {
                String::from_str("-inf")
            }
        } else {
            let tenths = round_half_even(self.change_bytes() as u128 * 1000, self.original_size);
            let mut text = String::new();
            if self.final_size > self.original_size {
                text.append("-");
            }
            text.append(one_place(tenths).as_str());
            text
        }
    }

    /// Writes the saved bytes in words.
    pub fn saved_size(&self) -> (text: String)
        ensures
            text@ == self.saved_text(),
    {
        let mut text = String::new();
        if self.final_size > self.original_size {
            text.append("-");
        }
        text.append(WasmOpt::file_size(self.change_bytes()).as_str());
        text
    }

    /// Writes the lines that tell of the run on the artifact at `wasm`.
    pub fn summary(&self, wasm: &str) -> (text: String)
        ensures
            text@ == self.summary_text(wasm@),
    {
        let mut text = String::from_str("Ran wasm-opt for ");
        text.append(wasm);
        text.append("\nOriginal size: ");
        text.append(WasmOpt::file_size(self.original_size).as_str());
        text.append("\n   Final size: ");
        text.append(WasmOpt::file_size(self.final_size).as_str());
        text.append("\n    Reduction: ");
        text.append(self.reduction_percent().as_str());
        text.append(" % [");
        text.append(self.saved_size().as_str());
        text.append("]");
        text
    }
}

/// The reported reduction is the nearest tenth of a percent to the exact one,
/// `(original - final) / original * 100`: the two differ by at most a
/// twentieth, and the report has the sign of the change.
pub proof fn lemma_reduction_is_nearest_tenth(report: SizeReport)
    requires
        report.original_size > 0,
    ensures
        ({
            let tenths = rounded_quotient(report.change() * 1000, report.original_size as nat);
            &&& 2 * (tenths * report.original_size - 1000 * report.change())
                <= report.original_size
            &&& 2 * (1000 * report.change() - tenths * report.original_size)
                <= report.original_size
            &&& report.change() == (if report.saved() < 0 {
                -report.saved()
            } else {
                report.saved()
            })
        }),
{
    lemma_rounded_quotient_is_nearest(report.change() * 1000, report.original_size as nat);
}

} // verus!
