//! The stage: the root of what a movie shows, and the settings a script can
//! read and change on it.

use vstd::prelude::*;
use vstd::string::*;
use crate::color::Color;
use crate::text::{eq_ignore_case, lower, same_ignoring_case, to_lower};

verus! {

/// The sides of the window that the movie is held against. Any set of sides
/// can be chosen, opposite ones too.
#[derive(Clone, Copy, Debug, PartialEq, Eq, Structural)]
pub struct StageAlign {
    pub top: bool,
    pub bottom: bool,
    pub left: bool,
    pub right: bool,
}

/// `letter`, in either case, occurs in `text`.
pub open spec fn mentions(text: Seq<char>, letter: char) -> bool {
    exists|i: int| 0 <= i < text.len() && lower(#[trigger] text[i]) == lower(letter)
}

impl StageAlign {
    /// No side chosen: the movie is centred.
    pub open spec fn centered() -> StageAlign {
        StageAlign { top: false, bottom: false, left: false, right: false }
    }

    /// The letters of the chosen sides, in the order T, B, L, R.
    pub open spec fn letters(self) -> Seq<char> {
        (if self.top {
            "T"@
        } else {
            Seq::empty()
        }) + (if self.bottom {
            "B"@
        } else {
            Seq::empty()
        }) + (if self.left {
            "L"@
        } else {
            Seq::empty()
        }) + (if self.right {
            "R"@
        } else {
            Seq::empty()
        })
    }

    /// The sides that `text` names: each of the letters T, B, L and R, in
    /// either case, chooses its side wherever it stands; every other
    /// character is passed over.
    pub open spec fn named(text: Seq<char>) -> StageAlign {
        StageAlign {
            top: mentions(text, 'T'),
            bottom: mentions(text, 'B'),
            left: mentions(text, 'L'),
            right: mentions(text, 'R'),
        }
    }

    /// The letters of the chosen sides, in the order T, B, L, R.
    pub fn to_letters(&self) -> (text: String)
        ensures
            text@ == self.letters(),
    {
        let mut text = String::new();
        if self.top {
            text.append("T");
        }
        if self.bottom {
            text.append("B");
        }
        if self.left {
            text.append("L");
        }
        if self.right {
            text.append("R");
        }
        proof {
            assert(text@ =~= self.letters());
        }
        text
    }

    /// Reads the sides that `text` names. Every text names some set of sides.
    pub fn parse(text: &str) -> (align: StageAlign)
        ensures
            align == StageAlign::named(text@),
    {
        let mut align = StageAlign { top: false, bottom: false, left: false, right: false };
        let n = text.unicode_len();
        let mut i: usize = 0;
        while i < n
            invariant
                i <= n,
                n == text@.len(),
                align == StageAlign::named(text@.take(i as int)),
            decreases n - i,
        {
            let c = to_lower(text.get_char(i));
            let ghost before = text@.take(i as int);
            let ghost upto = text@.take(i as int + 1);
            proof {
                assert(upto[i as int] == text@[i as int]);
                assert forall|letter: char| #[trigger]
                    mentions(upto, letter) == (mentions(before, letter) || lower(text@[i as int])
                        == lower(letter)) by {
                    if mentions(before, letter) {
                        let k = choose|k: int|
                            0 <= k < before.len() && lower(#[trigger] before[k]) == lower(letter);
                        assert(upto[k] == before[k]);
                    }
                    if mentions(upto, letter) {
                        let k = choose|k: int|
                            0 <= k < upto.len() && lower(#[trigger] upto[k]) == lower(letter);
                        if k < i {
                            assert(before[k] == upto[k]);
                        }
                    }
                }
            }
            if c == 't' {
                align.top = true;
            } else if c == 'b' {
                align.bottom = true;
            } else if c == 'l' {
                align.left = true;
            } else if c == 'r' {
                align.right = true;
            }
            i = i + 1;
        }
        proof {
            assert(text@.take(i as int) =~= text@);
        }
        align
    }
}

/// How much of the screen the movie takes.
#[derive(Clone, Copy, Debug, PartialEq, Eq, Structural)]
pub enum StageDisplayState {
    FullScreen,
    FullScreenInteractive,
    Normal,
}

impl StageDisplayState {
    /// The name a script sees.
    pub open spec fn name(self) -> Seq<char> {
        match self {
            StageDisplayState::FullScreen => "fullScreen"@,
            StageDisplayState::FullScreenInteractive => "fullScreenInteractive"@,
            StageDisplayState::Normal => "normal"@,
        }
    }

    /// The state that `text` names, whatever the case of its letters.
    pub open spec fn named(text: Seq<char>) -> Option<StageDisplayState> {
        if same_ignoring_case(text, "fullscreen"@) {
            Some(StageDisplayState::FullScreen)
        } else if same_ignoring_case(text, "fullscreeninteractive"@) {
            Some(StageDisplayState::FullScreenInteractive)
        } else if same_ignoring_case(text, "normal"@) {
            Some(StageDisplayState::Normal)
        } else {
            None
        }
    }

    /// The name a script sees.
    pub fn as_str(&self) -> (name: &'static str)
        ensures
            name@ == self.name(),
    {
        match self {
            StageDisplayState::FullScreen => "fullScreen",
            StageDisplayState::FullScreenInteractive => "fullScreenInteractive",
            StageDisplayState::Normal => "normal",
        }
    }

    /// Reads the state that `text` names, if it names one.
    pub fn parse(text: &str) -> (state: Option<StageDisplayState>)
        ensures
            state == StageDisplayState::named(text@),
    {
        if eq_ignore_case(text, "fullscreen") {
            Some(StageDisplayState::FullScreen)
        } else if eq_ignore_case(text, "fullscreeninteractive") {
            Some(StageDisplayState::FullScreenInteractive)
        } else if eq_ignore_case(text, "normal") {
            Some(StageDisplayState::Normal)
        } else {
            None
        }
    }
}

/// How the movie is fitted into the window.
#[derive(Clone, Copy, Debug, PartialEq, Eq, Structural)]
pub enum StageScaleMode {
    ExactFit,
    NoBorder,
    NoScale,
    ShowAll,
}

impl StageScaleMode {
    /// The name a script sees.
    pub open spec fn name(self) -> Seq<char> {
        match self {
            StageScaleMode::ExactFit => "exactFit"@,
            StageScaleMode::NoBorder => "noBorder"@,
            StageScaleMode::NoScale => "noScale"@,
            StageScaleMode::ShowAll => "showAll"@,
        }
    }

    /// The mode that `text` names, whatever the case of its letters.
    pub open spec fn named(text: Seq<char>) -> Option<StageScaleMode> {
        if same_ignoring_case(text, "exactfit"@) {
            Some(StageScaleMode::ExactFit)
        } else if same_ignoring_case(text, "noborder"@) {
            Some(StageScaleMode::NoBorder)
        } else if same_ignoring_case(text, "noscale"@) {
            Some(StageScaleMode::NoScale)
        } else if same_ignoring_case(text, "showall"@) {
            Some(StageScaleMode::ShowAll)
        } else {
            None
        }
    }

    /// The name a script sees.
    pub fn as_str(&self) -> (name: &'static str)
        ensures
            name@ == self.name(),
    {
        match self {
            StageScaleMode::ExactFit => "exactFit",
            StageScaleMode::NoBorder => "noBorder",
            StageScaleMode::NoScale => "noScale",
            StageScaleMode::ShowAll => "showAll",
        }
    }

    /// Reads the mode that `text` names, if it names one.
    pub fn parse(text: &str) -> (mode: Option<StageScaleMode>)
        ensures
            mode == StageScaleMode::named(text@),
    {
        if eq_ignore_case(text, "exactfit") {
            Some(StageScaleMode::ExactFit)
        } else if eq_ignore_case(text, "noborder") {
            Some(StageScaleMode::NoBorder)
        } else if eq_ignore_case(text, "noscale") {
            Some(StageScaleMode::NoScale)
        } else if eq_ignore_case(text, "showall") {
            Some(StageScaleMode::ShowAll)
        } else {
            None
        }
    }
}

/// How carefully the movie is drawn.
#[derive(Clone, Copy, Debug, PartialEq, Eq, Structural)]
pub enum StageQuality {
    Low,
    Medium,
    High,
    Best,
    High8x8,
    High8x8Linear,
    High16x16,
    High16x16Linear,
}

impl StageQuality {
    /// The name a script sees.
    pub open spec fn name(self) -> Seq<char> {
        match self {
            StageQuality::Low => "LOW"@,
            StageQuality::Medium => "MEDIUM"@,
            StageQuality::High => "HIGH"@,
            StageQuality::Best => "BEST"@,
            StageQuality::High8x8 => "8X8"@,
            StageQuality::High8x8Linear => "8X8LINEAR"@,
            StageQuality::High16x16 => "16X16"@,
            StageQuality::High16x16Linear => "16X16LINEAR"@,
        }
    }

    /// The quality that `text` names, whatever the case of its letters.
    pub open spec fn named(text: Seq<char>) -> Option<StageQuality> {
        if same_ignoring_case(text, "low"@) {
            Some(StageQuality::Low)
        } else if same_ignoring_case(text, "medium"@) {
            Some(StageQuality::Medium)
        } else if same_ignoring_case(text, "high"@) {
            Some(StageQuality::High)
        } else if same_ignoring_case(text, "best"@) {
            Some(StageQuality::Best)
        } else if same_ignoring_case(text, "8x8"@) {
            Some(StageQuality::High8x8)
        } else if same_ignoring_case(text, "8x8linear"@) {
            Some(StageQuality::High8x8Linear)
        } else if same_ignoring_case(text, "16x16"@) {
            Some(StageQuality::High16x16)
        } else if same_ignoring_case(text, "16x16linear"@) {
            Some(StageQuality::High16x16Linear)
        } else {
            None
        }
    }

    /// The name a script sees.
    pub fn into_avm_str(self) -> (name: &'static str)
        ensures
            name@ == self.name(),
    {
        match self {
            StageQuality::Low => "LOW",
            StageQuality::Medium => "MEDIUM",
            StageQuality::High => "HIGH",
            StageQuality::Best => "BEST",
            StageQuality::High8x8 => "8X8",
            StageQuality::High8x8Linear => "8X8LINEAR",
            StageQuality::High16x16 => "16X16",
            StageQuality::High16x16Linear => "16X16LINEAR",
        }
    }

    /// Reads the quality that `text` names, if it names one.
    pub fn parse(text: &str) -> (quality: Option<StageQuality>)
        ensures
            quality == StageQuality::named(text@),
    {
        if eq_ignore_case(text, "low") {
            Some(StageQuality::Low)
        } else if eq_ignore_case(text, "medium") {
            Some(StageQuality::Medium)
        } else if eq_ignore_case(text, "high") {
            Some(StageQuality::High)
        } else if eq_ignore_case(text, "best") {
            Some(StageQuality::Best)
        } else if eq_ignore_case(text, "8x8") {
            Some(StageQuality::High8x8)
        } else if eq_ignore_case(text, "8x8linear") {
            Some(StageQuality::High8x8Linear)
        } else if eq_ignore_case(text, "16x16") {
            Some(StageQuality::High16x16)
        } else if eq_ignore_case(text, "16x16linear") {
            Some(StageQuality::High16x16Linear)
        } else {
            None
        }
    }
}

} // verus!
