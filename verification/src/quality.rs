//! Quality tiers: the preference a conversation can store, its height cap,
//! and the texts that name it on buttons, in button payloads and in
//! confirmations.

use vstd::prelude::*;
use crate::decimal::{decimal, lemma_decimal_injective};
use crate::text::same_text;

verus! {

/// A preferred video quality: a cap on the picture height, or no cap.
#[derive(Clone, Copy, Debug, PartialEq, Eq, Hash, Structural)]
pub enum QualityPreference {
    /// At most 360 lines.
    P360,
    /// At most 720 lines.
    P720,
    /// At most 1080 lines.
    P1080,
    /// The best the source offers.
    Best,
}

impl Default for QualityPreference {
    /// A conversation that never chose a tier gets the best available.
    fn default() -> (preference: Self)
        ensures
            preference == QualityPreference::Best,
    {
        QualityPreference::Best
    }
}

impl QualityPreference {
    /// The greatest picture height the tier allows, if it has a cap.
    pub open spec fn cap(self) -> Option<u64> {
        match self {
            QualityPreference::P360 => Some(360),
            QualityPreference::P720 => Some(720),
            QualityPreference::P1080 => Some(1080),
            QualityPreference::Best => None,
        }
    }

    /// The name of the tier: its cap in decimal followed by `p`, or `best`.
    pub open spec fn label_text(self) -> Seq<char> {
        match self.cap() {
            Some(height) => decimal(height as nat).push('p'),
            None => "best"@,
        }
    }

    /// What a selector button shows for the tier.
    pub open spec fn caption_text(self) -> Seq<char> {
        match self.cap() {
            Some(height) => decimal(height as nat).push('p'),
            None => "Best"@,
        }
    }

    /// What a selector button carries for the tier: `quality_` and the label.
    pub open spec fn payload_text(self) -> Seq<char> {
        "quality_"@ + self.label_text()
    }

    /// The tier that a label names. Any text that is not the label of a
    /// capped tier stands for [`QualityPreference::Best`].
    pub open spec fn of_label(label: Seq<char>) -> QualityPreference {
        if label == QualityPreference::P360.label_text() {
            QualityPreference::P360
        } else if label == QualityPreference::P720.label_text() {
            QualityPreference::P720
        } else if label == QualityPreference::P1080.label_text() {
            QualityPreference::P1080
        } else {
            QualityPreference::Best
        }
    }

    /// The tier that a button payload selects, if it selects one.
    pub open spec fn of_payload(payload: Seq<char>) -> Option<QualityPreference> {
        if payload == QualityPreference::P360.payload_text() {
            Some(QualityPreference::P360)
        } else if payload == QualityPreference::P720.payload_text() {
            Some(QualityPreference::P720)
        } else if payload == QualityPreference::P1080.payload_text() {
            Some(QualityPreference::P1080)
        } else if payload == QualityPreference::Best.payload_text() {
            Some(QualityPreference::Best)
        } else {
            None
        }
    }

    /// The numerals of the three caps, digit by digit.
    pub proof fn lemma_cap_numerals()
        ensures
            decimal(360) == seq!['3', '6', '0'],
            decimal(720) == seq!['7', '2', '0'],
            decimal(1080) == seq!['1', '0', '8', '0'],
    {
        reveal_with_fuel(decimal, 5);
    }

    /// The greatest picture height the tier allows, if it has a cap.
    pub fn height_cap(self) -> (cap: Option<u64>)
        ensures
            cap == self.cap(),
    {
        match self {
            QualityPreference::P360 => Some(360),
            QualityPreference::P720 => Some(720),
            QualityPreference::P1080 => Some(1080),
            QualityPreference::Best => None,
        }
    }

    /// The name of the tier, as shown in confirmations.
    pub fn label(self) -> (label: &'static str)
        ensures
            label@ == self.label_text(),
    {
        proof {
            Self::lemma_cap_numerals();
            reveal_strlit("360p");
            reveal_strlit("720p");
            reveal_strlit("1080p");
        }
        match self {
            QualityPreference::P360 => "360p",
            QualityPreference::P720 => "720p",
            QualityPreference::P1080 => "1080p",
            QualityPreference::Best => "best",
        }
    }

    /// What a selector button shows for the tier.
    pub fn caption(self) -> (caption: &'static str)
        ensures
            caption@ == self.caption_text(),
    {
        proof {
            Self::lemma_cap_numerals();
            reveal_strlit("360p");
            reveal_strlit("720p");
            reveal_strlit("1080p");
        }
        match self {
            QualityPreference::P360 => "360p",
            QualityPreference::P720 => "720p",
            QualityPreference::P1080 => "1080p",
            QualityPreference::Best => "Best",
        }
    }

    /// What a selector button carries for the tier.
    pub fn payload(self) -> (payload: &'static str)
        ensures
            payload@ == self.payload_text(),
    {
        proof {
            Self::lemma_cap_numerals();
            reveal_strlit("quality_");
            reveal_strlit("best");
            reveal_strlit("quality_360p");
            reveal_strlit("quality_720p");
            reveal_strlit("quality_1080p");
            reveal_strlit("quality_best");
        }
        match self {
            QualityPreference::P360 => "quality_360p",
            QualityPreference::P720 => "quality_720p",
            QualityPreference::P1080 => "quality_1080p",
            QualityPreference::Best => "quality_best",
        }
    }

    /// Reads a tier from its label. Any other text gives
    /// [`QualityPreference::Best`].
    pub fn from_label(label: &str) -> (preference: Self)
        ensures
            preference == Self::of_label(label@),
    {
        if same_text(label, QualityPreference::P360.label()) {
            QualityPreference::P360
        } else if same_text(label, QualityPreference::P720.label()) {
            QualityPreference::P720
        } else if same_text(label, QualityPreference::P1080.label()) {
            QualityPreference::P1080
        } else {
            QualityPreference::Best
        }
    }

    /// Reads a tier from a button payload. A payload that no selector button
    /// carries gives `None`.
    pub fn from_payload(payload: &str) -> (preference: Option<Self>)
        ensures
            preference == Self::of_payload(payload@),
    {
        if same_text(payload, QualityPreference::P360.payload()) {
            Some(QualityPreference::P360)
        } else if same_text(payload, QualityPreference::P720.payload()) {
            Some(QualityPreference::P720)
        } else if same_text(payload, QualityPreference::P1080.payload()) {
            Some(QualityPreference::P1080)
        } else if same_text(payload, QualityPreference::Best.payload()) {
            Some(QualityPreference::Best)
        } else {
            None
        }
    }

    /// No two tiers share a label.
    pub proof fn lemma_labels_distinct(a: QualityPreference, b: QualityPreference)
        ensures
            a.label_text() == b.label_text() <==> a == b,
    {
        if a.label_text() == b.label_text() {
            Self::lemma_same_label_same_tier(a, b);
        }
    }

    proof fn lemma_same_label_same_tier(a: QualityPreference, b: QualityPreference)
        requires
            a.label_text() == b.label_text(),
        ensures
            a == b,
    {
        reveal_strlit("best");
        match (a.cap(), b.cap()) {
            (Some(x), Some(y)) => {
                assert(a.label_text().drop_last() =~= decimal(x as nat));
                assert(b.label_text().drop_last() =~= decimal(y as nat));
                lemma_decimal_injective(x as nat, y as nat);
            },
            (Some(x), None) => {
                Self::lemma_cap_numerals();
                assert(b.label_text()[0] == 'b');
                assert(a.label_text()[0] != 'b');
            },
            (None, Some(y)) => {
                Self::lemma_cap_numerals();
                assert(a.label_text()[0] == 'b');
                assert(b.label_text()[0] != 'b');
            },
            (None, None) => {},
        }
    }

    /// Reading a tier's label gives the tier back.
    pub proof fn lemma_label_round_trip(preference: QualityPreference)
        ensures
            Self::of_label(preference.label_text()) == preference,
    {
        Self::lemma_labels_distinct(preference, QualityPreference::P360);
        Self::lemma_labels_distinct(preference, QualityPreference::P720);
        Self::lemma_labels_distinct(preference, QualityPreference::P1080);
    }

    /// A text that is the label of no capped tier reads as
    /// [`QualityPreference::Best`], which has no cap.
    pub proof fn lemma_unknown_label_is_uncapped(label: Seq<char>)
        requires
            label != QualityPreference::P360.label_text(),
            label != QualityPreference::P720.label_text(),
            label != QualityPreference::P1080.label_text(),
        ensures
            Self::of_label(label) == QualityPreference::Best,
            Self::of_label(label).cap() is None,
    {
    }

    /// No two tiers share a payload.
    pub proof fn lemma_payloads_distinct(a: QualityPreference, b: QualityPreference)
        ensures
            a.payload_text() == b.payload_text() <==> a == b,
    {
        let head = "quality_"@;
        assert(a.payload_text().skip(head.len() as int) =~= a.label_text());
        assert(b.payload_text().skip(head.len() as int) =~= b.label_text());
        Self::lemma_labels_distinct(a, b);
    }

    /// Reading the payload of a tier's button gives the tier back, and a
    /// payload is read as a tier only if it is that tier's payload.
    pub proof fn lemma_payload_round_trip(preference: QualityPreference, payload: Seq<char>)
        ensures
            Self::of_payload(preference.payload_text()) == Some(preference),
            Self::of_payload(payload) == Some(preference) <==> payload
                == preference.payload_text(),
    {
        Self::lemma_payloads_distinct(preference, QualityPreference::P360);
        Self::lemma_payloads_distinct(preference, QualityPreference::P720);
        Self::lemma_payloads_distinct(preference, QualityPreference::P1080);
        Self::lemma_payloads_distinct(preference, QualityPreference::Best);
    }
}

/// The selector that the `quality` command offers: two rows of two buttons.
pub open spec fn keyboard_rows() -> Seq<Seq<QualityPreference>> {
    seq![
        seq![QualityPreference::P360, QualityPreference::P720],
        seq![QualityPreference::P1080, QualityPreference::Best],
    ]
}

/// The tiers in the rows of a selector.
pub open spec fn rows_of(rows: Seq<Vec<QualityPreference>>) -> Seq<Seq<QualityPreference>> {
    rows.map_values(|row: Vec<QualityPreference>| row@)
}

/// The tiers of the selector, row by row. Each button shows the tier's
/// caption and carries its payload.
pub fn quality_keyboard() -> (rows: Vec<Vec<QualityPreference>>)
    ensures
        rows_of(rows@) == keyboard_rows(),
{
    let mut first: Vec<QualityPreference> = Vec::new();
    first.push(QualityPreference::P360);
    first.push(QualityPreference::P720);
    let mut second: Vec<QualityPreference> = Vec::new();
    second.push(QualityPreference::P1080);
    second.push(QualityPreference::Best);
    let mut rows: Vec<Vec<QualityPreference>> = Vec::new();
    rows.push(first);
    rows.push(second);
    assert(rows_of(rows@) =~~= keyboard_rows());
    rows
}

/// Every tier has exactly one button in the selector.
pub proof fn lemma_keyboard_offers_each_once(preference: QualityPreference)
    ensures
        exists|r: int, c: int|
            0 <= r < keyboard_rows().len() && 0 <= c < keyboard_rows()[r].len()
                && #[trigger] keyboard_rows()[r][c] == preference,
        forall|r: int, c: int, s: int, d: int|
            0 <= r < keyboard_rows().len() && 0 <= c < keyboard_rows()[r].len() && 0 <= s
                < keyboard_rows().len() && 0 <= d < keyboard_rows()[s].len()
                && #[trigger] keyboard_rows()[r][c] == #[trigger] keyboard_rows()[s][d] ==> r == s
                && c == d,
{
    let rows = keyboard_rows();
    match preference {
        QualityPreference::P360 => {
            assert(rows[0][0] == preference);
        },
        QualityPreference::P720 => {
            assert(rows[0][1] == preference);
        },
        QualityPreference::P1080 => {
            assert(rows[1][0] == preference);
        },
        QualityPreference::Best => {
            assert(rows[1][1] == preference);
        },
    }
}

} // verus!
