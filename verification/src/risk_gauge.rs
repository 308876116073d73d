//! The risk gauge: a risk score and the risk indicators under it.

use crate::models::RiskIndicator;
use crate::theme::Theme;
use vstd::prelude::*;

verus! {

/// Rows that the score takes at the top of the gauge: its line and a blank
/// line under it.
pub const SCORE_ROWS: u16 = 2;

/// What a risk gauge shows. The score and the values of the indicators are
/// bit patterns of doubles.
pub struct RiskGauge<'a> {
    pub risk_score: Option<u64>,
    pub risk_indicators: &'a Vec<RiskIndicator>,
    pub theme: &'a Theme,
    /// The frame, where one is wanted.
    pub block: Option<ratatui::widgets::Block<'a>>,
}

impl<'a> RiskGauge<'a> {
    /// A gauge without a frame.
    pub fn new(
        risk_score: Option<u64>,
        risk_indicators: &'a Vec<RiskIndicator>,
        theme: &'a Theme,
    ) -> (gauge: Self)
        ensures
            gauge.risk_score == risk_score,
            gauge.risk_indicators == risk_indicators,
            gauge.theme == theme,
            gauge.block.is_none(),
    {
        RiskGauge { risk_score, risk_indicators, theme, block: None }
    }

    /// The same gauge with `block` as its frame.
    pub fn block(self, block: ratatui::widgets::Block<'a>) -> (gauge: Self)
        ensures
            gauge.risk_score == self.risk_score,
            gauge.risk_indicators == self.risk_indicators,
            gauge.theme == self.theme,
            gauge.block == Some(block),
    {
        RiskGauge {
            risk_score: self.risk_score,
            risk_indicators: self.risk_indicators,
            theme: self.theme,
            block: Some(block),
        }
    }

    /// Number of indicators that an area of `height` rows has room for,
    /// under the rows of the score.
    pub open spec fn rows_for_indicators(&self, height: u16) -> nat {
        if height <= SCORE_ROWS {
            0
        } else if self.risk_indicators@.len() <= height - SCORE_ROWS {
            self.risk_indicators@.len()
        } else {
            (height - SCORE_ROWS) as nat
        }
    }

    /// Number of indicators shown in an area of `height` rows: one on each
    /// row under the rows of the score, as far as the area reaches.
    pub fn indicator_rows(&self, height: u16) -> (rows: usize)
        ensures
            rows == self.rows_for_indicators(height),
    {
        if height <= SCORE_ROWS {
            0
        } else {
            let room = (height - SCORE_ROWS) as usize;
            if self.risk_indicators.len() <= room {
                self.risk_indicators.len()
            } else {
                room
            }
        }
    }

    /// Whether the gauge says that there is no risk data: there is neither
    /// a score nor an indicator, and the area reaches below the rows of the
    /// score.
    pub fn shows_no_data(&self, height: u16) -> (yes: bool)
        ensures
            yes == (self.risk_score.is_none() && self.risk_indicators@.len() == 0 && height
                > SCORE_ROWS),
    {
        self.risk_score.is_none() && self.risk_indicators.len() == 0 && height > SCORE_ROWS
    }
}

} // verus!
