use vstd::prelude::*;

use crate::text::text_equals;

verus! {

/// A historical window that the user can pick for the price chart.
#[derive(Clone, Copy, Debug, Eq)]
pub enum TimeFrame {
    FiveDays,
    OneMonth,
    ThreeMonths,
    SixMonths,
    YearToDate,
    OneYear,
    TwoYears,
    FiveYears,
    TenYears,
    Max,
}

impl TimeFrame {
    /// Position in declaration order.
    pub open spec fn rank(self) -> u8 {
        match self {
            TimeFrame::FiveDays => 0,
            TimeFrame::OneMonth => 1,
            TimeFrame::ThreeMonths => 2,
            TimeFrame::SixMonths => 3,
            TimeFrame::YearToDate => 4,
            TimeFrame::OneYear => 5,
            TimeFrame::TwoYears => 6,
            TimeFrame::FiveYears => 7,
            TimeFrame::TenYears => 8,
            TimeFrame::Max => 9,
        }
    }

    /// Position in declaration order.
    pub fn ordinal(self) -> (r: u8)
        ensures
            r == self.rank(),
            all_time_frames()[r as int] == self,
    {
        match self {
            TimeFrame::FiveDays => 0,
            TimeFrame::OneMonth => 1,
            TimeFrame::ThreeMonths => 2,
            TimeFrame::SixMonths => 3,
            TimeFrame::YearToDate => 4,
            TimeFrame::OneYear => 5,
            TimeFrame::TwoYears => 6,
            TimeFrame::FiveYears => 7,
            TimeFrame::TenYears => 8,
            TimeFrame::Max => 9,
        }
    }
}

impl PartialEq for TimeFrame {
    fn eq(&self, other: &TimeFrame) -> (r: bool) {
        self.ordinal() == other.ordinal()
    }
}

impl vstd::std_specs::cmp::PartialEqSpecImpl for TimeFrame {
    open spec fn obeys_eq_spec() -> bool {
        true
    }

    open spec fn eq_spec(&self, other: &TimeFrame) -> bool {
        *self == *other
    }
}

/// Why a piece of text does not name a time frame.
#[derive(Clone, Copy, Debug, PartialEq, Eq, Structural)]
pub enum ParseTimeFrameError {
    Empty,
    Invalid,
}

/// Every time frame, in declaration order.
pub open spec fn all_time_frames() -> Seq<TimeFrame> {
    seq![
        TimeFrame::FiveDays,
        TimeFrame::OneMonth,
        TimeFrame::ThreeMonths,
        TimeFrame::SixMonths,
        TimeFrame::YearToDate,
        TimeFrame::OneYear,
        TimeFrame::TwoYears,
        TimeFrame::FiveYears,
        TimeFrame::TenYears,
        TimeFrame::Max,
    ]
}

impl TimeFrame {
    /// Length of the window in calendar days; none for the open-ended frames.
    pub open spec fn duration_days(self) -> Option<nat> {
        match self {
            TimeFrame::FiveDays => Some(5),
            TimeFrame::OneMonth => Some(30),
            TimeFrame::ThreeMonths => Some(90),
            TimeFrame::SixMonths => Some(180),
            TimeFrame::OneYear => Some(360),
            TimeFrame::TwoYears => Some(720),
            TimeFrame::FiveYears => Some(1800),
            TimeFrame::TenYears => Some(3600),
            TimeFrame::YearToDate => None,
            TimeFrame::Max => None,
        }
    }

    /// The short code shown to the user.
    pub open spec fn display_code(self) -> Seq<char> {
        match self {
            TimeFrame::FiveDays => seq!['5', 'D'],
            TimeFrame::OneMonth => seq!['1', 'M'],
            TimeFrame::ThreeMonths => seq!['3', 'M'],
            TimeFrame::SixMonths => seq!['6', 'M'],
            TimeFrame::YearToDate => seq!['Y', 'T', 'D'],
            TimeFrame::OneYear => seq!['1', 'Y'],
            TimeFrame::TwoYears => seq!['2', 'Y'],
            TimeFrame::FiveYears => seq!['5', 'Y'],
            TimeFrame::TenYears => seq!['1', '0', 'Y'],
            TimeFrame::Max => seq!['M', 'A', 'X'],
        }
    }

    /// The granularity code of the price provider.
    pub open spec fn provider_code(self) -> Seq<char> {
        match self {
            TimeFrame::FiveDays => seq!['5', 'd'],
            TimeFrame::OneMonth => seq!['1', 'm', 'o'],
            TimeFrame::ThreeMonths => seq!['3', 'm', 'o'],
            TimeFrame::SixMonths => seq!['6', 'm', 'o'],
            TimeFrame::YearToDate => seq!['y', 't', 'd'],
            TimeFrame::OneYear => seq!['1', 'y'],
            TimeFrame::TwoYears => seq!['2', 'y'],
            TimeFrame::FiveYears => seq!['5', 'y'],
            TimeFrame::TenYears => seq!['1', '0', 'y'],
            TimeFrame::Max => seq!['m', 'a', 'x'],
        }
    }

    /// Whether `s` is one of the two codes of this frame.
    pub open spec fn is_named_by(self, s: Seq<char>) -> bool {
        s == self.display_code() || s == self.provider_code()
    }
}

/// The frame named by `s`, or why there is none.
pub open spec fn parse_time_frame(s: Seq<char>) -> Result<TimeFrame, ParseTimeFrameError> {
    if TimeFrame::FiveDays.is_named_by(s) {
        Ok(TimeFrame::FiveDays)
    } else if TimeFrame::OneMonth.is_named_by(s) {
        Ok(TimeFrame::OneMonth)
    } else if TimeFrame::ThreeMonths.is_named_by(s) {
        Ok(TimeFrame::ThreeMonths)
    } else if TimeFrame::SixMonths.is_named_by(s) {
        Ok(TimeFrame::SixMonths)
    } else if TimeFrame::YearToDate.is_named_by(s) {
        Ok(TimeFrame::YearToDate)
    } else if TimeFrame::OneYear.is_named_by(s) {
        Ok(TimeFrame::OneYear)
    } else if TimeFrame::TwoYears.is_named_by(s) {
        Ok(TimeFrame::TwoYears)
    } else if TimeFrame::FiveYears.is_named_by(s) {
        Ok(TimeFrame::FiveYears)
    } else if TimeFrame::TenYears.is_named_by(s) {
        Ok(TimeFrame::TenYears)
    } else if TimeFrame::Max.is_named_by(s) {
        Ok(TimeFrame::Max)
    } else if s.len() == 0 {
        Err(ParseTimeFrameError::Empty)
    } else {
        Err(ParseTimeFrameError::Invalid)
    }
}

/// Parsing either code of any frame gives that frame back.
pub proof fn lemma_parse_codes_round_trip(t: TimeFrame)
    ensures
        parse_time_frame(t.display_code()) == Ok::<TimeFrame, ParseTimeFrameError>(t),
        parse_time_frame(t.provider_code()) == Ok::<TimeFrame, ParseTimeFrameError>(t),
{
}

impl TimeFrame {
    /// Length of the window in calendar days; none for YearToDate and Max.
    pub fn duration(self) -> (r: Option<u32>)
        ensures
            r matches Some(d) ==> self.duration_days() == Some(d as nat),
            r is None ==> self.duration_days() is None,
    {
        match self {
            TimeFrame::FiveDays => Some(5),
            TimeFrame::OneMonth => Some(30),
            TimeFrame::ThreeMonths => Some(30 * 3),
            TimeFrame::SixMonths => Some(30 * 6),
            TimeFrame::OneYear => Some(30 * 12),
            TimeFrame::TwoYears => Some(30 * 12 * 2),
            TimeFrame::FiveYears => Some(30 * 12 * 5),
            TimeFrame::TenYears => Some(30 * 12 * 10),
            _ => None,
        }
    }

    /// The short code shown to the user ("5D", "YTD", ...).
    pub fn to_display_code(self) -> (r: &'static str)
        ensures
            r@ == self.display_code(),
    {
        match self {
            TimeFrame::FiveDays => {
                proof {
                    reveal_strlit("5D");
                }
                "5D"
            },
            TimeFrame::OneMonth => {
                proof {
                    reveal_strlit("1M");
                }
                "1M"
            },
            TimeFrame::ThreeMonths => {
                proof {
                    reveal_strlit("3M");
                }
                "3M"
            },
            TimeFrame::SixMonths => {
                proof {
                    reveal_strlit("6M");
                }
                "6M"
            },
            TimeFrame::YearToDate => {
                proof {
                    reveal_strlit("YTD");
                }
                "YTD"
            },
            TimeFrame::OneYear => {
                proof {
                    reveal_strlit("1Y");
                }
                "1Y"
            },
            TimeFrame::TwoYears => {
                proof {
                    reveal_strlit("2Y");
                }
                "2Y"
            },
            TimeFrame::FiveYears => {
                proof {
                    reveal_strlit("5Y");
                }
                "5Y"
            },
            TimeFrame::TenYears => {
                proof {
                    reveal_strlit("10Y");
                }
                "10Y"
            },
            TimeFrame::Max => {
                proof {
                    reveal_strlit("MAX");
                }
                "MAX"
            },
        }
    }

    /// The granularity code that the price provider expects ("5d", "1mo", ...).
    pub fn interval(self) -> (r: &'static str)
        ensures
            r@ == self.provider_code(),
    {
        match self {
            TimeFrame::FiveDays => {
                proof {
                    reveal_strlit("5d");
                }
                "5d"
            },
            TimeFrame::OneMonth => {
                proof {
                    reveal_strlit("1mo");
                }
                "1mo"
            },
            TimeFrame::ThreeMonths => {
                proof {
                    reveal_strlit("3mo");
                }
                "3mo"
            },
            TimeFrame::SixMonths => {
                proof {
                    reveal_strlit("6mo");
                }
                "6mo"
            },
            TimeFrame::YearToDate => {
                proof {
                    reveal_strlit("ytd");
                }
                "ytd"
            },
            TimeFrame::OneYear => {
                proof {
                    reveal_strlit("1y");
                }
                "1y"
            },
            TimeFrame::TwoYears => {
                proof {
                    reveal_strlit("2y");
                }
                "2y"
            },
            TimeFrame::FiveYears => {
                proof {
                    reveal_strlit("5y");
                }
                "5y"
            },
            TimeFrame::TenYears => {
                proof {
                    reveal_strlit("10y");
                }
                "10y"
            },
            TimeFrame::Max => {
                proof {
                    reveal_strlit("max");
                }
                "max"
            },
        }
    }

    fn is_named_by_text(self, s: &str) -> (r: bool)
        ensures
            r == self.is_named_by(s@),
    {
        text_equals(s, self.to_display_code()) || text_equals(s, self.interval())
    }

    /// Reads a frame from either of its codes.
    pub fn parse(s: &str) -> (r: Result<TimeFrame, ParseTimeFrameError>)
        ensures
            r == parse_time_frame(s@),
    {
        if TimeFrame::FiveDays.is_named_by_text(s) {
            Ok(TimeFrame::FiveDays)
        } else if TimeFrame::OneMonth.is_named_by_text(s) {
            Ok(TimeFrame::OneMonth)
        } else if TimeFrame::ThreeMonths.is_named_by_text(s) {
            Ok(TimeFrame::ThreeMonths)
        } else if TimeFrame::SixMonths.is_named_by_text(s) {
            Ok(TimeFrame::SixMonths)
        } else if TimeFrame::YearToDate.is_named_by_text(s) {
            Ok(TimeFrame::YearToDate)
        } else if TimeFrame::OneYear.is_named_by_text(s) {
            Ok(TimeFrame::OneYear)
        } else if TimeFrame::TwoYears.is_named_by_text(s) {
            Ok(TimeFrame::TwoYears)
        } else if TimeFrame::FiveYears.is_named_by_text(s) {
            Ok(TimeFrame::FiveYears)
        } else if TimeFrame::TenYears.is_named_by_text(s) {
            Ok(TimeFrame::TenYears)
        } else if TimeFrame::Max.is_named_by_text(s) {
            Ok(TimeFrame::Max)
        } else if s.unicode_len() == 0 {
            Err(ParseTimeFrameError::Empty)
        } else {
            Err(ParseTimeFrameError::Invalid)
        }
    }

    /// Every frame, in declaration order.
    pub fn all() -> (r: Vec<TimeFrame>)
        ensures
            r@ == all_time_frames(),
    {
        let r = vec![
            TimeFrame::FiveDays,
            TimeFrame::OneMonth,
            TimeFrame::ThreeMonths,
            TimeFrame::SixMonths,
            TimeFrame::YearToDate,
            TimeFrame::OneYear,
            TimeFrame::TwoYears,
            TimeFrame::FiveYears,
            TimeFrame::TenYears,
            TimeFrame::Max,
        ];
        assert(r@ =~= all_time_frames());
        r
    }
}

impl std::str::FromStr for TimeFrame {
    type Err = ParseTimeFrameError;

    fn from_str(s: &str) -> (r: Result<TimeFrame, ParseTimeFrameError>)
        ensures
            r == parse_time_frame(s@),
    {
        TimeFrame::parse(s)
    }
}

} // verus!
