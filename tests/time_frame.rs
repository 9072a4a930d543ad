use stonks::{ParseTimeFrameError, TimeFrame};

const ALL: [TimeFrame; 10] = [
    TimeFrame::FiveDays,
    TimeFrame::OneMonth,
    TimeFrame::ThreeMonths,
    TimeFrame::SixMonths,
    TimeFrame::YearToDate,
    TimeFrame::OneYear,
    TimeFrame::TwoYears,
    TimeFrame::FiveYears,
    TimeFrame::TenYears,
    TimeFrame::Max,
];

#[test]
fn display_code_round_trips() {
    for t in ALL {
        assert_eq!(TimeFrame::parse(t.to_display_code()), Ok(t));
    }
}

#[test]
fn provider_code_round_trips() {
    for t in ALL {
        assert_eq!(TimeFrame::parse(t.interval()), Ok(t));
    }
}

#[test]
fn display_codes() {
    let codes: Vec<&str> = ALL.iter().map(|t| t.to_display_code()).collect();
    assert_eq!(codes, vec!["5D", "1M", "3M", "6M", "YTD", "1Y", "2Y", "5Y", "10Y", "MAX"]);
}

#[test]
fn provider_codes() {
    let codes: Vec<&str> = ALL.iter().map(|t| t.interval()).collect();
    assert_eq!(codes, vec!["5d", "1mo", "3mo", "6mo", "ytd", "1y", "2y", "5y", "10y", "max"]);
}

#[test]
fn parse_empty_fails_with_empty() {
    assert_eq!(TimeFrame::parse(""), Err(ParseTimeFrameError::Empty));
}

#[test]
fn parse_unknown_fails_with_invalid() {
    assert_eq!(TimeFrame::parse("xyz"), Err(ParseTimeFrameError::Invalid));
    assert_eq!(TimeFrame::parse("1m"), Err(ParseTimeFrameError::Invalid));
    assert_eq!(TimeFrame::parse("5D "), Err(ParseTimeFrameError::Invalid));
}

#[test]
fn parse_through_from_str() {
    assert_eq!("ytd".parse::<TimeFrame>(), Ok(TimeFrame::YearToDate));
    assert_eq!("".parse::<TimeFrame>(), Err(ParseTimeFrameError::Empty));
}

#[test]
fn durations_in_days() {
    let days: Vec<Option<u32>> = ALL.iter().map(|t| t.duration()).collect();
    assert_eq!(
        days,
        vec![
            Some(5),
            Some(30),
            Some(90),
            Some(180),
            None,
            Some(360),
            Some(720),
            Some(1800),
            Some(3600),
            None
        ]
    );
}

#[test]
fn all_in_declaration_order() {
    assert_eq!(TimeFrame::all(), ALL.to_vec());
    for (i, t) in ALL.iter().enumerate() {
        assert_eq!(t.ordinal() as usize, i);
    }
}

#[test]
fn from_str_reads_both_codes() {
    let all = TimeFrame::all();
    for t in all {
        assert_eq!(t.to_display_code().parse::<TimeFrame>(), Ok(t));
        assert_eq!(t.interval().parse::<TimeFrame>(), Ok(t));
    }
    assert_eq!("1mo".parse::<TimeFrame>(), Ok(TimeFrame::OneMonth));
    assert_eq!("max".parse::<TimeFrame>(), Ok(TimeFrame::Max));
    assert_eq!("xyz".parse::<TimeFrame>(), Err(ParseTimeFrameError::Invalid));
}
